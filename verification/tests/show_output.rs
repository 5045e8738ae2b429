use btrfs_cli::command_outcome;
use btrfs_cli::parse_generation;
use btrfs_cli::subvolume_show_from_output;
use btrfs_cli::BtrfsError;
use btrfs_cli::BtrfsSubvolumeShow;

const SHOW_OUTPUT: &[u8] = b"vol\n\
\tName: \t\t\tvol\n\
\tUUID: \t\t\t7c4f41e1-6d2c-4c3f-9a30-2d4e8a1f5b6d\n\
\tCreation time: \t\t2024-03-01 12:00:00 +0000\n\
\tSubvolume ID: \t\t256\n\
\tGeneration: \t\t42\n\
\tGen at creation: \t40\n\
\tFlags: \t\t\t-\n";

#[test]
fn reads_generation_from_show_output() {
    assert_eq!(parse_generation(SHOW_OUTPUT), Ok(42));
}

#[test]
fn empty_output_has_no_generation() {
    assert_eq!(parse_generation(b""), Err(BtrfsError::MissingGeneration));
}

#[test]
fn unrelated_text_has_no_generation() {
    let out = b"ERROR: cannot find real path for 'x': No such file or directory\n";
    assert_eq!(parse_generation(out), Err(BtrfsError::MissingGeneration));
}

#[test]
fn label_without_whitespace_does_not_match() {
    assert_eq!(parse_generation(b"Generation:42\n"), Err(BtrfsError::MissingGeneration));
}

#[test]
fn label_without_digits_does_not_match() {
    assert_eq!(parse_generation(b"Generation: \t-\n"), Err(BtrfsError::MissingGeneration));
}

#[test]
fn first_matching_occurrence_wins() {
    // the first label has no whitespace after it, so the second one matches
    assert_eq!(parse_generation(b"Generation:5 Generation: 7"), Ok(7));
}

#[test]
fn earlier_of_two_matches_wins() {
    assert_eq!(parse_generation(b"Generation: 7 Generation: 9"), Ok(7));
}

#[test]
fn digit_run_stops_at_the_first_non_digit() {
    assert_eq!(parse_generation(b"Generation: \t 00123abc"), Ok(123));
}

#[test]
fn largest_value_is_read_exactly() {
    assert_eq!(parse_generation(b"Generation: 18446744073709551615\n"), Ok(u64::MAX));
}

#[test]
fn value_one_past_the_largest_overflows() {
    assert_eq!(
        parse_generation(b"Generation: 18446744073709551616\n"),
        Err(BtrfsError::GenerationOverflow)
    );
}

#[test]
fn long_digit_run_overflows() {
    assert_eq!(
        parse_generation(b"Generation: 99999999999999999999999\n"),
        Err(BtrfsError::GenerationOverflow)
    );
}

#[test]
fn show_output_of_failed_command_is_a_command_failure() {
    assert_eq!(
        subvolume_show_from_output(false, SHOW_OUTPUT),
        Err(BtrfsError::CommandFailed)
    );
}

#[test]
fn show_output_of_successful_command_carries_the_generation() {
    assert_eq!(
        subvolume_show_from_output(true, SHOW_OUTPUT),
        Ok(BtrfsSubvolumeShow { generation: 42 })
    );
}

#[test]
fn show_output_without_generation_is_reported_missing() {
    assert_eq!(
        subvolume_show_from_output(true, b"vol\n\tFlags: -\n"),
        Err(BtrfsError::MissingGeneration)
    );
}

#[test]
fn shortest_possible_match_is_read() {
    // exactly the label, one space and one digit
    assert_eq!(parse_generation(b"Generation: 1"), Ok(1));
}

#[test]
fn truncated_label_does_not_match() {
    assert_eq!(parse_generation(b"Generation"), Err(BtrfsError::MissingGeneration));
}

#[test]
fn any_ascii_whitespace_separates_label_and_digits() {
    assert_eq!(parse_generation(b"Generation:\n\t 8"), Ok(8));
}

#[test]
fn successful_exit_status_is_ok() {
    assert_eq!(command_outcome(true), Ok(()));
}

#[test]
fn failed_exit_status_is_a_command_failure() {
    assert_eq!(command_outcome(false), Err(BtrfsError::CommandFailed));
}
