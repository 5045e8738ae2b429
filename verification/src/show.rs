use vstd::prelude::*;

verus! {

/// Parsed output of the `btrfs subvolume show` command.
#[derive(Clone, Copy, Debug, PartialEq, Eq, Structural)]
pub struct BtrfsSubvolumeShow {
    /// Current generation number of this subvolume.
    pub generation: u64,
}

/// What can go wrong when a BTRFS command is run and its output read.
#[derive(Clone, Copy, Debug, PartialEq, Eq, Structural)]
pub enum BtrfsError {
    /// The external command exited with a non-success status.
    CommandFailed,
    /// The output of `btrfs subvolume show` holds no generation line.
    MissingGeneration,
    /// The generation number in the output does not fit in a `u64`.
    GenerationOverflow,
}

/// A decimal digit, as a byte.
pub open spec fn is_digit(b: u8) -> bool {
    48 <= b <= 57
}

/// An ASCII whitespace byte: tab, line feed, vertical tab, form feed,
/// carriage return or space.
pub open spec fn is_space(b: u8) -> bool {
    b == 32 || b == 9 || b == 10 || b == 11 || b == 12 || b == 13
}

/// The eleven bytes of the label `Generation:` stand in `s` at offset `i`.
pub open spec fn label_at(s: Seq<u8>, i: int) -> bool {
    &&& 0 <= i
    &&& i + 11 <= s.len()
    &&& s[i] == 71
    &&& s[i + 1] == 101
    &&& s[i + 2] == 110
    &&& s[i + 3] == 101
    &&& s[i + 4] == 114
    &&& s[i + 5] == 97
    &&& s[i + 6] == 116
    &&& s[i + 7] == 105
    &&& s[i + 8] == 111
    &&& s[i + 9] == 110
    &&& s[i + 10] == 58
}

/// After a label at `i`, whitespace runs from `i + 11` up to `j`, at least one
/// byte of it, and a digit stands at `j`.
pub open spec fn gap_digit_at(s: Seq<u8>, i: int, j: int) -> bool {
    &&& i + 12 <= j < s.len()
    &&& forall|k: int| i + 11 <= k < j ==> is_space(s[k])
    &&& is_digit(s[j])
}

/// The pattern `Generation:`, one or more whitespace bytes, one or more
/// digits, matches in `s` starting at offset `i`.
pub open spec fn match_at(s: Seq<u8>, i: int) -> bool {
    label_at(s, i) && exists|j: int| gap_digit_at(s, i, j)
}

/// Some offset of `s` starts a generation match.
pub open spec fn has_generation_match(s: Seq<u8>) -> bool {
    exists|i: int| match_at(s, i)
}

/// `s` holds digits from `j` up to `m`, and the run cannot be extended: `m` is
/// the end of `s` or the byte at `m` is no digit.
pub open spec fn digit_run_ends(s: Seq<u8>, j: int, m: int) -> bool {
    &&& 0 <= j < m <= s.len()
    &&& forall|k: int| j <= k < m ==> is_digit(s[k])
    &&& (m == s.len() || !is_digit(s[m]))
}

/// A whole generation match in `s`: the label at `i`, whitespace up to `j`,
/// and the captured digit run from `j` up to `m`.
pub open spec fn full_match(s: Seq<u8>, i: int, j: int, m: int) -> bool {
    &&& label_at(s, i)
    &&& gap_digit_at(s, i, j)
    &&& digit_run_ends(s, j, m)
}

/// A whole match at `i`, and no match starts earlier.
pub open spec fn leftmost_full_match(s: Seq<u8>, i: int, j: int, m: int) -> bool {
    &&& full_match(s, i, j, m)
    &&& forall|i2: int| 0 <= i2 < i ==> !match_at(s, i2)
}

/// The value of a digit string read in base ten.
pub open spec fn digits_value(s: Seq<u8>) -> nat
    decreases s.len(),
{
    if s.len() == 0 {
        0
    } else {
        (digits_value(s.drop_last()) * 10 + (s.last() - 48)) as nat
    }
}

/// What reading the generation out of a `btrfs subvolume show` text must
/// return: the value of the captured digits of the leftmost match, an
/// overflow error when that value does not fit in a `u64`, and a missing
/// error exactly when nothing matches.
pub open spec fn generation_result_matches(s: Seq<u8>, r: Result<u64, BtrfsError>) -> bool {
    match r {
        Ok(v) => exists|i: int, j: int, m: int|
            #[trigger] leftmost_full_match(s, i, j, m) && digits_value(s.subrange(j, m)) == v as nat,
        Err(e) => match e {
            BtrfsError::MissingGeneration => !has_generation_match(s),
            BtrfsError::GenerationOverflow => exists|i: int, j: int, m: int|
                #[trigger] leftmost_full_match(s, i, j, m) && digits_value(s.subrange(j, m)) > u64::MAX,
            BtrfsError::CommandFailed => false,
        },
    }
}

fn byte_is_digit(b: u8) -> (r: bool)
    ensures
        r == is_digit(b),
{
    48 <= b && b <= 57
}

fn byte_is_space(b: u8) -> (r: bool)
    ensures
        r == is_space(b),
{
    b == 32 || b == 9 || b == 10 || b == 11 || b == 12 || b == 13
}

fn label_at_idx(s: &[u8], i: usize) -> (r: bool)
    requires
        i + 11 <= s@.len(),
    ensures
        r == label_at(s@, i as int),
{
    s[i] == 71 && s[i + 1] == 101 && s[i + 2] == 110 && s[i + 3] == 101 && s[i + 4] == 114
        && s[i + 5] == 97 && s[i + 6] == 116 && s[i + 7] == 105 && s[i + 8] == 111
        && s[i + 9] == 110 && s[i + 10] == 58
}

/// Turns the exit status of a BTRFS command that produces no output of
/// interest into a result: success becomes `Ok`, anything else the command
/// failure error.
pub fn command_outcome(success: bool) -> (r: Result<(), BtrfsError>)
    ensures
        success <==> r is Ok,
        !success ==> (r matches Err(e) && e == BtrfsError::CommandFailed),
{
    if success {
        Ok(())
    } else {
        Err(BtrfsError::CommandFailed)
    }
}

/// Interprets a finished `btrfs subvolume show` invocation: a failed exit
/// status is reported as such, and otherwise the generation number is read
/// out of the captured stdout.
pub fn subvolume_show_from_output(success: bool, stdout: &[u8]) -> (r: Result<
    BtrfsSubvolumeShow,
    BtrfsError,
>)
    ensures
        !success ==> (r matches Err(e) && e == BtrfsError::CommandFailed),
        success ==> match r {
            Ok(show) => generation_result_matches(stdout@, Ok(show.generation)),
            Err(e) => e != BtrfsError::CommandFailed && generation_result_matches(
                stdout@,
                Err(e),
            ),
        },
{
    if !success {
        return Err(BtrfsError::CommandFailed);
    }
    match parse_generation(stdout) {
        Ok(generation) => Ok(BtrfsSubvolumeShow { generation }),
        Err(e) => Err(e),
    }
}

/// Appending one digit multiplies the value read so far by ten and adds the
/// digit.
proof fn lemma_digits_value_step(s: Seq<u8>, j: int, k: int)
    requires
        0 <= j <= k < s.len(),
        is_digit(s[k]),
    ensures
        digits_value(s.subrange(j, k + 1)) == digits_value(s.subrange(j, k)) * 10 + (s[k] - 48),
{
    let a = s.subrange(j, k + 1);
    assert(a.drop_last() =~= s.subrange(j, k));
    assert(a.last() == s[k]);
}

/// Reads the generation number out of the text that `btrfs subvolume show`
/// prints: the digit run that follows the leftmost occurrence of
/// `Generation:` plus whitespace. Reports when no line matches or when the
/// number does not fit in a `u64`.
#[verifier::loop_isolation(false)]
pub fn parse_generation(s: &[u8]) -> (r: Result<u64, BtrfsError>)
    ensures
        generation_result_matches(s@, r),
{
    let n: usize = s.len();
    if n < 11 {
        proof {
            assert forall|k: int| !match_at(s@, k) by {
                assert(match_at(s@, k) ==> k + 11 <= n);
            }
        }
        return Err(BtrfsError::MissingGeneration);
    }
    let mut i: usize = 0;
    while i <= n - 11
        invariant
            i <= n - 10,
            forall|k: int| 0 <= k < i ==> !match_at(s@, k),
        decreases n - i,
    {
        if label_at_idx(s, i) {
            // skip the whitespace after the label
            let mut j: usize = i + 11;
            while j < n && byte_is_space(s[j])
                invariant
                    i + 11 <= j <= n,
                    forall|k: int| i + 11 <= k < j ==> is_space(s@[k]),
                decreases n - j,
            {
                j = j + 1;
            }
            if i + 11 < j && j < n && byte_is_digit(s[j]) {
                // the leftmost match starts at i; the captured digits start at j
                assert(gap_digit_at(s@, i as int, j as int));
                let mut m: usize = j;
                while m < n && byte_is_digit(s[m])
                    invariant
                        j <= m <= n,
                        forall|k: int| j <= k < m ==> is_digit(s@[k]),
                    decreases n - m,
                {
                    m = m + 1;
                }
                assert(j < m) by {
                    if m == j {
                        assert(m < n && is_digit(s@[m as int]));
                    }
                }
                assert(full_match(s@, i as int, j as int, m as int));
                // read the captured digits, watching for u64 overflow;
                // u64::MAX is 18446744073709551615
                let mut acc: u64 = 0;
                let mut overflow: bool = false;
                let mut k: usize = j;
                while k < m
                    invariant
                        j <= k <= m,
                        !overflow ==> acc as nat == digits_value(
                            s@.subrange(j as int, k as int),
                        ),
                        overflow ==> digits_value(s@.subrange(j as int, k as int)) > u64::MAX,
                    decreases m - k,
                {
                    let d: u8 = s[k] - 48;
                    proof {
                        lemma_digits_value_step(s@, j as int, k as int);
                    }
                    if overflow {
                        // the value only grows as digits are appended
                    } else if acc > 1844674407370955161 || (acc == 1844674407370955161 && d > 5) {
                        overflow = true;
                    } else {
                        acc = acc * 10 + (d as u64);
                    }
                    k = k + 1;
                }
                proof {
                    assert(leftmost_full_match(s@, i as int, j as int, m as int));
                }
                if overflow {
                    return Err(BtrfsError::GenerationOverflow);
                }
                return Ok(acc);
            } else {
                proof {
                    assert forall|jj: int| !gap_digit_at(s@, i as int, jj) by {
                        if gap_digit_at(s@, i as int, jj) {
                            if jj < j {
                                // a digit inside the whitespace run
                                assert(is_space(s@[jj]));
                                assert(is_digit(s@[jj]));
                            } else if jj == j {
                                // the digit check above would have passed
                                assert(i + 11 < j && j < n && is_digit(s@[j as int]));
                            } else {
                                // the byte at j would have to be whitespace,
                                // yet the whitespace loop stopped there
                                assert(jj < n);
                                assert(is_space(s@[j as int]));
                            }
                        }
                    }
                    assert(!match_at(s@, i as int));
                }
            }
        }
        i = i + 1;
    }
    proof {
        assert forall|k: int| !match_at(s@, k) by {
            assert(match_at(s@, k) ==> k + 11 <= n);
        }
    }
    Err(BtrfsError::MissingGeneration)
}

} // verus!
