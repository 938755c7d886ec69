//! Small verified text utilities: decimal parsing for platform identifiers
//! and the comma-splitting of stored file-name lists.

use vstd::prelude::*;
use vstd::string::StrSliceExecFns;
use vstd::string::StringExecFns;

verus! {

/// Whether an owned string holds exactly the characters of `b`.
pub fn string_eq_str(a: &String, b: &str) -> (r: bool)
    ensures
        r == (a@ == b@),
{
    let bs = String::from_str(b);
    *a == bs
}

/// Whether `c` is a decimal digit.
pub open spec fn spec_is_digit(c: char) -> bool {
    48 <= c as int <= 57
}

/// Whether every character of `s` is a decimal digit.
pub open spec fn all_digits(s: Seq<char>) -> bool {
    forall|i: int| 0 <= i < s.len() ==> spec_is_digit(#[trigger] s[i])
}

/// The value of `s` read as a decimal numeral, most significant digit
/// first.
pub open spec fn spec_digits_val(s: Seq<char>) -> int
    decreases s.len(),
{
    if s.len() == 0 {
        0
    } else {
        spec_digits_val(s.drop_last()) * 10 + (s.last() as int - 48)
    }
}

/// A digit string's value is non-negative.
proof fn lemma_digits_val_nonneg(s: Seq<char>)
    requires
        all_digits(s),
    ensures
        spec_digits_val(s) >= 0,
    decreases s.len(),
{
    if s.len() > 0 {
        assert(all_digits(s.drop_last()));
        lemma_digits_val_nonneg(s.drop_last());
    }
}

/// Reading more digits never shrinks the value: a prefix of a digit
/// string is worth at most the whole.
proof fn lemma_digits_val_prefix_le(s: Seq<char>, i: int)
    requires
        all_digits(s),
        0 <= i <= s.len(),
    ensures
        spec_digits_val(s.subrange(0, i)) <= spec_digits_val(s),
    decreases s.len() - i,
{
    if i == s.len() {
        assert(s.subrange(0, i) =~= s);
    } else {
        let shorter = s.subrange(0, i);
        let longer = s.subrange(0, i + 1);
        assert(longer.drop_last() =~= shorter);
        assert(all_digits(shorter));
        lemma_digits_val_nonneg(shorter);
        assert(spec_digits_val(longer) == spec_digits_val(shorter) * 10 + (s[i] as int - 48));
        lemma_digits_val_prefix_le(s, i + 1);
    }
}

/// Parses a decimal numeral.  Returns the value exactly when `s` is a
/// non-empty string of digits whose value fits in a `u64`; returns
/// nothing otherwise.
pub fn parse_u64(s: &str) -> (r: Option<u64>)
    ensures
        r matches Some(n) ==> s@.len() > 0 && all_digits(s@) && n == spec_digits_val(s@),
        r is None ==> s@.len() == 0 || !all_digits(s@) || spec_digits_val(s@) > u64::MAX,
{
    let n = s.unicode_len();
    if n == 0 {
        return None;
    }
    let mut acc: u64 = 0;
    let mut i: usize = 0;
    while i < n
        invariant
            0 < n == s@.len(),
            0 <= i <= n,
            all_digits(s@.subrange(0, i as int)),
            acc == spec_digits_val(s@.subrange(0, i as int)),
        decreases n - i,
    {
        let c = s.get_char(i);
        let v = c as u32;
        if v < 48 || v > 57 {
            return None;
        }
        let d: u64 = (v - 48) as u64;
        proof {
            assert(s@.subrange(0, i + 1).drop_last() =~= s@.subrange(0, i as int));
            assert(s@.subrange(0, i + 1).last() == s@[i as int]);
        }
        let next = match acc.checked_mul(10) {
            Some(m) => m.checked_add(d),
            None => None,
        };
        match next {
            Some(v2) => {
                acc = v2;
            },
            None => {
                proof {
                    if all_digits(s@) {
                        lemma_digits_val_prefix_le(s@, i + 1);
                    }
                }
                return None;
            },
        }
        i = i + 1;
    }
    proof {
        assert(s@.subrange(0, n as int) =~= s@);
    }
    Some(acc)
}

/// The parts joined back together with a comma between neighbours.
pub open spec fn spec_join_commas(parts: Seq<Seq<char>>) -> Seq<char>
    decreases parts.len(),
{
    if parts.len() == 0 {
        Seq::empty()
    } else if parts.len() == 1 {
        parts[0]
    } else {
        spec_join_commas(parts.drop_last()) + seq![','] + parts.last()
    }
}

/// Joining already-accumulated parts with a trailing partial segment.
spec fn spec_join_partial(parts: Seq<Seq<char>>, cur: Seq<char>) -> Seq<char> {
    if parts.len() == 0 {
        cur
    } else {
        spec_join_commas(parts) + seq![','] + cur
    }
}

/// Splits a stored file-name list on commas.  The result is the unique
/// decomposition of `s` into comma-free parts whose comma-joining gives
/// `s` back; an empty input yields one empty part, and empty segments
/// between adjacent commas are preserved.
pub fn split_file_names(s: &str) -> (parts: Vec<String>)
    ensures
        parts@.len() >= 1,
        spec_join_commas(parts@.map_values(|p: String| p@)) == s@,
        forall|k: int| 0 <= k < parts@.len() ==> !(#[trigger] parts@[k]@).contains(','),
{
    let n = s.unicode_len();
    let mut parts: Vec<String> = Vec::new();
    let mut start: usize = 0;
    let mut i: usize = 0;
    while i < n
        invariant
            n == s@.len(),
            0 <= start <= i <= n,
            spec_join_partial(
                parts@.map_values(|p: String| p@),
                s@.subrange(start as int, i as int),
            ) == s@.subrange(0, i as int),
            forall|k: int| 0 <= k < parts@.len() ==> !(#[trigger] parts@[k]@).contains(','),
            forall|j: int| start <= j < i ==> s@[j] != ',',
        decreases n - i,
    {
        let c = s.get_char(i);
        if c == ',' {
            let ghost old_parts = parts@.map_values(|p: String| p@);
            let ghost piece_view = s@.subrange(start as int, i as int);
            let piece = s.substring_char(start, i).to_owned();
            parts.push(piece);
            proof {
                let new_parts = parts@.map_values(|p: String| p@);
                assert(new_parts =~= old_parts.push(piece_view));
                if old_parts.len() == 0 {
                    assert(spec_join_commas(new_parts) == piece_view);
                } else {
                    assert(new_parts.drop_last() =~= old_parts);
                    assert(spec_join_commas(new_parts) == spec_join_commas(old_parts) + seq![',']
                        + piece_view);
                }
                assert(spec_join_commas(new_parts) == s@.subrange(0, i as int));
                assert(s@.subrange(0, i + 1) =~= s@.subrange(0, i as int) + seq![s@[i as int]]);
                assert(spec_join_partial(new_parts, s@.subrange(i + 1, i + 1)) =~= s@.subrange(
                    0,
                    i + 1,
                ));
                assert forall|k: int| 0 <= k < parts@.len() implies !(
                #[trigger] parts@[k]@).contains(',') by {
                    if k < parts@.len() - 1 {
                    } else {
                        assert(parts@[k]@ =~= piece_view);
                        if piece_view.contains(',') {
                            let w = choose|w: int| 0 <= w < piece_view.len() && piece_view[w]
                                == ',';
                            assert(s@[start + w] == ',');
                        }
                    }
                }
            }
            start = i + 1;
        } else {
            proof {
                assert(s@.subrange(0, i + 1) =~= s@.subrange(0, i as int) + seq![s@[i as int]]);
                assert(s@.subrange(start as int, i + 1) =~= s@.subrange(start as int, i as int)
                    + seq![s@[i as int]]);
                assert(spec_join_partial(
                    parts@.map_values(|p: String| p@),
                    s@.subrange(start as int, i + 1),
                ) =~= s@.subrange(0, i + 1));
            }
        }
        i = i + 1;
    }
    let ghost old_parts = parts@.map_values(|p: String| p@);
    let ghost piece_view = s@.subrange(start as int, n as int);
    let piece = s.substring_char(start, n).to_owned();
    parts.push(piece);
    proof {
        let new_parts = parts@.map_values(|p: String| p@);
        assert(new_parts =~= old_parts.push(piece_view));
        if old_parts.len() == 0 {
            assert(spec_join_commas(new_parts) == piece_view);
        } else {
            assert(new_parts.drop_last() =~= old_parts);
            assert(spec_join_commas(new_parts) == spec_join_commas(old_parts) + seq![',']
                + piece_view);
        }
        assert(s@.subrange(0, n as int) =~= s@);
        assert(spec_join_commas(new_parts) =~= s@);
        assert forall|k: int| 0 <= k < parts@.len() implies !(
        #[trigger] parts@[k]@).contains(',') by {
            if k < parts@.len() - 1 {
            } else {
                assert(parts@[k]@ =~= piece_view);
                if piece_view.contains(',') {
                    let w = choose|w: int| 0 <= w < piece_view.len() && piece_view[w] == ',';
                    assert(s@[start + w] == ',');
                }
            }
        }
    }
    parts
}

} // verus!
