//! Small verified string utilities used across the library.

use vstd::prelude::*;
use vstd::string::StrSliceExecFns;
use vstd::string::StringExecFns;

verus! {

/// Character-for-character string equality.
pub fn str_eq(a: &str, b: &str) -> (r: bool)
    ensures
        r == (a@ == b@),
{
    let n: usize = a.unicode_len();
    if n != b.unicode_len() {
        return false;
    }
    let mut i: usize = 0;
    while i < n
        invariant
            n == a@.len(),
            n == b@.len(),
            i <= n,
            forall|k: int| 0 <= k < i ==> a@[k] == b@[k],
        decreases n - i,
    {
        if a.get_char(i) != b.get_char(i) {
            return false;
        }
        i += 1;
    }
    proof {
        assert(a@ =~= b@);
    }
    true
}

/// Whether `s` starts with `prefix`.
pub fn str_starts_with(s: &str, prefix: &str) -> (r: bool)
    ensures
        r == prefix@.is_prefix_of(s@),
{
    let np: usize = prefix.unicode_len();
    let ns: usize = s.unicode_len();
    if np > ns {
        return false;
    }
    let mut i: usize = 0;
    while i < np
        invariant
            np == prefix@.len(),
            ns == s@.len(),
            np <= ns,
            i <= np,
            forall|k: int| 0 <= k < i ==> s@[k] == prefix@[k],
        decreases np - i,
    {
        if s.get_char(i) != prefix.get_char(i) {
            proof {
                assert(!prefix@.is_prefix_of(s@)) by {
                    assert(s@.subrange(0, np as int)[i as int] != prefix@[i as int]);
                }
            }
            return false;
        }
        i += 1;
    }
    proof {
        assert(prefix@ =~= s@.subrange(0, np as int));
    }
    true
}

/// Whether `sub` occurs as a contiguous run inside `s`.
pub open spec fn spec_str_contains(s: Seq<char>, sub: Seq<char>) -> bool {
    exists|i: int| occurs_at(s, sub, i)
}

/// Whether `sub` occurs at position `i` of `s`.
pub open spec fn occurs_at(s: Seq<char>, sub: Seq<char>, i: int) -> bool {
    0 <= i && i + sub.len() <= s.len() && s.subrange(i, i + sub.len() as int) == sub
}

/// Substring search by scanning every starting position.
pub fn str_contains(s: &str, sub: &str) -> (r: bool)
    ensures
        r == spec_str_contains(s@, sub@),
{
    let ns: usize = s.unicode_len();
    let nb: usize = sub.unicode_len();
    if nb > ns {
        return false;
    }
    if nb == 0 {
        proof {
            assert(s@.subrange(0, 0) =~= sub@);
            assert(occurs_at(s@, sub@, 0));
        }
        return true;
    }
    let mut i: usize = 0;
    while i <= ns - nb
        invariant
            ns == s@.len(),
            nb == sub@.len(),
            nb <= ns,
            i <= ns - nb + 1,
            0 < nb,
            forall|k: int| 0 <= k < i ==> !occurs_at(s@, sub@, k),
        decreases ns - nb - i + 1,
    {
        let mut j: usize = 0;
        let mut matched = true;
        while j < nb
            invariant
                ns == s@.len(),
                nb == sub@.len(),
                nb <= ns,
                i + nb <= ns,
                j <= nb,
                matched ==> forall|k: int| 0 <= k < j ==> s@[i + k] == sub@[k],
                !matched ==> !occurs_at(s@, sub@, i as int),
            decreases nb - j,
        {
            if s.get_char(i + j) != sub.get_char(j) {
                proof {
                    if occurs_at(s@, sub@, i as int) {
                        assert(s@.subrange(i as int, i + nb as int)[j as int] == sub@[j as int]);
                    }
                }
                matched = false;
                j = nb;
            } else {
                j += 1;
            }
        }
        if matched {
            proof {
                assert(s@.subrange(i as int, i + nb as int) =~= sub@);
                assert(occurs_at(s@, sub@, i as int));
            }
            return true;
        }
        i += 1;
    }
    proof {
        assert forall|k: int| 0 <= k && k + sub@.len() <= s@.len() implies !occurs_at(
            s@,
            sub@,
            k,
        ) by {
            assert(k < i);
        }
    }
    false
}

/// The numeric value of a run of decimal digits (most significant first).
pub open spec fn digits_value(s: Seq<char>) -> int
    decreases s.len(),
{
    if s.len() == 0 {
        0
    } else {
        digits_value(s.drop_last()) * 10 + (s.last() as int - 48)
    }
}

/// Whether every character of `s` is a decimal digit.
pub open spec fn all_digits(s: Seq<char>) -> bool {
    forall|k: int| 0 <= k < s.len() ==> 48 <= (#[trigger] s[k]) as int <= 57
}

/// A run of digits never reads as a negative number.
pub proof fn lemma_digits_nonneg_pub(s: Seq<char>)
    requires
        all_digits(s),
    ensures
        digits_value(s) >= 0,
{
    lemma_digits_value_nonneg(s);
}

proof fn lemma_digits_value_nonneg(s: Seq<char>)
    requires
        all_digits(s),
    ensures
        digits_value(s) >= 0,
    decreases s.len(),
{
    if s.len() > 0 {
        assert(all_digits(s.drop_last())) by {
            assert(forall|k: int| 0 <= k < s.len() - 1 ==> s.drop_last()[k] == s[k]);
        }
        lemma_digits_value_nonneg(s.drop_last());
    }
}

/// Parse a non-empty run of decimal digits as a `u32`.
///
/// Returns `None` when the text is empty, holds a non-digit, or names a
/// value above `u32::MAX`.
pub fn parse_u32(s: &str) -> (r: Option<u32>)
    ensures
        r is Some <==> s@.len() > 0 && all_digits(s@) && digits_value(s@) <= u32::MAX,
        r matches Some(v) ==> v == digits_value(s@),
{
    let n: usize = s.unicode_len();
    if n == 0 {
        return None;
    }
    let mut acc: u64 = 0;
    let ghost cap: int = u32::MAX + 1;
    let mut i: usize = 0;
    while i < n
        invariant
            n == s@.len(),
            i <= n,
            all_digits(s@.subrange(0, i as int)),
            acc == if digits_value(s@.subrange(0, i as int)) > u32::MAX {
                cap
            } else {
                digits_value(s@.subrange(0, i as int))
            },
            cap == u32::MAX + 1,
        decreases n - i,
    {
        let c = s.get_char(i);
        let cv: u32 = c as u32;
        if cv < 48 || cv > 57 {
            proof {
                assert(!all_digits(s@));
            }
            return None;
        }
        let d: u64 = (cv - 48) as u64;
        proof {
            let pre = s@.subrange(0, i as int);
            let post = s@.subrange(0, i + 1);
            assert(post.drop_last() =~= pre);
            assert(post.last() == s@[i as int]);
            lemma_digits_value_nonneg(pre);
            assert(all_digits(post)) by {
                assert(forall|k: int| 0 <= k < i ==> post[k] == pre[k]);
            }
        }
        if acc > u32::MAX as u64 {
            acc = u32::MAX as u64 + 1;
        } else {
            acc = acc * 10 + d;
            if acc > u32::MAX as u64 {
                acc = u32::MAX as u64 + 1;
            }
        }
        i += 1;
    }
    proof {
        assert(s@.subrange(0, n as int) =~= s@);
    }
    if acc > u32::MAX as u64 {
        None
    } else {
        Some(acc as u32)
    }
}

/// Build an owned string by appending `tail` to `head`.
pub fn join_str(head: &str, tail: &str) -> (r: String)
    ensures
        r@ == head@ + tail@,
{
    let mut s = String::from_str(head);
    s.append(tail);
    s
}

/// Build an owned string from three pieces.
pub fn join3_str(head: &str, mid: &str, tail: &str) -> (r: String)
    ensures
        r@ == head@ + mid@ + tail@,
{
    let mut s = String::from_str(head);
    s.append(mid);
    s.append(tail);
    s
}

/// The upper-case form of an ASCII lower-case letter; other characters
/// are unchanged.
pub open spec fn spec_upper_char(c: char) -> char {
    if c == 'a' {
        'A'    } else if c == 'b' {
        'B'    } else if c == 'c' {
        'C'    } else if c == 'd' {
        'D'    } else if c == 'e' {
        'E'    } else if c == 'f' {
        'F'    } else if c == 'g' {
        'G'    } else if c == 'h' {
        'H'    } else if c == 'i' {
        'I'    } else if c == 'j' {
        'J'    } else if c == 'k' {
        'K'    } else if c == 'l' {
        'L'    } else if c == 'm' {
        'M'    } else if c == 'n' {
        'N'    } else if c == 'o' {
        'O'    } else if c == 'p' {
        'P'    } else if c == 'q' {
        'Q'    } else if c == 'r' {
        'R'    } else if c == 's' {
        'S'    } else if c == 't' {
        'T'    } else if c == 'u' {
        'U'    } else if c == 'v' {
        'V'    } else if c == 'w' {
        'W'    } else if c == 'x' {
        'X'    } else if c == 'y' {
        'Y'    } else if c == 'z' {
        'Z'
    } else {
        c
    }
}

/// Whether the character is an ASCII lower-case letter.
pub open spec fn is_ascii_lower(c: char) -> bool {
    97 <= c as int <= 122
}

/// What `capitalize` returns: the text with its first character mapped
/// to upper case when it is an ASCII lower-case letter.
pub open spec fn spec_capitalize(s: Seq<char>) -> Seq<char> {
    if s.len() == 0 {
        s
    } else if is_ascii_lower(s[0]) {
        seq![spec_upper_char(s[0])] + s.drop_first()
    } else {
        s
    }
}

/// A one-character text holding the upper-case form of an ASCII
/// lower-case letter.
fn upper_letter(c: char) -> (r: &'static str)
    requires
        is_ascii_lower(c),
    ensures
        r@.len() == 1,
        r@[0] == spec_upper_char(c),
{
    match c {
        'a' => {
            proof {
                reveal_strlit("A");
            }
            "A"
        },
        'b' => {
            proof {
                reveal_strlit("B");
            }
            "B"
        },
        'c' => {
            proof {
                reveal_strlit("C");
            }
            "C"
        },
        'd' => {
            proof {
                reveal_strlit("D");
            }
            "D"
        },
        'e' => {
            proof {
                reveal_strlit("E");
            }
            "E"
        },
        'f' => {
            proof {
                reveal_strlit("F");
            }
            "F"
        },
        'g' => {
            proof {
                reveal_strlit("G");
            }
            "G"
        },
        'h' => {
            proof {
                reveal_strlit("H");
            }
            "H"
        },
        'i' => {
            proof {
                reveal_strlit("I");
            }
            "I"
        },
        'j' => {
            proof {
                reveal_strlit("J");
            }
            "J"
        },
        'k' => {
            proof {
                reveal_strlit("K");
            }
            "K"
        },
        'l' => {
            proof {
                reveal_strlit("L");
            }
            "L"
        },
        'm' => {
            proof {
                reveal_strlit("M");
            }
            "M"
        },
        'n' => {
            proof {
                reveal_strlit("N");
            }
            "N"
        },
        'o' => {
            proof {
                reveal_strlit("O");
            }
            "O"
        },
        'p' => {
            proof {
                reveal_strlit("P");
            }
            "P"
        },
        'q' => {
            proof {
                reveal_strlit("Q");
            }
            "Q"
        },
        'r' => {
            proof {
                reveal_strlit("R");
            }
            "R"
        },
        's' => {
            proof {
                reveal_strlit("S");
            }
            "S"
        },
        't' => {
            proof {
                reveal_strlit("T");
            }
            "T"
        },
        'u' => {
            proof {
                reveal_strlit("U");
            }
            "U"
        },
        'v' => {
            proof {
                reveal_strlit("V");
            }
            "V"
        },
        'w' => {
            proof {
                reveal_strlit("W");
            }
            "W"
        },
        'x' => {
            proof {
                reveal_strlit("X");
            }
            "X"
        },
        'y' => {
            proof {
                reveal_strlit("Y");
            }
            "Y"
        },
        'z' => {
            proof {
                reveal_strlit("Z");
            }
            "Z"
        },
        _ => {
            proof {
                assert(false);
            }
            ""
        },
    }
}

/// Map the first character of the text to upper case, when it is an
/// ASCII lower-case letter.
pub fn capitalize(s: &str) -> (r: String)
    ensures
        r@ == spec_capitalize(s@),
{
    let n: usize = s.unicode_len();
    if n == 0 {
        return String::from_str(s);
    }
    let c = s.get_char(0);
    let cv: u32 = c as u32;
    if 97 <= cv && cv <= 122 {
        let rest = s.substring_char(1, n);
        let r = join_str(upper_letter(c), rest);
        proof {
            assert(r@ =~= seq![spec_upper_char(s@[0])] + s@.drop_first());
        }
        r
    } else {
        String::from_str(s)
    }
}

/// A one-character text holding a decimal digit.
fn digit_str(d: u32) -> (r: &'static str)
    requires
        d < 10,
    ensures
        r@.len() == 1,
        r@[0] as int == 48 + d,
{
    match d {
        0u32 => {
            proof {
                reveal_strlit("0");
            }
            "0"
        },
        1u32 => {
            proof {
                reveal_strlit("1");
            }
            "1"
        },
        2u32 => {
            proof {
                reveal_strlit("2");
            }
            "2"
        },
        3u32 => {
            proof {
                reveal_strlit("3");
            }
            "3"
        },
        4u32 => {
            proof {
                reveal_strlit("4");
            }
            "4"
        },
        5u32 => {
            proof {
                reveal_strlit("5");
            }
            "5"
        },
        6u32 => {
            proof {
                reveal_strlit("6");
            }
            "6"
        },
        7u32 => {
            proof {
                reveal_strlit("7");
            }
            "7"
        },
        8u32 => {
            proof {
                reveal_strlit("8");
            }
            "8"
        },
        9u32 => {
            proof {
                reveal_strlit("9");
            }
            "9"
        },
        _ => {
            proof {
                assert(false);
            }
            ""
        },
    }
}

/// Render a number in decimal. The result is pinned by being the unique
/// digit run without a leading zero whose value reads back as `n`.
pub fn u32_to_string(n: u32) -> (r: String)
    ensures
        all_digits(r@),
        r@.len() >= 1,
        n < 10 ==> r@.len() == 1,
        digits_value(r@) == n,
        n >= 10 ==> r@[0] as int != 48,
    decreases n,
{
    if n < 10 {
        let s = String::from_str(digit_str(n));
        proof {
            assert(s@.drop_last() =~= Seq::<char>::empty());
            assert(digits_value(s@.drop_last()) == 0);
            assert(digits_value(s@) == s@.last() as int - 48);
        }
        s
    } else {
        let mut s = u32_to_string(n / 10);
        let ghost prefix = s@;
        s.append(digit_str(n % 10));
        proof {
            assert(s@.drop_last() =~= prefix);
            assert(s@.last() as int == 48 + n % 10);
            assert(digits_value(s@) == digits_value(prefix) * 10 + (s@.last() as int - 48));
            assert(all_digits(s@)) by {
                assert(forall|k: int| 0 <= k < s@.len() - 1 ==> s@[k] == prefix[k]);
            }
            assert(s@[0] == prefix[0]);
            if n / 10 < 10 {
                assert(prefix.len() == 1);
                assert(prefix.drop_last() =~= Seq::<char>::empty());
                assert(digits_value(prefix.drop_last()) == 0);
                assert(prefix[0] as int - 48 == n / 10);
            }
        }
        s
    }
}

} // verus!
