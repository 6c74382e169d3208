//! Small verified text utilities: character-level string comparison,
//! whitespace classification, and numeric text handling used by the
//! engine and the display settings.

use vstd::prelude::*;
use vstd::string::StrSliceExecFns;

verus! {

/// Characters with the Unicode `White_Space` property, the set that
/// `str::trim` strips from the ends of a string.
pub open spec fn is_wire_whitespace(c: char) -> bool {
    ||| c == ' '
    ||| c == '\t'
    ||| c == '\n'
    ||| c == '\u{b}'
    ||| c == '\u{c}'
    ||| c == '\r'
    ||| c == '\u{85}'
    ||| c == '\u{a0}'
    ||| c == '\u{1680}'
    ||| ('\u{2000}' <= c && c <= '\u{200a}')
    ||| c == '\u{2028}'
    ||| c == '\u{2029}'
    ||| c == '\u{202f}'
    ||| c == '\u{205f}'
    ||| c == '\u{3000}'
}

/// A string is blank when every character is whitespace; trimming such a
/// string leaves it empty.
pub open spec fn is_blank(s: Seq<char>) -> bool {
    forall|i: int| 0 <= i < s.len() ==> is_wire_whitespace(#[trigger] s[i])
}

fn char_is_whitespace(c: char) -> (r: bool)
    ensures
        r == is_wire_whitespace(c),
{
    c == ' ' || c == '\t' || c == '\n' || c == '\u{b}' || c == '\u{c}' || c == '\r'
        || c == '\u{85}' || c == '\u{a0}' || c == '\u{1680}'
        || ('\u{2000}' <= c && c <= '\u{200a}') || c == '\u{2028}' || c == '\u{2029}'
        || c == '\u{202f}' || c == '\u{205f}' || c == '\u{3000}'
}

/// Whether the string is empty or consists only of whitespace.
pub fn str_is_blank(s: &str) -> (r: bool)
    ensures
        r == is_blank(s@),
{
    let n = s.unicode_len();
    let mut i: usize = 0;
    while i < n
        invariant
            n == s@.len(),
            i <= n,
            forall|j: int| 0 <= j < i ==> is_wire_whitespace(#[trigger] s@[j]),
        decreases n - i,
    {
        if !char_is_whitespace(s.get_char(i)) {
            return false;
        }
        i += 1;
    }
    true
}

/// Character-by-character string equality; equivalent to `==` on the
/// underlying character sequences.
pub fn str_eq(a: &str, b: &str) -> (r: bool)
    ensures
        r == (a@ == b@),
{
    let alen = a.unicode_len();
    let blen = b.unicode_len();
    if alen != blen {
        return false;
    }
    let mut i: usize = 0;
    while i < alen
        invariant
            alen == a@.len(),
            blen == b@.len(),
            alen == blen,
            i <= alen,
            forall|j: int| 0 <= j < i ==> a@[j] == b@[j],
        decreases alen - i,
    {
        if a.get_char(i) != b.get_char(i) {
            return false;
        }
        i += 1;
    }
    proof {
        assert(a@ =~= b@);
    }
    true
}

/// Whether the character is an ASCII digit.
pub open spec fn is_ascii_digit_char(c: char) -> bool {
    48 <= c as int && c as int <= 57
}

/// Whether a character of an integer input field is kept: a leading
/// minus sign or any ASCII digit.
pub open spec fn keep_in_int_input(c: char, i: int) -> bool {
    (c == '-' && i == 0) || is_ascii_digit_char(c)
}

/// An integer input field's text with everything but a leading minus
/// sign and ASCII digits removed.
pub open spec fn sanitized_int_input(s: Seq<char>) -> Seq<char>
    decreases s.len(),
{
    if s.len() == 0 {
        Seq::empty()
    } else {
        sanitized_int_input(s.drop_last()) + if keep_in_int_input(s.last(), s.len() - 1) {
            seq![s.last()]
        } else {
            Seq::<char>::empty()
        }
    }
}

/// Relies on `String`'s `FromIterator` over `char`: collecting
/// characters yields the string of exactly those characters in order.
#[verifier::external_body]
fn string_from_chars(chars: &Vec<char>) -> (r: String)
    ensures
        r@ == chars@,
{
    chars.iter().collect()
}

/// Drops every character of an integer input field except a leading
/// minus sign and ASCII digits, keeping their order.
pub fn sanitize_int_input(input: &str) -> (r: String)
    ensures
        r@ == sanitized_int_input(input@),
{
    let mut kept: Vec<char> = Vec::new();
    let n = input.unicode_len();
    let mut i: usize = 0;
    proof {
        assert(input@.take(0) =~= Seq::<char>::empty());
        assert(kept@ =~= sanitized_int_input(input@.take(0)));
    }
    while i < n
        invariant
            n == input@.len(),
            i <= n,
            kept@ == sanitized_int_input(input@.take(i as int)),
        decreases n - i,
    {
        proof {
            assert(input@.take(i as int + 1).drop_last() =~= input@.take(i as int));
            assert(input@.take(i as int + 1).last() == input@[i as int]);
        }
        let c = input.get_char(i);
        let u = c as u32;
        if (c == '-' && i == 0) || (48 <= u && u <= 57) {
            kept.push(c);
        } else {
            proof {
                assert(kept@ + Seq::<char>::empty() =~= kept@);
            }
        }
        i += 1;
    }
    proof {
        assert(input@.take(n as int) =~= input@);
    }
    string_from_chars(&kept)
}

/// Whether every character of the sequence is an ASCII digit.
pub open spec fn all_digit_chars(s: Seq<char>) -> bool {
    forall|i: int| 0 <= i < s.len() ==> is_ascii_digit_char(#[trigger] s[i])
}

/// The non-negative integer a digit sequence denotes in base ten.
pub open spec fn digits_value(s: Seq<char>) -> int
    decreases s.len(),
{
    if s.len() == 0 {
        0
    } else {
        10 * digits_value(s.drop_last()) + (s.last() as int - 48)
    }
}

/// The integer a text field denotes: an optional sign followed by one
/// or more ASCII digits denoting a value in the `i32` range; any other
/// text — empty, stray characters, or an out-of-range value — denotes 0.
pub open spec fn spec_parse_i32_or_zero(s: Seq<char>) -> i32 {
    let negative = s.len() > 0 && s[0] == '-';
    let signed = s.len() > 0 && (s[0] == '-' || s[0] == '+');
    let digits = if signed {
        s.skip(1)
    } else {
        s
    };
    if digits.len() > 0 && all_digit_chars(digits) {
        let magnitude = digits_value(digits);
        if negative && magnitude <= 0x8000_0000 {
            (-magnitude) as i32
        } else if !negative && magnitude <= 0x7FFF_FFFF {
            magnitude as i32
        } else {
            0i32
        }
    } else {
        0i32
    }
}

/// Parses a display-offset text field as `i32`, yielding 0 for any text
/// that is not a well-formed in-range integer.
pub fn parse_i32_or_zero(s: &str) -> (r: i32)
    ensures
        r == spec_parse_i32_or_zero(s@),
{
    let n = s.unicode_len();
    if n == 0 {
        return 0;
    }
    let first = s.get_char(0);
    let negative = first == '-';
    let signed = first == '-' || first == '+';
    let start: usize = if signed {
        1
    } else {
        0
    };
    let ghost digits: Seq<char> = if signed {
        s@.skip(1)
    } else {
        s@
    };
    if start >= n {
        return 0;
    }
    let mut acc: u64 = 0;
    let mut too_big = false;
    let mut j: usize = start;
    proof {
        assert(digits.take(0) =~= Seq::<char>::empty());
    }
    while j < n
        invariant
            n == s@.len(),
            0 < n,
            start < n,
            start <= j <= n,
            signed == (s@[0] == '-' || s@[0] == '+'),
            negative == (s@[0] == '-'),
            start == if signed { 1int } else { 0int },
            digits == if signed { s@.skip(1) } else { s@ },
            digits.len() == n - start,
            all_digit_chars(digits.take(j - start)),
            !too_big ==> acc == digits_value(digits.take(j - start)) && acc <= 0x8000_0000,
            too_big ==> digits_value(digits.take(j - start)) > 0x8000_0000,
        decreases n - j,
    {
        let c = s.get_char(j);
        let u = c as u32;
        proof {
            assert(digits[j - start] == s@[j as int]);
        }
        if u < 48 || u > 57 {
            proof {
                assert(c as int == u as int);
                assert(!is_ascii_digit_char(digits[j - start]));
                assert(!all_digit_chars(digits));
            }
            return 0;
        }
        let d = (u - 48) as u64;
        proof {
            let k = (j - start) as int;
            assert(digits.take(k + 1).drop_last() =~= digits.take(k));
            assert(digits.take(k + 1).last() == digits[k]);
        }
        if !too_big {
            let next = acc * 10 + d;
            if next > 0x8000_0000 {
                too_big = true;
            } else {
                acc = next;
            }
        }
        j += 1;
    }
    proof {
        assert(digits.take(n - start) =~= digits);
    }
    if too_big {
        return 0;
    }
    if negative {
        (-(acc as i64)) as i32
    } else {
        if acc <= 0x7FFF_FFFF {
            acc as i32
        } else {
            0
        }
    }
}

/// Whether the label list holds a string with exactly these characters.
pub open spec fn has_label(r: Seq<String>, s: Seq<char>) -> bool {
    exists|j: int| 0 <= j < r.len() && r[j]@ == s
}

/// Appending a string extends the labels a list holds by exactly that
/// string's characters.
pub proof fn lemma_has_label_push(r: Seq<String>, x: String)
    ensures
        forall|s: Seq<char>| #[trigger] has_label(r.push(x), s) <==> (has_label(r, s) || s == x@),
{
    assert forall|s: Seq<char>| #[trigger] has_label(r.push(x), s) implies (has_label(r, s) || s
        == x@) by {
        let j = choose|j: int| 0 <= j < r.push(x).len() && r.push(x)[j]@ == s;
        if j < r.len() {
            assert(r[j]@ == s);
        }
    };
    assert forall|s: Seq<char>| (has_label(r, s) || s == x@) implies #[trigger] has_label(
        r.push(x),
        s,
    ) by {
        if has_label(r, s) {
            let j = choose|j: int| 0 <= j < r.len() && r[j]@ == s;
            assert(r.push(x)[j]@ == s);
        } else {
            assert(r.push(x)[r.len() as int]@ == s);
        }
    };
}

/// Whether the vector already holds a string with these characters.
pub fn contains_string(v: &Vec<String>, s: &str) -> (r: bool)
    ensures
        r == has_label(v@, s@),
{
    let n = v.len();
    let mut i: usize = 0;
    while i < n
        invariant
            n == v@.len(),
            i <= n,
            forall|j: int| 0 <= j < i ==> v@[j]@ != s@,
        decreases n - i,
    {
        if str_eq(v[i].as_str(), s) {
            return true;
        }
        i += 1;
    }
    false
}

} // verus!
