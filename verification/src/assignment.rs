//! IEEE `Assignment` fields: separator stripping, width and hexadecimal checks, upper-casing,
//! and the numeric value that identifies a normalized prefix within one registry.

use vstd::prelude::*;

use crate::registry::IeeeMacRegistry;
use crate::text::{chars_of, string_of};

verus! {

/// Characters IEEE listings use to separate assignment digits.
pub open spec fn is_assignment_separator(c: char) -> bool {
    c == ':' || c == '-' || c == '.' || c == ' ' || c == '\t'
}

/// The characters an assignment keeps once separators are stripped.
pub open spec fn keeps_assignment_char() -> spec_fn(char) -> bool {
    |c: char| !is_assignment_separator(c)
}

/// ASCII hexadecimal digit, either case.
pub open spec fn is_hex_digit(c: char) -> bool {
    let u = c as int;
    (48 <= u <= 57) || (65 <= u <= 70) || (97 <= u <= 102)
}

/// ASCII hexadecimal digit in upper case.
pub open spec fn is_upper_hex_digit(c: char) -> bool {
    let u = c as int;
    (48 <= u <= 57) || (65 <= u <= 70)
}

/// ASCII upper-casing of one character (`char::to_ascii_uppercase`).
pub open spec fn ascii_upper(c: char) -> char {
    let u = c as int;
    if 97 <= u <= 122 {
        (u - 32) as char
    } else {
        c
    }
}

/// The normalized prefix of an `Assignment` field for a registry whose assignments have
/// `width` digits: separators stripped, then accepted only when exactly `width` hexadecimal
/// digits remain, which are upper-cased.
pub open spec fn normalized_assignment(raw: Seq<char>, width: nat) -> Option<Seq<char>> {
    let stripped = raw.filter(keeps_assignment_char());
    if stripped.len() == width && forall|i: int| 0 <= i < stripped.len() ==> is_hex_digit(#[trigger] stripped[i]) {
        Some(stripped.map_values(|c: char| ascii_upper(c)))
    } else {
        None
    }
}

/// Value of an upper-case hexadecimal digit.
pub open spec fn hex_digit_value(c: char) -> nat {
    let u = c as int;
    if u <= 57 {
        (u - 48) as nat
    } else {
        (u - 55) as nat
    }
}

/// The number written by a sequence of upper-case hexadecimal digits.
pub open spec fn hex_value(digits: Seq<char>) -> nat
    decreases digits.len(),
{
    if digits.len() == 0 {
        0
    } else {
        hex_value(digits.drop_last()) * 16 + hex_digit_value(digits.last())
    }
}

/// Whether every character of `s` is an upper-case hexadecimal digit.
pub open spec fn all_upper_hex(s: Seq<char>) -> bool {
    forall|i: int| 0 <= i < s.len() ==> is_upper_hex_digit(#[trigger] s[i])
}

/// `16` to the power `n`.
pub open spec fn pow16(n: nat) -> nat
    decreases n,
{
    if n == 0 {
        1
    } else {
        16 * pow16((n - 1) as nat)
    }
}

proof fn lemma_pow16_bound(n: nat)
    requires
        n <= 9,
    ensures
        pow16(n) <= 68719476736,
    decreases n,
{
    reveal_with_fuel(pow16, 10);
}

/// Two upper-case hexadecimal numerals of one length that write the same number are the same
/// numeral.
pub proof fn lemma_hex_value_injective(a: Seq<char>, b: Seq<char>)
    requires
        a.len() == b.len(),
        all_upper_hex(a),
        all_upper_hex(b),
        hex_value(a) == hex_value(b),
    ensures
        a == b,
    decreases a.len(),
{
    if a.len() == 0 {
        assert(a =~= b);
    } else {
        let x = hex_value(a.drop_last());
        let y = hex_value(b.drop_last());
        let p = hex_digit_value(a.last());
        let q = hex_digit_value(b.last());
        assert(is_upper_hex_digit(a[a.len() - 1]));
        assert(is_upper_hex_digit(b[b.len() - 1]));
        assert(p < 16 && q < 16);
        assert(x * 16 + p == y * 16 + q);
        assert(x == y && p == q) by (nonlinear_arith)
            requires
                x * 16 + p == y * 16 + q,
                p < 16,
                q < 16,
        ;
        assert(a.last() as int == b.last() as int);
        assert(a.last() == b.last());
        lemma_hex_value_injective(a.drop_last(), b.drop_last());
        assert(a =~= a.drop_last().push(a.last()));
        assert(b =~= b.drop_last().push(b.last()));
    }
}

/// A normalized assignment has the registry's width and consists of upper-case hexadecimal
/// digits.
pub proof fn lemma_normalized_assignment_shape(raw: Seq<char>, width: nat)
    ensures
        normalized_assignment(raw, width) matches Some(prefix) ==> prefix.len() == width
            && all_upper_hex(prefix),
{
    if let Some(prefix) = normalized_assignment(raw, width) {
        let stripped = raw.filter(keeps_assignment_char());
        assert forall|i: int| 0 <= i < prefix.len() implies is_upper_hex_digit(
            #[trigger] prefix[i],
        ) by {
            assert(is_hex_digit(stripped[i]));
        }
    }
}

/// `normalize_assignment` together with the value the prefix writes.
pub fn normalize_assignment_keyed(raw: &str, registry: IeeeMacRegistry) -> (normalized: Option<
    (String, u64),
>)
    ensures
        match normalized {
            Some((prefix, key)) => normalized_assignment(raw@, registry.hex_width()) == Some(
                prefix@,
            ) && key == hex_value(prefix@),
            None => normalized_assignment(raw@, registry.hex_width()) is None,
        },
{
    broadcast use Seq::lemma_filter_push;

    let chars = chars_of(raw);
    let ghost keep = keeps_assignment_char();
    let mut stripped: Vec<char> = Vec::new();
    let mut i: usize = 0;
    assert(chars@.take(0) =~= Seq::<char>::empty());
    while i < chars.len()
        invariant
            i <= chars.len(),
            chars@ == raw@,
            keep == keeps_assignment_char(),
            stripped@ == chars@.take(i as int).filter(keep),
        decreases chars.len() - i,
    {
        let c = chars[i];
        assert(chars@.take(i + 1) =~= chars@.take(i as int).push(c));
        let ghost before = chars@.take(i as int);
        assert(keep(c) == !is_assignment_separator(c));
        proof {
            before.lemma_filter_push(c, keep);
        }
        assert(before.push(c).filter(keep) == if keep(c) {
            before.filter(keep).push(c)
        } else {
            before.filter(keep)
        });
        if !(c == ':' || c == '-' || c == '.' || c == ' ' || c == '\t') {
            stripped.push(c);
        }
        i = i + 1;
    }
    assert(chars@.take(chars.len() as int) =~= chars@);
    let width = registry.assignment_hex_digit_count();
    if stripped.len() != width {
        return None;
    }
    let mut upper: Vec<char> = Vec::new();
    let mut key: u64 = 0;
    let mut k: usize = 0;
    while k < stripped.len()
        invariant
            k <= stripped.len(),
            stripped.len() == width,
            width == registry.hex_width(),
            stripped@ == raw@.filter(keeps_assignment_char()),
            width <= 9,
            forall|j: int| 0 <= j < k ==> is_hex_digit(#[trigger] stripped@[j]),
            upper@ == stripped@.take(k as int).map_values(|c: char| ascii_upper(c)),
            key == hex_value(upper@),
            key < pow16(k as nat),
        decreases stripped.len() - k,
    {
        let c = stripped[k];
        let u: u32 = c as u32;
        let digit: u64;
        let up: char;
        if 48 <= u && u <= 57 {
            digit = (u - 48) as u64;
            up = c;
        } else if 65 <= u && u <= 70 {
            digit = (u - 55) as u64;
            up = c;
        } else if 97 <= u && u <= 102 {
            digit = (u - 87) as u64;
            up = ((u - 32) as u8) as char;
        } else {
            assert(!is_hex_digit(stripped@[k as int]));
            return None;
        }
        assert(up == ascii_upper(c));
        assert(hex_digit_value(up) == digit);
        proof {
            lemma_pow16_bound((k + 1) as nat);
        }
        let ghost old_upper = upper@;
        upper.push(up);
        assert(upper@.drop_last() == old_upper);
        key = key * 16 + digit;
        k = k + 1;
        assert(stripped@.take(k as int) =~= stripped@.take(k - 1).push(c));
        assert(upper@ =~= stripped@.take(k as int).map_values(|c: char| ascii_upper(c)));
    }
    assert(stripped@.take(k as int) =~= stripped@);
    Some((string_of(upper.as_slice()), key))
}

/// Strips IEEE separators from `raw` and returns the upper-case prefix when exactly the
/// registry's number of hexadecimal digits remains.
pub fn normalize_assignment(raw: &str, registry: IeeeMacRegistry) -> (normalized: Option<String>)
    ensures
        match normalized {
            Some(prefix) => normalized_assignment(raw@, registry.hex_width()) == Some(prefix@),
            None => normalized_assignment(raw@, registry.hex_width()) is None,
        },
{
    match normalize_assignment_keyed(raw, registry) {
        Some((prefix, _key)) => Some(prefix),
        None => None,
    }
}

} // verus!
