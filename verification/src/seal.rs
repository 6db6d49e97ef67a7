//! The check digits that stand before a record in a session token. They are
//! a checksum of the record: a token in which one character was replaced no
//! longer carries the digits of what follows them. They are no signature.

use vstd::prelude::*;
use vstd::string::{StringExecFns, StrSliceExecFns};

verus! {

/// The number of check digits.
pub open spec fn tag_width() -> nat {
    8
}

/// The code point of a character.
pub open spec fn code_point(c: char) -> nat {
    c as u32 as nat
}

/// The checksum of a text: the sum of its characters' code points, modulo
/// two to the power of 32.
pub open spec fn code_sum(text: Seq<char>) -> nat
    decreases text.len(),
{
    if text.len() == 0 {
        0
    } else {
        ((code_sum(text.drop_last()) + code_point(text.last())) % 0x1_0000_0000) as nat
    }
}

/// The character for a digit below sixteen.
pub open spec fn digit_char(digit: nat) -> char {
    if digit == 0 {
        '0'
    } else if digit == 1 {
        '1'
    } else if digit == 2 {
        '2'
    } else if digit == 3 {
        '3'
    } else if digit == 4 {
        '4'
    } else if digit == 5 {
        '5'
    } else if digit == 6 {
        '6'
    } else if digit == 7 {
        '7'
    } else if digit == 8 {
        '8'
    } else if digit == 9 {
        '9'
    } else if digit == 10 {
        'a'
    } else if digit == 11 {
        'b'
    } else if digit == 12 {
        'c'
    } else if digit == 13 {
        'd'
    } else if digit == 14 {
        'e'
    } else {
        'f'
    }
}

/// A number in `width` hexadecimal digits, the lowest digit first.
pub open spec fn tag_digits(value: nat, width: nat) -> Seq<char>
    decreases width,
{
    if width == 0 {
        Seq::empty()
    } else {
        seq![digit_char(value % 16)] + tag_digits(value / 16, (width - 1) as nat)
    }
}

/// The check digits of a record.
pub open spec fn tag_of(record: Seq<char>) -> Seq<char> {
    tag_digits(code_sum(record), tag_width())
}

/// A record with its check digits before it.
pub open spec fn sealed(record: Seq<char>) -> Seq<char> {
    tag_of(record) + record
}

/// The record inside a token: what follows the first eight characters,
/// where these are the check digits of what follows them.
pub open spec fn unsealed(token: Seq<char>) -> Option<Seq<char>> {
    if token.len() >= tag_width() && token.subrange(0, tag_width() as int) == tag_of(
        token.subrange(tag_width() as int, token.len() as int),
    ) {
        Some(token.subrange(tag_width() as int, token.len() as int))
    } else {
        None
    }
}

/// The least number that does not fit in `width` hexadecimal digits.
pub open spec fn digits_bound(width: nat) -> nat
    decreases width,
{
    if width == 0 {
        1
    } else {
        16 * digits_bound((width - 1) as nat)
    }
}

/// A number written in `width` digits has that many characters.
pub proof fn tag_digits_len(value: nat, width: nat)
    ensures
        tag_digits(value, width).len() == width,
    decreases width,
{
    if width > 0 {
        tag_digits_len(value / 16, (width - 1) as nat);
    }
}

/// Two numbers that fit in the digits have the same digits only if they are
/// the same number.
pub proof fn tag_digits_injective(a: nat, b: nat, width: nat)
    requires
        a < digits_bound(width),
        b < digits_bound(width),
        tag_digits(a, width) == tag_digits(b, width),
    ensures
        a == b,
    decreases width,
{
    if width > 0 {
        let rest_a = tag_digits(a / 16, (width - 1) as nat);
        let rest_b = tag_digits(b / 16, (width - 1) as nat);
        let digits_a = tag_digits(a, width);
        let digits_b = tag_digits(b, width);
        assert(digits_a[0] == digit_char(a % 16));
        assert(digits_b[0] == digit_char(b % 16));
        assert(a % 16 == b % 16);
        assert(digits_a.subrange(1, digits_a.len() as int) == rest_a);
        assert(digits_b.subrange(1, digits_b.len() as int) == rest_b);
        tag_digits_injective(a / 16, b / 16, (width - 1) as nat);
    }
}

/// A checksum is below two to the power of 32.
pub proof fn code_sum_bounded(text: Seq<char>)
    ensures
        code_sum(text) < 0x1_0000_0000,
    decreases text.len(),
{
    if text.len() > 0 {
        code_sum_bounded(text.drop_last());
    }
}

/// Code points are below two to the power of 32, and differ between
/// different characters.
pub proof fn code_points_differ(a: char, b: char)
    ensures
        code_point(a) < 0x1_0000_0000,
        code_point(b) < 0x1_0000_0000,
        a != b ==> code_point(a) != code_point(b),
{
}

/// Replacing one character of a text by another changes its checksum.
pub proof fn code_sum_changes(text: Seq<char>, at: int, by: char)
    requires
        0 <= at < text.len(),
        by != text[at],
    ensures
        code_sum(text.update(at, by)) != code_sum(text),
    decreases text.len(),
{
    let changed = text.update(at, by);
    code_sum_bounded(text.drop_last());
    code_sum_bounded(changed.drop_last());
    if at == text.len() - 1 {
        assert(changed.drop_last() == text.drop_last());
        assert(changed.last() == by);
        code_points_differ(by, text.last());
    } else {
        assert(changed.drop_last() == text.drop_last().update(at, by));
        assert(changed.last() == text.last());
        code_sum_changes(text.drop_last(), at, by);
    }
}

/// A sealed record is unsealed as itself.
pub proof fn unsealed_of_sealed(record: Seq<char>)
    ensures
        unsealed(sealed(record)) == Some(record),
{
    tag_digits_len(code_sum(record), tag_width());
    let token = sealed(record);
    assert(token.subrange(0, tag_width() as int) == tag_of(record));
    assert(token.subrange(tag_width() as int, token.len() as int) == record);
}

/// A token with a valid seal loses it when one of its characters is replaced
/// by another, be it a check digit or a character of the record.
pub proof fn changed_character_breaks_seal(token: Seq<char>, at: int, by: char)
    requires
        unsealed(token) is Some,
        0 <= at < token.len(),
        by != token[at],
    ensures
        unsealed(token.update(at, by)) is None,
{
    let width = tag_width() as int;
    let changed = token.update(at, by);
    let record = token.subrange(width, token.len() as int);
    let changed_record = changed.subrange(width, changed.len() as int);
    if at < width {
        assert(changed_record == record);
        assert(changed.subrange(0, width)[at] == by);
        assert(token.subrange(0, width)[at] == token[at]);
    } else {
        assert(changed.subrange(0, width) == token.subrange(0, width));
        assert(changed_record == record.update(at - width, by));
        code_sum_changes(record, at - width, by);
        code_sum_bounded(record);
        code_sum_bounded(changed_record);
        assert(digits_bound(8) == 0x1_0000_0000) by {
            reveal_with_fuel(digits_bound, 10);
        }
        if tag_of(changed_record) == tag_of(record) {
            tag_digits_injective(code_sum(changed_record), code_sum(record), tag_width());
        }
    }
}

/// Computes the checksum of a text.
pub fn checksum(text: &str) -> (r: u64)
    ensures
        r == code_sum(text@),
{
    let n = text.unicode_len();
    let mut sum: u64 = 0;
    let mut i: usize = 0;
    while i < n
        invariant
            i <= n,
            n == text@.len(),
            sum == code_sum(text@.subrange(0, i as int)),
            sum < 0x1_0000_0000,
        decreases n - i,
    {
        let c = text.get_char(i);
        proof {
            let longer = text@.subrange(0, i + 1);
            assert(longer.drop_last() == text@.subrange(0, i as int));
            assert(longer.last() == c);
            code_points_differ(c, c);
        }
        let code: u32 = c as u32;
        sum = (sum + code as u64) % 0x1_0000_0000;
        i = i + 1;
    }
    proof {
        assert(text@.subrange(0, n as int) == text@);
    }
    sum
}

/// The text of one digit.
fn digit_text(digit: u64) -> (r: &'static str)
    requires
        digit < 16,
    ensures
        r@ == seq![digit_char(digit as nat)],
{
    proof {
        reveal_strlit("0");
        reveal_strlit("1");
        reveal_strlit("2");
        reveal_strlit("3");
        reveal_strlit("4");
        reveal_strlit("5");
        reveal_strlit("6");
        reveal_strlit("7");
        reveal_strlit("8");
        reveal_strlit("9");
        reveal_strlit("a");
        reveal_strlit("b");
        reveal_strlit("c");
        reveal_strlit("d");
        reveal_strlit("e");
        reveal_strlit("f");
    }
    let r = if digit == 0 {
        "0"
    } else if digit == 1 {
        "1"
    } else if digit == 2 {
        "2"
    } else if digit == 3 {
        "3"
    } else if digit == 4 {
        "4"
    } else if digit == 5 {
        "5"
    } else if digit == 6 {
        "6"
    } else if digit == 7 {
        "7"
    } else if digit == 8 {
        "8"
    } else if digit == 9 {
        "9"
    } else if digit == 10 {
        "a"
    } else if digit == 11 {
        "b"
    } else if digit == 12 {
        "c"
    } else if digit == 13 {
        "d"
    } else if digit == 14 {
        "e"
    } else {
        "f"
    };
    assert(r@ =~= seq![digit_char(digit as nat)]);
    r
}

/// Computes the check digits of a record.
pub fn tag(record: &str) -> (r: String)
    ensures
        r@ == tag_of(record@),
{
    let mut rest: u64 = checksum(record);
    let mut out = String::new();
    let mut i: usize = 0;
    assert(out@ + tag_of(record@) == tag_of(record@));
    while i < 8
        invariant
            i <= 8,
            out@ + tag_digits(rest as nat, (8 - i) as nat) == tag_of(record@),
        decreases 8 - i,
    {
        let ghost before = out@;
        let digit = digit_text(rest % 16);
        out.append(digit);
        proof {
            let lower = tag_digits((rest / 16) as nat, (8 - i - 1) as nat);
            assert(out@ + lower == before + (digit@ + lower));
        }
        rest = rest / 16;
        i = i + 1;
    }
    assert(out@ + Seq::<char>::empty() == out@);
    out
}

/// Puts its check digits before a record.
pub fn seal(record: &str) -> (r: String)
    ensures
        r@ == sealed(record@),
{
    tag(record).concat(record)
}

/// Takes the record out of a token, where the token begins with the check
/// digits of the rest.
pub fn unseal<'a>(token: &'a str) -> (r: Option<&'a str>)
    ensures
        match r {
            Some(record) => unsealed(token@) == Some(record@),
            None => unsealed(token@) is None,
        },
{
    let n = token.unicode_len();
    if n < 8 {
        return None;
    }
    let digits = token.substring_char(0, 8);
    let record = token.substring_char(8, n);
    if digits.to_owned() == tag(record) {
        Some(record)
    } else {
        None
    }
}

} // verus!
