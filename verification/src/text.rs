//! The few operations on text that header parsing needs.

use vstd::prelude::*;
use vstd::string::*;

verus! {

/// The characters with the Unicode property `White_Space`.
pub open spec fn is_white_space(c: char) -> bool {
    ||| '\u{9}' <= c <= '\u{d}'
    ||| c == '\u{20}'
    ||| c == '\u{85}'
    ||| c == '\u{a0}'
    ||| c == '\u{1680}'
    ||| '\u{2000}' <= c <= '\u{200a}'
    ||| c == '\u{2028}'
    ||| c == '\u{2029}'
    ||| c == '\u{202f}'
    ||| c == '\u{205f}'
    ||| c == '\u{3000}'
}

fn white_space(c: char) -> (white: bool)
    ensures
        white == is_white_space(c),
{
    ('\u{9}' <= c && c <= '\u{d}') || c == '\u{20}' || c == '\u{85}' || c == '\u{a0}' || c
        == '\u{1680}' || ('\u{2000}' <= c && c <= '\u{200a}') || c == '\u{2028}' || c == '\u{2029}'
        || c == '\u{202f}' || c == '\u{205f}' || c == '\u{3000}'
}

pub open spec fn trimmed_start(s: Seq<char>) -> Seq<char>
    decreases s.len(),
{
    if s.len() > 0 && is_white_space(s[0]) {
        trimmed_start(s.drop_first())
    } else {
        s
    }
}

pub open spec fn trimmed_end(s: Seq<char>) -> Seq<char>
    decreases s.len(),
{
    if s.len() > 0 && is_white_space(s.last()) {
        trimmed_end(s.drop_last())
    } else {
        s
    }
}

/// The text without white space at either end.
pub open spec fn trimmed(s: Seq<char>) -> Seq<char> {
    trimmed_end(trimmed_start(s))
}

/// Cuts white space off both ends.
pub fn trim(text: &str) -> (cut: &str)
    ensures
        cut@ == trimmed(text@),
{
    let len: usize = text.unicode_len();
    let mut start: usize = 0;
    assert(text@.subrange(0, len as int) =~= text@);
    while start < len && white_space(text.get_char(start))
        invariant
            start <= len == text@.len(),
            trimmed_start(text@) == trimmed_start(text@.subrange(start as int, len as int)),
        ensures
            start <= len,
            start < len ==> !is_white_space(text@[start as int]),
            trimmed_start(text@) == trimmed_start(text@.subrange(start as int, len as int)),
        decreases len - start,
    {
        assert(text@.subrange(start as int, len as int).drop_first() =~= text@.subrange(
            start + 1,
            len as int,
        ));
        start = start + 1;
    }
    let ghost rest = text@.subrange(start as int, len as int);
    assert(trimmed_start(text@) == rest) by {
        assert(text@.subrange(0, len as int) =~= text@);
    }
    let mut end: usize = len;
    assert(text@.subrange(start as int, end as int) =~= rest);
    while start < end && white_space(text.get_char(end - 1))
        invariant
            start <= end <= len == text@.len(),
            rest == text@.subrange(start as int, len as int),
            trimmed_end(rest) == trimmed_end(text@.subrange(start as int, end as int)),
        ensures
            start <= end <= len,
            start < end ==> !is_white_space(text@[end - 1]),
            trimmed_end(rest) == trimmed_end(text@.subrange(start as int, end as int)),
        decreases end - start,
    {
        assert(text@.subrange(start as int, end as int).drop_last() =~= text@.subrange(
            start as int,
            end - 1,
        ));
        end = end - 1;
    }
    text.substring_char(start, end)
}

/// Whether the text, white space aside, is the flag `1`.
pub fn is_one(text: &str) -> (one: bool)
    ensures
        one == (trimmed(text@) == seq!['1']),
{
    let cut = trim(text);
    let one = cut.unicode_len() == 1 && cut.get_char(0) == '1';
    proof {
        if one {
            assert(cut@ =~= seq!['1']);
        }
    }
    one
}

pub open spec fn is_digit(c: char) -> bool {
    '0' <= c <= '9'
}

/// The number a run of digits spells.
pub open spec fn decimal_value(digits: Seq<char>) -> nat
    decreases digits.len(),
{
    if digits.len() == 0 {
        0
    } else {
        10 * decimal_value(digits.drop_last()) + (digits.last() as nat - '0' as nat) as nat
    }
}

/// The `u64` a run of at least one digit spells, where it is in range.
pub open spec fn digits_u64(digits: Seq<char>) -> Option<u64> {
    if digits.len() > 0 && (forall|i: int| 0 <= i < digits.len() ==> is_digit(#[trigger] digits[i]))
        && decimal_value(digits) <= u64::MAX {
        Some(decimal_value(digits) as u64)
    } else {
        None
    }
}

/// A decimal `u64`: an optional plus sign, then digits and nothing else.
pub open spec fn decimal_u64(s: Seq<char>) -> Option<u64> {
    if s.len() > 0 && s[0] == '+' {
        digits_u64(s.drop_first())
    } else {
        digits_u64(s)
    }
}

proof fn lemma_decimal_value_grows(digits: Seq<char>, upto: int)
    requires
        0 <= upto <= digits.len(),
        forall|i: int| 0 <= i < digits.len() ==> is_digit(#[trigger] digits[i]),
    ensures
        decimal_value(digits.take(upto)) <= decimal_value(digits),
    decreases digits.len(),
{
    if upto < digits.len() {
        lemma_decimal_value_grows(digits.drop_last(), upto);
        assert(digits.drop_last().take(upto) =~= digits.take(upto));
    } else {
        assert(digits.take(upto) =~= digits);
    }
}

/// Reads a decimal `u64`.
pub fn parse_decimal(text: &str) -> (number: Option<u64>)
    ensures
        number == decimal_u64(text@),
{
    let len: usize = text.unicode_len();
    let start: usize = if len > 0 && text.get_char(0) == '+' { 1 } else { 0 };
    let ghost digits = text@.subrange(start as int, len as int);
    assert(digits =~= if text@.len() > 0 && text@[0] == '+' {
        text@.drop_first()
    } else {
        text@
    });
    if start == len {
        return None;
    }
    let mut value: u64 = 0;
    let mut i: usize = start;
    while i < len
        invariant
            start <= i <= len == text@.len(),
            digits == text@.subrange(start as int, len as int),
            forall|j: int| 0 <= j < i - start ==> is_digit(#[trigger] digits[j]),
            value == decimal_value(digits.take(i - start)),
            decimal_u64(text@) == digits_u64(digits),
        decreases len - i,
    {
        let c = text.get_char(i);
        assert(c == digits[i - start]);
        if !('0' <= c && c <= '9') {
            assert(!is_digit(digits[i - start]));
            return None;
        }
        let digit: u64 = (c as u32 - '0' as u32) as u64;
        assert(digits.take(i - start + 1).drop_last() =~= digits.take(i - start));
        assert(decimal_value(digits.take(i - start + 1)) == 10 * value + digit);
        proof {
            if forall|j: int| 0 <= j < digits.len() ==> is_digit(#[trigger] digits[j]) {
                lemma_decimal_value_grows(digits, i - start + 1);
            }
        }
        match value.checked_mul(10) {
            Some(tens) => match tens.checked_add(digit) {
                Some(next) => {
                    value = next;
                },
                None => {
                    return None;
                },
            },
            None => {
                return None;
            },
        }
        i = i + 1;
    }
    assert(digits.take(len - start) =~= digits);
    Some(value)
}

/// The text's characters.
pub fn chars_of(text: &str) -> (chars: Vec<char>)
    ensures
        chars@ == text@,
{
    let len: usize = text.unicode_len();
    let mut chars: Vec<char> = Vec::new();
    let mut i: usize = 0;
    while i < len
        invariant
            i <= len == text@.len(),
            chars@ == text@.take(i as int),
        decreases len - i,
    {
        chars.push(text.get_char(i));
        assert(chars@ =~= text@.take(i + 1));
        i = i + 1;
    }
    assert(text@.take(len as int) =~= text@);
    chars
}

/// Whether `part` stands in `whole` at `at`.
pub open spec fn stands_at(whole: Seq<char>, part: Seq<char>, at: int) -> bool {
    0 <= at <= whole.len() - part.len() && whole.subrange(at, at + part.len()) == part
}

/// Whether `part` stands somewhere in `whole`.
pub open spec fn has_part(whole: Seq<char>, part: Seq<char>) -> bool {
    exists|at: int| #[trigger] stands_at(whole, part, at)
}

fn part_stands_at(whole: &Vec<char>, part: &Vec<char>, at: usize) -> (stands: bool)
    requires
        at + part@.len() <= whole@.len(),
    ensures
        stands == stands_at(whole@, part@, at as int),
{
    let len: usize = whole.len();
    let mut i: usize = 0;
    while i < part.len()
        invariant
            i <= part@.len(),
            at + part@.len() <= len == whole@.len(),
            forall|j: int| 0 <= j < i ==> whole@[at + j] == #[trigger] part@[j],
        decreases part@.len() - i,
    {
        if whole[at + i] != part[i] {
            assert(whole@.subrange(at as int, at + part@.len())[i as int] != part@[i as int]);
            return false;
        }
        i = i + 1;
    }
    assert(whole@.subrange(at as int, at + part@.len()) =~= part@);
    true
}

/// Whether `part` stands somewhere in `whole`.
pub fn contains(whole: &str, part: &str) -> (found: bool)
    ensures
        found == has_part(whole@, part@),
{
    let all = chars_of(whole);
    let wanted = chars_of(part);
    if wanted.len() > all.len() {
        return false;
    }
    let last: usize = all.len() - wanted.len();
    let mut at: usize = 0;
    while at < last
        invariant
            at <= last,
            all@ == whole@,
            wanted@ == part@,
            last == all@.len() - wanted@.len(),
            forall|i: int| 0 <= i < at ==> !(#[trigger] stands_at(whole@, part@, i)),
        decreases last - at,
    {
        if part_stands_at(&all, &wanted, at) {
            assert(stands_at(whole@, part@, at as int));
            return true;
        }
        at = at + 1;
    }
    part_stands_at(&all, &wanted, last)
}

/// Whether `suffix` ends `whole`.
pub open spec fn ends_in(whole: Seq<char>, suffix: Seq<char>) -> bool {
    stands_at(whole, suffix, whole.len() - suffix.len())
}

/// Whether `suffix` ends `whole`.
pub fn ends_with(whole: &Vec<char>, suffix: &Vec<char>) -> (ends: bool)
    ensures
        ends == ends_in(whole@, suffix@),
{
    suffix.len() <= whole.len() && part_stands_at(whole, suffix, whole.len() - suffix.len())
}

// ── Laws ────────────────────────────────────────────────────────────────────

proof fn lemma_trimmed_start(s: Seq<char>)
    ensures
        trimmed_start(s).len() <= s.len(),
        trimmed_start(s) == s.skip(s.len() - trimmed_start(s).len()),
        trimmed_start(s).len() > 0 ==> !is_white_space(trimmed_start(s)[0]),
        forall|i: int|
            0 <= i < s.len() - trimmed_start(s).len() ==> is_white_space(#[trigger] s[i]),
    decreases s.len(),
{
    if s.len() > 0 && is_white_space(s[0]) {
        let rest = s.drop_first();
        lemma_trimmed_start(rest);
        assert(s.skip(s.len() - trimmed_start(s).len()) =~= rest.skip(
            rest.len() - trimmed_start(rest).len(),
        ));
        assert forall|i: int| 0 <= i < s.len() - trimmed_start(s).len() implies is_white_space(
            #[trigger] s[i],
        ) by {
            if i > 0 {
                assert(rest[i - 1] == s[i]);
            }
        }
    } else {
        assert(s.skip(0) =~= s);
    }
}

proof fn lemma_trimmed_end(s: Seq<char>)
    ensures
        trimmed_end(s).len() <= s.len(),
        trimmed_end(s) == s.take(trimmed_end(s).len() as int),
        trimmed_end(s).len() > 0 ==> !is_white_space(trimmed_end(s).last()),
        forall|i: int| trimmed_end(s).len() <= i < s.len() ==> is_white_space(#[trigger] s[i]),
    decreases s.len(),
{
    if s.len() > 0 && is_white_space(s.last()) {
        let rest = s.drop_last();
        lemma_trimmed_end(rest);
        assert(s.take(trimmed_end(s).len() as int) =~= rest.take(trimmed_end(rest).len() as int));
        assert forall|i: int| trimmed_end(s).len() <= i < s.len() implies is_white_space(
            #[trigger] s[i],
        ) by {
            if i < rest.len() {
                assert(rest[i] == s[i]);
            }
        }
    } else {
        assert(s.take(s.len() as int) =~= s);
    }
}

/// Trimming cuts off white space and nothing else, and all of it at either end: what is
/// left stands in the text with only white space before and behind it, and neither begins
/// nor ends with any.
pub proof fn law_trimming_cuts_off_white_space_alone(s: Seq<char>)
    ensures
        exists|from: int, to: int|
            0 <= from <= to <= s.len() && trimmed(s) == #[trigger] s.subrange(from, to) && (forall|i: int|
                0 <= i < from || to <= i < s.len() ==> is_white_space(#[trigger] s[i])),
        trimmed(s).len() > 0 ==> !is_white_space(trimmed(s)[0]) && !is_white_space(trimmed(s).last()),
{
    lemma_trimmed_start(s);
    let front = trimmed_start(s);
    lemma_trimmed_end(front);
    let from = s.len() - front.len();
    let to = from + trimmed(s).len();
    assert(trimmed(s) =~= s.subrange(from, to));
    assert forall|i: int| 0 <= i < from || to <= i < s.len() implies is_white_space(#[trigger] s[i]) by {
        if to <= i {
            assert(front[i - from] == s[i]);
        }
    }
    if trimmed(s).len() > 0 {
        assert(trimmed(s)[0] == front[0]);
    }
}

/// White space is the blank, the line ends and tabs, and the wide and narrow blanks; no
/// letter, digit or sign of a header is.
pub proof fn law_white_space_is_no_text(c: char)
    ensures
        is_white_space(' ') && is_white_space('\t') && is_white_space('\n') && is_white_space('\r'),
        '\u{21}' <= c <= '\u{7e}' ==> !is_white_space(c),
        is_white_space(c) && c < '\u{80}' ==> c == ' ' || '\u{9}' <= c <= '\u{d}',
{
}

/// A number is what its digits spell, one after the other; a text is a number exactly
/// where it is digits, at least one, perhaps with a plus sign before them, and the number
/// is in range.
pub proof fn law_a_number_is_what_its_digits_spell(digits: Seq<char>, digit: char, value: u64)
    requires
        is_digit(digit),
    ensures
        decimal_value(digits.push(digit)) == 10 * decimal_value(digits) + (digit as int - '0' as int),
        decimal_value(seq![digit]) == digit as int - '0' as int,
        decimal_u64(digits) == Some(value) ==> {
            let bare = if digits[0] == '+' {
                digits.drop_first()
            } else {
                digits
            };
            &&& bare.len() > 0
            &&& forall|i: int| 0 <= i < bare.len() ==> '0' <= #[trigger] bare[i] <= '9'
            &&& decimal_value(bare) == value
        },
        digits.len() > 0 && (forall|i: int|
            0 <= i < digits.len() ==> '0' <= #[trigger] digits[i] <= '9') && decimal_value(digits)
            == value ==> decimal_u64(digits) == Some(value) && decimal_u64(seq!['+'] + digits)
            == Some(value),
{
    assert(digits.push(digit).drop_last() =~= digits);
    assert(seq![digit].drop_last() =~= Seq::<char>::empty());
    reveal_with_fuel(decimal_value, 2);
    if digits.len() > 0 && (forall|i: int|
        0 <= i < digits.len() ==> '0' <= #[trigger] digits[i] <= '9') && decimal_value(digits) == value {
        assert('0' <= digits[0] <= '9');
        assert((seq!['+'] + digits).drop_first() =~= digits);
        assert forall|i: int| 0 <= i < digits.len() implies is_digit(#[trigger] digits[i]) by {}
    }
}

/// A text has a part exactly where it is something, the part, and something again, and
/// ends in a suffix exactly where it is something and the suffix.
pub proof fn law_a_part_stands_between_the_rest(
    whole: Seq<char>,
    part: Seq<char>,
    before: Seq<char>,
    behind: Seq<char>,
)
    ensures
        whole == before + part + behind ==> has_part(whole, part),
        has_part(whole, part) ==> exists|at: int|
            0 <= at <= whole.len() - part.len() && #[trigger] whole.subrange(at, at + part.len()) == part,
        whole == before + part ==> ends_in(whole, part),
        ends_in(whole, part) ==> part.len() <= whole.len() && whole == whole.take(
            whole.len() - part.len(),
        ) + part,
{
    if whole == before + part + behind {
        let at = before.len() as int;
        assert(whole.subrange(at, at + part.len()) =~= part);
        assert(stands_at(whole, part, at));
    }
    if has_part(whole, part) {
        let at = choose|at: int| #[trigger] stands_at(whole, part, at);
        assert(whole.subrange(at, at + part.len()) == part);
    }
    if whole == before + part {
        assert(whole.subrange(before.len() as int, whole.len() as int) =~= part);
    }
    if ends_in(whole, part) {
        let at = whole.len() - part.len();
        assert(whole.subrange(at, at + part.len()) == part);
        assert(whole =~= whole.take(at) + part);
    }
}

} // verus!
