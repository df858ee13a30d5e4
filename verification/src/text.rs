//! Comparing, numbering and building text.

use vstd::prelude::*;
use vstd::string::StringExecFns;

use crate::sort::{byte_key, bytes_at_most, SortKey};

verus! {

/// Whether two texts hold the same characters.
pub fn same_text(a: &str, b: &str) -> (r: bool)
    ensures
        r == (a@ == b@),
{
    a.to_owned() == b.to_owned()
}

/// The decimal digit of a number below ten.
pub open spec fn digit(n: int) -> char {
    (48 + n) as char
}

/// A number in decimal, without leading zeros.
pub open spec fn decimal_text(n: int) -> Seq<char>
    decreases n,
{
    if n < 10 {
        seq![digit(n)]
    } else {
        decimal_text(n / 10).push(digit(n % 10))
    }
}

/// The decimal digit of a number below ten.
fn digit_text(n: u64) -> (r: &'static str)
    requires
        n < 10,
    ensures
        r@ == seq![digit(n as int)],
{
    proof {
        reveal_strlit("0");
        reveal_strlit("1");
        reveal_strlit("2");
        reveal_strlit("3");
        reveal_strlit("4");
        reveal_strlit("5");
        reveal_strlit("6");
        reveal_strlit("7");
        reveal_strlit("8");
        reveal_strlit("9");
    }
    let r: &'static str = match n {
        0 => "0",
        1 => "1",
        2 => "2",
        3 => "3",
        4 => "4",
        5 => "5",
        6 => "6",
        7 => "7",
        8 => "8",
        _ => "9",
    };
    assert(r@ =~= seq![digit(n as int)]);
    r
}

/// A number in decimal, without leading zeros.
pub fn decimal(n: u64) -> (r: String)
    ensures
        r@ == decimal_text(n as int),
    decreases n,
{
    if n < 10 {
        return digit_text(n).to_owned();
    }
    let mut text: String = decimal(n / 10);
    text.append(digit_text(n % 10));
    assert(text@ =~= decimal_text(n as int));
    text
}

/// Different digits look different.
proof fn lemma_digit_is_injective(a: int, b: int)
    requires
        0 <= a < 10,
        0 <= b < 10,
        digit(a) == digit(b),
    ensures
        a == b,
{
    assert(digit(a) as int == 48 + a);
    assert(digit(b) as int == 48 + b);
}

/// Different numbers have different decimals.
pub proof fn lemma_decimal_is_injective(a: int, b: int)
    requires
        0 <= a,
        0 <= b,
        decimal_text(a) == decimal_text(b),
    ensures
        a == b,
    decreases a,
{
    lemma_decimal_has_digits(a);
    lemma_decimal_has_digits(b);
    lemma_last_digit(a);
    lemma_last_digit(b);
    if a >= 10 && b >= 10 {
        assert(decimal_text(a).drop_last() =~= decimal_text(a / 10));
        assert(decimal_text(b).drop_last() =~= decimal_text(b / 10));
        lemma_decimal_is_injective(a / 10, b / 10);
        lemma_digit_is_injective(a % 10, b % 10);
    } else if a < 10 && b < 10 {
        lemma_digit_is_injective(a, b);
    }
}

/// A decimal ends in the last digit.
proof fn lemma_last_digit(n: int)
    requires
        0 <= n,
    ensures
        decimal_text(n).len() >= 1,
        decimal_text(n).last() == digit(n % 10),
{
    if n < 10 {
        assert(decimal_text(n) =~= seq![digit(n)]);
    }
}

/// A number from ten on has at least two digits.
proof fn lemma_decimal_has_digits(n: int)
    requires
        0 <= n,
    ensures
        decimal_text(n).len() >= 1,
        n >= 10 ==> decimal_text(n).len() >= 2,
    decreases n,
{
    if n >= 10 {
        lemma_decimal_has_digits(n / 10);
    }
}

/// A name that sorts by its bytes.
#[derive(Debug)]
pub struct Name {
    pub text: String,
}

impl SortKey for Name {
    open spec fn key(&self) -> Seq<int> {
        text_key(self.text@)
    }

    fn at_most(&self, other: &Self) -> (r: bool) {
        bytes_at_most(self.text.as_str().as_bytes(), other.text.as_str().as_bytes())
    }
}

/// The place of a text in the order of names: its UTF-8 bytes.
pub open spec fn text_key(text: Seq<char>) -> Seq<int> {
    byte_key(vstd::utf8::encode_utf8(text))
}

/// Texts with one place are the same.
pub proof fn lemma_text_key_is_injective(a: Seq<char>, b: Seq<char>)
    requires
        text_key(a) == text_key(b),
    ensures
        a == b,
{
    let left = vstd::utf8::encode_utf8(a);
    let right = vstd::utf8::encode_utf8(b);
    assert(left =~= right) by {
        assert(byte_key(left).len() == byte_key(right).len());
        assert forall|i: int| 0 <= i < left.len() implies left[i] == right[i] by {
            assert(byte_key(left)[i] == byte_key(right)[i]);
        }
    }
    vstd::utf8::encode_utf8_decode_utf8(a);
    vstd::utf8::encode_utf8_decode_utf8(b);
}

/// The texts of a run of names.
pub open spec fn texts(names: Seq<String>) -> Seq<Seq<char>> {
    names.map_values(|name: String| name@)
}

/// Whether a name is among others.
pub fn contains_text(names: &Vec<String>, name: &str) -> (r: bool)
    ensures
        r == texts(names@).contains(name@),
{
    let mut index: usize = 0;
    while index < names.len()
        invariant
            index <= names@.len(),
            forall|i: int| 0 <= i < index ==> #[trigger] names@[i]@ != name@,
        decreases names@.len() - index,
    {
        if same_text(names[index].as_str(), name) {
            assert(texts(names@)[index as int] == name@);
            return true;
        }
        index = index + 1;
    }
    assert forall|i: int| 0 <= i < texts(names@).len() implies texts(names@)[i] != name@ by {
        assert(names@[i]@ != name@);
    }
    false
}

/// Copies of the names.
pub fn copy_texts(names: &Vec<String>) -> (r: Vec<String>)
    ensures
        texts(r@) == texts(names@),
{
    let mut copies: Vec<String> = Vec::new();
    let mut index: usize = 0;
    while index < names.len()
        invariant
            index <= names@.len(),
            copies@.len() == index,
            forall|i: int| 0 <= i < index ==> #[trigger] copies@[i]@ == names@[i]@,
        decreases names@.len() - index,
    {
        copies.push(names[index].clone());
        index = index + 1;
    }
    assert(texts(copies@) =~= texts(names@));
    copies
}

/// Put a copy of a word behind the others.
pub fn push_word(words: &mut Vec<String>, word: &str)
    ensures
        texts(final(words)@) == texts(old(words)@).push(word@),
        final(words)@.len() == old(words)@.len() + 1,
{
    let ghost before = words@;
    words.push(word.to_owned());
    assert(texts(words@) =~= texts(before).push(word@));
}

/// The characters of a text.
pub fn chars_of(text: &str) -> (r: Vec<char>)
    ensures
        r@ == text@,
{
    broadcast use {vstd::string::axiom_spec_iter, vstd::string::next_postcondition};

    let mut output: Vec<char> = Vec::new();
    let mut rest = text.chars();
    assert(output@ + vstd::std_specs::iter::IteratorSpec::remaining(&rest) =~= text@);
    loop
        invariant_except_break
            output@ + vstd::std_specs::iter::IteratorSpec::remaining(&rest) == text@,
        ensures
            output@ == text@,
        decreases text@.len() - output@.len(),
    {
        match rest.next() {
            Some(c) => {
                output.push(c);
                assert(output@ + vstd::std_specs::iter::IteratorSpec::remaining(&rest) =~= text@);
            },
            None => {
                assert(output@ =~= text@);
                break;
            },
        }
    }
    output
}

/// Whether a character separates words: Unicode's white space.
pub open spec fn is_space(c: char) -> bool {
    let n = c as int;
    ||| 0x09 <= n <= 0x0d
    ||| n == 0x20
    ||| n == 0x85
    ||| n == 0xa0
    ||| n == 0x1680
    ||| 0x2000 <= n <= 0x200a
    ||| n == 0x2028
    ||| n == 0x2029
    ||| n == 0x202f
    ||| n == 0x205f
    ||| n == 0x3000
}

/// Whether a character separates words.
pub fn check_space(c: char) -> (r: bool)
    ensures
        r == is_space(c),
{
    let n: u32 = c as u32;
    (n >= 0x09 && n <= 0x0d) || n == 0x20 || n == 0x85 || n == 0xa0 || n == 0x1680 || (n >= 0x2000
        && n <= 0x200a) || n == 0x2028 || n == 0x2029 || n == 0x202f || n == 0x205f || n == 0x3000
}

/// Whether a character separates words where only ASCII white space does, or
/// where all of Unicode's does.
pub open spec fn separates(c: char, ascii: bool) -> bool {
    if ascii {
        c as int == 0x20 || c as int == 0x09 || c as int == 0x0a || c as int == 0x0c || c as int
            == 0x0d
    } else {
        is_space(c)
    }
}

/// Whether a character separates words.
fn check_separates(c: char, ascii: bool) -> (r: bool)
    ensures
        r == separates(c, ascii),
{
    let n: u32 = c as u32;
    if ascii {
        n == 0x20 || n == 0x09 || n == 0x0a || n == 0x0c || n == 0x0d
    } else {
        check_space(c)
    }
}

/// Where the first character at or behind `from` stands that is, or is not,
/// white space; `to` where there is none before it.
pub open spec fn next_space(text: Seq<char>, from: int, to: int, space: bool, ascii: bool) -> int
    decreases to - from,
{
    if from >= to || separates(text[from], ascii) == space {
        from
    } else {
        next_space(text, from + 1, to, space, ascii)
    }
}

/// The words of a text between two places, as pairs of places.
pub open spec fn word_places(text: Seq<char>, from: int, to: int, ascii: bool) -> Seq<(int, int)>
    decreases to - from,
{
    let start = next_space(text, from, to, false, ascii);
    let end = next_space(text, start, to, true, ascii);
    if from >= to || start >= to || end <= start || start < from || end > to {
        Seq::empty()
    } else {
        seq![(start, end)] + word_places(text, end, to, ascii)
    }
}

/// Where the search ends.
pub proof fn lemma_next_space(text: Seq<char>, from: int, to: int, space: bool, ascii: bool)
    requires
        from <= to,
    ensures
        from <= next_space(text, from, to, space, ascii) <= to,
        next_space(text, from, to, space, ascii) < to ==> separates(
            text[next_space(text, from, to, space, ascii)],
            ascii,
        ) == space,
    decreases to - from,
{
    if from < to && separates(text[from], ascii) != space {
        lemma_next_space(text, from + 1, to, space, ascii);
    }
}

/// Where the first character at or behind `from` stands that is, or is not,
/// white space.
pub fn find_space(text: &Vec<char>, from: usize, to: usize, space: bool, ascii: bool) -> (r: usize)
    requires
        from <= to <= text@.len(),
    ensures
        r == next_space(text@, from as int, to as int, space, ascii),
        from <= r <= to,
{
    let mut at: usize = from;
    while at < to && check_separates(text[at], ascii) != space
        invariant
            from <= at <= to <= text@.len(),
            next_space(text@, from as int, to as int, space, ascii) == next_space(
                text@,
                at as int,
                to as int,
                space,
                ascii,
            ),
        decreases to - at,
    {
        at = at + 1;
    }
    at
}

/// Places over mathematical integers.
pub open spec fn places(list: Seq<(usize, usize)>) -> Seq<(int, int)> {
    list.map_values(|place: (usize, usize)| (place.0 as int, place.1 as int))
}

/// The words of a text between two places.
pub fn find_words(text: &Vec<char>, from: usize, to: usize, ascii: bool) -> (r: Vec<(usize, usize)>)
    requires
        from <= to <= text@.len(),
    ensures
        places(r@) == word_places(text@, from as int, to as int, ascii),
        forall|i: int| 0 <= i < r@.len() ==> from <= (#[trigger] r@[i]).0 < r@[i].1 <= to,
{
    let mut words: Vec<(usize, usize)> = Vec::new();
    let mut at: usize = from;
    let ghost all = word_places(text@, from as int, to as int, ascii);
    assert(places(words@) + all =~= all);
    loop
        invariant_except_break
            from <= at <= to <= text@.len(),
            all == places(words@) + word_places(text@, at as int, to as int, ascii),
            forall|i: int| 0 <= i < words@.len() ==> from <= (#[trigger] words@[i]).0 < words@[i].1 <= to,
        ensures
            all == places(words@),
            forall|i: int| 0 <= i < words@.len() ==> from <= (#[trigger] words@[i]).0 < words@[i].1 <= to,
        decreases to - at,
    {
        let start: usize = find_space(text, at, to, false, ascii);
        if start >= to {
            assert(word_places(text@, at as int, to as int, ascii) =~= Seq::empty());
            assert(places(words@) =~= all);
            break;
        }
        let end: usize = find_space(text, start, to, true, ascii);
        proof {
            lemma_next_space(text@, at as int, to as int, false, ascii);
            lemma_next_space(text@, start as int, to as int, true, ascii);
            assert(end > start);
        }
        let ghost before = words@;
        words.push((start, end));
        proof {
            assert(places(words@) =~= places(before).push((start as int, end as int)));
            assert(places(words@) + word_places(text@, end as int, to as int, ascii) =~= places(before)
                + word_places(text@, at as int, to as int, ascii));
        }
        at = end;
    }
    words
}

/// Where a character first stands at or behind `from`; `to` where it does not
/// stand before it.
pub open spec fn next_char(text: Seq<char>, from: int, to: int, c: char) -> int
    decreases to - from,
{
    if from >= to || text[from] == c {
        from
    } else {
        next_char(text, from + 1, to, c)
    }
}

/// Where a character first stands at or behind `from`.
pub fn find_char(text: &Vec<char>, from: usize, to: usize, c: char) -> (r: usize)
    requires
        from <= to <= text@.len(),
    ensures
        r == next_char(text@, from as int, to as int, c),
        from <= r <= to,
{
    let mut at: usize = from;
    while at < to && text[at] != c
        invariant
            from <= at <= to <= text@.len(),
            next_char(text@, from as int, to as int, c) == next_char(
                text@,
                at as int,
                to as int,
                c,
            ),
        decreases to - at,
    {
        at = at + 1;
    }
    at
}

/// Where a text ends without the white space behind it.
pub open spec fn trimmed_end(text: Seq<char>, from: int, to: int) -> int
    decreases to - from,
{
    if from >= to || !is_space(text[to - 1]) {
        to
    } else {
        trimmed_end(text, from, to - 1)
    }
}

/// Where a text ends without the white space behind it.
pub fn trim_end_at(text: &Vec<char>, from: usize, to: usize) -> (r: usize)
    requires
        from <= to <= text@.len(),
    ensures
        r == trimmed_end(text@, from as int, to as int),
        from <= r <= to,
{
    let mut at: usize = to;
    while at > from && check_space(text[at - 1])
        invariant
            from <= at <= to <= text@.len(),
            trimmed_end(text@, from as int, to as int) == trimmed_end(
                text@,
                from as int,
                at as int,
            ),
        decreases at,
    {
        at = at - 1;
    }
    at
}

/// Whether a character is a decimal digit.
pub open spec fn is_digit(c: char) -> bool {
    48 <= c as int <= 57
}

/// The number that a run of decimal digits stands for.
pub open spec fn digits_value(digits: Seq<char>) -> int
    decreases digits.len(),
{
    if digits.len() == 0 {
        0
    } else {
        digits_value(digits.drop_last()) * 10 + (digits.last() as int - 48)
    }
}

/// The number that a text holds: decimal digits, a plus sign in front allowed,
/// at most `max`.
pub open spec fn parsed_number(text: Seq<char>, max: int) -> Option<int> {
    let digits = if text.len() > 0 && text[0] == '+' {
        text.skip(1)
    } else {
        text
    };
    digits_number(digits, max)
}

/// The number that a run of decimal digits stands for, at most `max`.
pub open spec fn digits_number(digits: Seq<char>, max: int) -> Option<int> {
    if digits.len() > 0 && (forall|i: int| 0 <= i < digits.len() ==> is_digit(#[trigger] digits[i]))
        && digits_value(digits) <= max {
        Some(digits_value(digits))
    } else {
        None
    }
}

/// More digits never make the number smaller.
proof fn lemma_more_digits(digits: Seq<char>, count: int)
    requires
        0 <= count <= digits.len(),
        forall|i: int| 0 <= i < digits.len() ==> is_digit(#[trigger] digits[i]),
    ensures
        0 <= digits_value(digits.take(count)) <= digits_value(digits),
    decreases digits.len() - count,
{
    let front = digits.take(count);
    assert forall|i: int| 0 <= i < front.len() implies is_digit(#[trigger] front[i]) by {
        assert(is_digit(digits[i]));
    }
    lemma_digits_are_natural(front);
    if count == digits.len() {
        assert(front =~= digits);
    } else {
        lemma_more_digits(digits, count + 1);
        assert(digits.take(count + 1).drop_last() =~= front);
        assert(digits.take(count + 1).last() == digits[count]);
        assert(is_digit(digits[count]));
    }
}

/// Digits stand for a natural number.
proof fn lemma_digits_are_natural(digits: Seq<char>)
    requires
        forall|i: int| 0 <= i < digits.len() ==> is_digit(#[trigger] digits[i]),
    ensures
        digits_value(digits) >= 0,
    decreases digits.len(),
{
    if digits.len() > 0 {
        let shorter = digits.drop_last();
        assert forall|i: int| 0 <= i < shorter.len() implies is_digit(#[trigger] shorter[i]) by {
            assert(is_digit(digits[i]));
        }
        lemma_digits_are_natural(shorter);
        assert(is_digit(digits[digits.len() - 1]));
    }
}

/// The number of a character.
fn code_point(c: char) -> (r: u32)
    ensures
        r == c as int,
{
    c as u32
}

/// The number that a stretch of text holds.
pub fn parse_number(text: &Vec<char>, from: usize, to: usize, max: u64) -> (r: Option<u64>)
    requires
        from <= to <= text@.len(),
    ensures
        r is Some == parsed_number(text@.subrange(from as int, to as int), max as int) is Some,
        r matches Some(value) ==> parsed_number(
            text@.subrange(from as int, to as int),
            max as int,
        ) == Some(value as int),
{
    let ghost whole = text@.subrange(from as int, to as int);
    let start: usize = if from < to && text[from] == '+' { from + 1 } else { from };
    let ghost digits = text@.subrange(start as int, to as int);
    proof {
        if start > from {
            assert(whole.skip(1) =~= digits);
            assert(whole[0] == '+');
        } else {
            assert(whole =~= digits);
            if whole.len() > 0 {
                assert(whole[0] == text@[from as int]);
            }
        }
    }
    if start >= to {
        return None;
    }
    let mut value: u64 = 0;
    let mut at: usize = start;
    assert(digits.take(0) =~= Seq::<char>::empty());
    while at < to
        invariant
            from <= start <= at <= to <= text@.len(),
            digits == text@.subrange(start as int, to as int),
            whole == text@.subrange(from as int, to as int),
            digits.len() > 0,
            parsed_number(whole, max as int) == digits_number(digits, max as int),
            value == digits_value(digits.take(at - start)),
            value <= max,
            forall|i: int| 0 <= i < at - start ==> is_digit(#[trigger] digits[i]),
        decreases to - at,
    {
        let c: char = text[at];
        let n: u32 = code_point(c);
        let ghost index = at - start;
        proof {
            assert(digits[index] == text@[at as int]);
            assert(digits.take(index + 1).drop_last() =~= digits.take(index));
            assert(digits.take(index + 1).last() == c);
            assert(digits_value(digits.take(index + 1)) == value * 10 + (c as int - 48));
        }
        if n < 48 || n > 57 {
            assert(!is_digit(digits[index]));
            return None;
        }
        let digit: u64 = (n - 48) as u64;
        if value > max / 10 || digit > max - value * 10 {
            proof {
                assert(digits_value(digits.take(index + 1)) > max);
                if forall|i: int| 0 <= i < digits.len() ==> is_digit(#[trigger] digits[i]) {
                    lemma_more_digits(digits, index + 1);
                }
            }
            return None;
        }
        value = value * 10 + digit;
        at = at + 1;
    }
    assert(digits.take(at - start) =~= digits);
    Some(value)
}

/// Trimming stays within the text.
pub proof fn lemma_trimmed_end_in_range(text: Seq<char>, from: int, to: int)
    requires
        from <= to,
    ensures
        from <= trimmed_end(text, from, to) <= to,
    decreases to - from,
{
    if from < to && is_space(text[to - 1]) {
        lemma_trimmed_end_in_range(text, from, to - 1);
    }
}

/// Trimming takes away white space, all of it and nothing else.
pub proof fn lemma_trimming_removes_white_space(text: Seq<char>, from: int, to: int)
    requires
        from <= to,
    ensures
        ({
            let end = trimmed_end(text, from, to);
            &&& from <= end <= to
            &&& end == from || !is_space(text[end - 1])
            &&& forall|i: int| end <= i < to ==> is_space(#[trigger] text[i])
        }),
    decreases to - from,
{
    if from < to && is_space(text[to - 1]) {
        lemma_trimming_removes_white_space(text, from, to - 1);
    }
}

/// Below the first hundred and twenty-eight characters white space is the tab,
/// the three line breaks, the carriage return and the space. The narrower
/// separator is the same without the vertical tab, and holds no other character.
pub proof fn lemma_plain_white_space(c: char)
    ensures
        (c as int) < 128 ==> (is_space(c) <==> 9 <= c as int <= 13 || c as int == 32),
        separates(c, true) <==> is_space(c) && (c as int) < 128 && c as int != 11,
        separates(c, false) <==> is_space(c),
{
}

/// The first place of a character: everything before it is another character.
pub proof fn lemma_next_char_is_the_first(text: Seq<char>, from: int, to: int, c: char)
    requires
        from <= to,
    ensures
        ({
            let at = next_char(text, from, to, c);
            &&& from <= at <= to
            &&& at == to || text[at] == c
            &&& forall|i: int| from <= i < at ==> #[trigger] text[i] != c
        }),
    decreases to - from,
{
    if from < to && text[from] != c {
        lemma_next_char_is_the_first(text, from + 1, to, c);
    }
}

/// The search for a separator, or for the end of a run of them, stops at the
/// first place that differs from what it skips.
pub proof fn lemma_next_space_is_the_first(
    text: Seq<char>,
    from: int,
    to: int,
    space: bool,
    ascii: bool,
)
    requires
        from <= to,
    ensures
        ({
            let at = next_space(text, from, to, space, ascii);
            &&& from <= at <= to
            &&& at == to || separates(text[at], ascii) == space
            &&& forall|i: int|
                from <= i < at ==> separates(#[trigger] text[i], ascii) == !space
        }),
    decreases to - from,
{
    if from < to && separates(text[from], ascii) != space {
        lemma_next_space_is_the_first(text, from + 1, to, space, ascii);
    }
}

/// A text of words: one separator-free run is one word, white space alone is
/// none, and what stands behind a word is cut in the same way.
pub proof fn lemma_words_are_the_runs(
    text: Seq<char>,
    from: int,
    start: int,
    end: int,
    to: int,
    ascii: bool,
)
    requires
        from <= start <= end <= to,
        forall|i: int| from <= i < start ==> separates(#[trigger] text[i], ascii),
        forall|i: int| start <= i < end ==> !separates(#[trigger] text[i], ascii),
        end == to || separates(text[end], ascii),
    ensures
        start < end ==> word_places(text, from, to, ascii) == seq![(start, end)] + word_places(
            text,
            end,
            to,
            ascii,
        ),
        start == end && end == to ==> word_places(text, from, to, ascii).len() == 0,
{
    lemma_next_space_is_the_first(text, from, to, false, ascii);
    let found = next_space(text, from, to, false, ascii);
    if start < end {
        assert(!separates(text[start], ascii));
        if found < start {
            assert(separates(text[found], ascii));
        }
        if found > start {
            assert(separates(text[start], ascii));
        }
        assert(found == start);
        lemma_next_space_is_the_first(text, start, to, true, ascii);
        let stop = next_space(text, start, to, true, ascii);
        if stop < end {
            assert(!separates(text[stop], ascii));
        }
        if stop > end {
            assert(!separates(text[end], ascii));
        }
        assert(stop == end);
    } else if end == to {
        if found < to {
            assert(separates(text[found], ascii));
        }
    }
}

/// A further digit makes a number ten times as large and adds the digit.
pub proof fn lemma_further_digit(digits: Seq<char>, digit: char, max: int)
    requires
        digits.len() > 0,
        digits[0] != '+',
    ensures
        ({
            let value = parsed_number(digits, max);
            let longer = parsed_number(digits.push(digit), max);
            &&& value matches Some(number) ==> longer == if 48 <= digit as int <= 57 && number * 10 + (
            digit as int - 48) <= max {
                Some(number * 10 + (digit as int - 48))
            } else {
                None
            }
        }),
{
    let longer = digits.push(digit);
    assert(longer[0] == digits[0]);
    assert(longer.drop_last() =~= digits);
    assert(longer.last() == digit);
    if parsed_number(digits, max) is Some {
        if 48 <= digit as int <= 57 {
            assert forall|i: int| 0 <= i < longer.len() implies is_digit(#[trigger] longer[i]) by {
                if i < digits.len() {
                    assert(longer[i] == digits[i]);
                    assert(is_digit(digits[i]));
                }
            }
        } else {
            assert(!is_digit(longer[digits.len() as int]));
        }
    }
}

/// One digit stands for its number, a leading plus sign changes nothing, and a
/// text without digits, or with another character in it, is no number.
pub proof fn lemma_plain_numbers(digits: Seq<char>, digit: char, max: int, at: int)
    requires
        max >= 9,
    ensures
        48 <= digit as int <= 57 ==> parsed_number(seq![digit], max) == Some(digit as int - 48),
        digits.len() > 0 && digits[0] != '+' ==> parsed_number(seq!['+'] + digits, max)
            == parsed_number(digits, max),
        digits.len() == 0 ==> parsed_number(digits, max) is None,
        1 <= at < digits.len() && !(48 <= digits[at] as int <= 57) ==> parsed_number(digits, max)
            is None,
{
    let one = seq![digit];
    assert(one.drop_last().len() == 0);
    reveal_with_fuel(digits_value, 2);
    if 48 <= digit as int <= 57 {
        assert(one[0] != '+');
        assert(forall|i: int| 0 <= i < one.len() ==> is_digit(#[trigger] one[i]));
        assert(digits_value(one) == digit as int - 48);
    }
    let signed = seq!['+'] + digits;
    assert(signed.skip(1) =~= digits);
    if 1 <= at < digits.len() && !(48 <= digits[at] as int <= 57) {
        assert(!is_digit(digits[at]));
        assert(!is_digit(digits.skip(1)[at - 1]));
    }
}

} // verus!
