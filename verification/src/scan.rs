//! Scanning of short texts: letter case, white space, words and small numbers.
use vstd::prelude::*;

use crate::text::{chars_of, decimal, digit_char, in_base};

verus! {

/// A letter of the basic alphabet in lower case; every other character as it is.
pub open spec fn lower(c: char) -> char {
    if 'A' <= c && c <= 'Z' {
        (c as u32 + 32) as char
    } else {
        c
    }
}

/// Whether two texts are the same up to the case of basic letters.
pub open spec fn same_ignoring_case(a: Seq<char>, b: Seq<char>) -> bool {
    a.len() == b.len() && forall|i: int|
        0 <= i < a.len() ==> lower(#[trigger] a[i]) == lower(b[i])
}

fn lower_of(c: char) -> (l: char)
    ensures
        l == lower(c),
{
    match c {
        'A' => 'a',
        'B' => 'b',
        'C' => 'c',
        'D' => 'd',
        'E' => 'e',
        'F' => 'f',
        'G' => 'g',
        'H' => 'h',
        'I' => 'i',
        'J' => 'j',
        'K' => 'k',
        'L' => 'l',
        'M' => 'm',
        'N' => 'n',
        'O' => 'o',
        'P' => 'p',
        'Q' => 'q',
        'R' => 'r',
        'S' => 's',
        'T' => 't',
        'U' => 'u',
        'V' => 'v',
        'W' => 'w',
        'X' => 'x',
        'Y' => 'y',
        'Z' => 'z',
        _ => c,
    }
}

/// Compares two texts up to the case of basic letters.
pub fn eq_ignore_ascii_case(a: &str, b: &str) -> (same: bool)
    ensures
        same <==> same_ignoring_case(a@, b@),
{
    let left = chars_of(a);
    let right = chars_of(b);
    if left.len() != right.len() {
        return false;
    }
    let mut i: usize = 0;
    while i < left.len()
        invariant
            i <= left@.len(),
            left@.len() == right@.len(),
            left@ == a@,
            right@ == b@,
            forall|k: int| 0 <= k < i ==> lower(#[trigger] a@[k]) == lower(b@[k]),
        decreases left.len() - i,
    {
        if lower_of(left[i]) != lower_of(right[i]) {
            assert(lower(a@[i as int]) != lower(b@[i as int]));
            return false;
        }
        i = i + 1;
    }
    true
}

/// Whether a character separates words: the characters with the Unicode property White_Space.
pub open spec fn is_white(c: char) -> bool {
    let n = c as u32;
    ||| 0x9 <= n <= 0xd
    ||| n == 0x20
    ||| n == 0x85
    ||| n == 0xa0
    ||| n == 0x1680
    ||| 0x2000 <= n <= 0x200a
    ||| n == 0x2028
    ||| n == 0x2029
    ||| n == 0x202f
    ||| n == 0x205f
    ||| n == 0x3000
}

fn white(c: char) -> (w: bool)
    ensures
        w == is_white(c),
{
    let n: u32 = c as u32;
    (0x9 <= n && n <= 0xd) || n == 0x20 || n == 0x85 || n == 0xa0 || n == 0x1680 || (0x2000 <= n
        && n <= 0x200a) || n == 0x2028 || n == 0x2029 || n == 0x202f || n == 0x205f || n == 0x3000
}

/// Where a character first stands in a text; its length where it does not.
pub open spec fn first_position(s: Seq<char>, c: char) -> nat
    decreases s.len(),
{
    if s.len() == 0 || s[0] == c {
        0
    } else {
        1 + first_position(s.skip(1), c)
    }
}

/// What is left of a text without leading white space.
pub open spec fn without_leading_white(s: Seq<char>) -> Seq<char>
    decreases s.len(),
{
    if s.len() > 0 && is_white(s[0]) {
        without_leading_white(s.skip(1))
    } else {
        s
    }
}

/// The characters before the first white space.
pub open spec fn leading_word(s: Seq<char>) -> Seq<char>
    decreases s.len(),
{
    if s.len() == 0 || is_white(s[0]) {
        Seq::empty()
    } else {
        seq![s[0]] + leading_word(s.skip(1))
    }
}

/// The first word of a text; empty where there is none.
pub open spec fn first_word(s: Seq<char>) -> Seq<char> {
    leading_word(without_leading_white(s))
}

/// Whether a character is a decimal digit.
pub open spec fn is_digit(c: char) -> bool {
    '0' <= c && c <= '9'
}

/// The value of a run of decimal digits.
pub open spec fn decimal_value(digits: Seq<char>) -> nat
    decreases digits.len(),
{
    if digits.len() == 0 {
        0
    } else {
        decimal_value(digits.drop_last()) * 10 + (digits.last() as u32 - '0' as u32) as nat
    }
}

/// Whether a text is a run of decimal digits, with at least one.
pub open spec fn all_digits(s: Seq<char>) -> bool {
    s.len() > 0 && forall|i: int| 0 <= i < s.len() ==> is_digit(#[trigger] s[i])
}

/// What is left of a word without a plus sign at its front.
pub open spec fn without_plus(word: Seq<char>) -> Seq<char> {
    if word.len() > 0 && word[0] == '+' {
        word.skip(1)
    } else {
        word
    }
}

/// A run of digits read as a number below 256.
pub open spec fn small_value(digits: Seq<char>) -> Option<u8> {
    if all_digits(digits) && decimal_value(digits) <= 255 {
        Some(decimal_value(digits) as u8)
    } else {
        None
    }
}

/// A word read as a number below 256: decimal digits with at most one plus sign before them.
pub open spec fn small_number(word: Seq<char>) -> Option<u8> {
    small_value(without_plus(word))
}

/// Finds where a character first stands from a position on.
pub fn position_of(chars: &[char], c: char) -> (position: usize)
    ensures
        position == first_position(chars@, c),
        position <= chars@.len(),
        position < chars@.len() ==> chars@[position as int] == c,
        forall|k: int| 0 <= k < position ==> chars@[k] != c,
{
    let mut i: usize = 0;
    proof {
        assert(chars@.skip(0) == chars@);
    }
    while i < chars.len() && chars[i] != c
        invariant
            i <= chars@.len(),
            first_position(chars@, c) == i + first_position(chars@.skip(i as int), c),
            forall|k: int| 0 <= k < i ==> chars@[k] != c,
        decreases chars.len() - i,
    {
        proof {
            assert(chars@.skip(i as int).skip(1) == chars@.skip(i + 1));
        }
        i = i + 1;
    }
    i
}

/// The first word of the part of a text that begins at a position.
pub fn word_from(chars: &[char], start: usize) -> (word: Vec<char>)
    requires
        start <= chars@.len(),
    ensures
        word@ == first_word(chars@.skip(start as int)),
{
    let mut i: usize = start;
    while i < chars.len() && white(chars[i])
        invariant
            start <= i <= chars@.len(),
            without_leading_white(chars@.skip(start as int)) == without_leading_white(
                chars@.skip(i as int),
            ),
        decreases chars.len() - i,
    {
        proof {
            assert(chars@.skip(i as int).skip(1) == chars@.skip(i + 1));
        }
        i = i + 1;
    }
    let mut word: Vec<char> = Vec::new();
    let ghost rest = chars@.skip(i as int);
    proof {
        assert(without_leading_white(rest) == rest);
        assert(word@ + leading_word(rest) == leading_word(rest));
    }
    while i < chars.len() && !white(chars[i])
        invariant
            i <= chars@.len(),
            word@ + leading_word(chars@.skip(i as int)) == leading_word(rest),
        decreases chars.len() - i,
    {
        proof {
            assert(chars@.skip(i as int).skip(1) == chars@.skip(i + 1));
            assert(word@ + (seq![chars@[i as int]] + leading_word(chars@.skip(i + 1)))
                == word@.push(chars@[i as int]) + leading_word(chars@.skip(i + 1)));
        }
        word.push(chars[i]);
        i = i + 1;
    }
    proof {
        assert(word@ + Seq::<char>::empty() == word@);
    }
    word
}

fn digit_value(c: char) -> (value: Option<u8>)
    ensures
        value is Some <==> is_digit(c),
        value is Some ==> value->0 == c as u32 - '0' as u32,
        value is Some ==> value->0 <= 9,
{
    if '0' <= c && c <= '9' {
        Some((c as u32 - '0' as u32) as u8)
    } else {
        None
    }
}

proof fn lemma_decimal_value_grows(digits: Seq<char>, n: int)
    requires
        0 <= n <= digits.len(),
        forall|i: int| 0 <= i < digits.len() ==> is_digit(#[trigger] digits[i]),
    ensures
        decimal_value(digits.take(n)) <= decimal_value(digits),
    decreases digits.len() - n,
{
    if n == digits.len() {
        assert(digits.take(n) == digits);
    } else {
        lemma_decimal_value_grows(digits, n + 1);
        assert(digits.take(n + 1).drop_last() == digits.take(n));
        assert(is_digit(digits[n]));
    }
}

/// Reads a word as a number below 256.
pub fn parse_small_number(word: &[char]) -> (number: Option<u8>)
    ensures
        number == small_number(word@),
{
    let start: usize = if word.len() > 0 && word[0] == '+' {
        1
    } else {
        0
    };
    let ghost digits = word@.skip(start as int);
    proof {
        assert(word@.skip(0) == word@);
        assert(digits == without_plus(word@));
    }
    if start == word.len() {
        return None;
    }
    let mut value: u16 = 0;
    let mut i: usize = start;
    while i < word.len()
        invariant
            start <= i <= word@.len(),
            digits == word@.skip(start as int),
            digits.len() > 0,
            small_number(word@) == small_value(digits),
            forall|k: int| 0 <= k < i - start ==> is_digit(#[trigger] digits[k]),
            value == decimal_value(digits.take(i - start)),
            value <= 255,
        decreases word.len() - i,
    {
        proof {
            assert(digits.take(i - start + 1).drop_last() == digits.take(i - start));
            assert(digits.take(i - start + 1).last() == word@[i as int]);
            assert(digits[i - start] == word@[i as int]);
        }
        match digit_value(word[i]) {
            Some(digit) => {
                value = value * 10 + digit as u16;
                if value > 255 {
                    proof {
                        if all_digits(digits) {
                            lemma_decimal_value_grows(digits, i - start + 1);
                        }
                    }
                    return None;
                }
            },
            None => {
                return None;
            },
        }
        i = i + 1;
    }
    proof {
        assert(digits.take(i - start) == digits);
    }
    Some(value as u8)
}

/// Whether a text holds another at the given place.
pub open spec fn holds_at(text: Seq<char>, part: Seq<char>, i: int) -> bool {
    0 <= i && i + part.len() <= text.len() && text.subrange(i, i + part.len()) == part
}

/// Whether a text holds another somewhere.
pub open spec fn holds_text(text: Seq<char>, part: Seq<char>) -> bool {
    exists|i: int| holds_at(text, part, i)
}

/// Whether a text holds another somewhere.
pub fn contains_text(text: &str, part: &str) -> (contains: bool)
    ensures
        contains == holds_text(text@, part@),
{
    let all = chars_of(text);
    let wanted = chars_of(part);
    if wanted.len() > all.len() {
        assert forall|i: int| !holds_at(text@, part@, i) by {}
        return false;
    }
    let total: usize = all.len();
    let last: usize = total - wanted.len();
    let mut i: usize = 0;
    loop
        invariant
            all@ == text@,
            wanted@ == part@,
            total == all@.len(),
            wanted@.len() <= all@.len(),
            last == all@.len() - wanted@.len(),
            i <= last,
            forall|k: int| 0 <= k < i ==> !holds_at(text@, part@, k),
        decreases last - i,
    {
        let mut j: usize = 0;
        while j < wanted.len() && all[i + j] == wanted[j]
            invariant
                i <= last,
                total == all@.len(),
                last == all@.len() - wanted@.len(),
                wanted@.len() <= all@.len(),
                j <= wanted@.len(),
                forall|k: int| 0 <= k < j ==> all@[i + k] == #[trigger] wanted@[k],
            decreases wanted.len() - j,
        {
            j = j + 1;
        }
        if j == wanted.len() {
            proof {
                assert(text@.subrange(i as int, i + part@.len()) =~= part@);
                assert(holds_at(text@, part@, i as int));
            }
            return true;
        }
        proof {
            if holds_at(text@, part@, i as int) {
                assert(text@.subrange(i as int, i + part@.len())[j as int] == all@[i + j]);
            }
        }
        if i == last {
            assert forall|k: int| !holds_at(text@, part@, k) by {}
            return false;
        }
        i = i + 1;
    }
}

/// Whether two characters are the same basic letter in different cases.
pub open spec fn other_case(a: char, b: char) -> bool {
    ||| 65 <= a as u32 <= 90 && b as u32 == a as u32 + 32
    ||| 65 <= b as u32 <= 90 && a as u32 == b as u32 + 32
}

/// Texts compare as the same exactly where they are equally long and differ at no place in more
/// than the case of a basic letter.
pub proof fn law_only_the_case_of_letters_is_ignored(a: &str, b: &str, same: bool)
    requires
        call_ensures(eq_ignore_ascii_case, (a, b), same),
    ensures
        same <==> a@.len() == b@.len() && forall|i: int|
            0 <= i < a@.len() ==> #[trigger] a@[i] == b@[i] || other_case(a@[i], b@[i]),
        same_ignoring_case(a@, b@) <==> a@.len() == b@.len() && forall|i: int|
            0 <= i < a@.len() ==> #[trigger] a@[i] == b@[i] || other_case(a@[i], b@[i]),
{
    if a@.len() == b@.len() {
        assert forall|i: int| 0 <= i < a@.len() implies (lower(#[trigger] a@[i]) == lower(b@[i]))
            == (a@[i] == b@[i] || other_case(a@[i], b@[i])) by {}
    }
}

/// A text holds another exactly where it is the other with something before and behind it.
pub proof fn law_a_text_holds_its_parts(
    text: &str,
    part: &str,
    contains: bool,
    before: Seq<char>,
    behind: Seq<char>,
)
    requires
        call_ensures(contains_text, (text, part), contains),
    ensures
        text@ == before + part@ + behind ==> contains,
        contains ==> exists|a: Seq<char>, b: Seq<char>| text@ == #[trigger] (a + part@ + b),
{
    if text@ == before + part@ + behind {
        assert(text@.subrange(before.len() as int, (before.len() + part@.len()) as int) =~= part@);
        assert(holds_at(text@, part@, before.len() as int));
    }
    if contains {
        let i = choose|i: int| holds_at(text@, part@, i);
        let a = text@.take(i);
        let b = text@.skip(i + part@.len());
        assert(text@ =~= a + part@ + b);
    }
}

/// Blanks, tabs and line ends separate words; letters, digits and signs do not.
pub proof fn law_words_end_at_blanks(c: char)
    ensures
        c == ' ' || c == '\t' || c == '\n' || c == '\r' ==> is_white(c),
        33 <= c as u32 <= 126 ==> !is_white(c),
{
}

/// The first word of a text is what stands up to the first white space, white space at the front
/// aside.
pub proof fn law_first_word(front: Seq<char>, word: Seq<char>, rest: Seq<char>)
    requires
        forall|i: int| 0 <= i < front.len() ==> is_white(#[trigger] front[i]),
        forall|i: int| 0 <= i < word.len() ==> !is_white(#[trigger] word[i]),
        word.len() > 0,
        rest.len() == 0 || is_white(rest[0]),
    ensures
        first_word(front + word + rest) == word,
    decreases front.len(), word.len(),
{
    let all = front + word + rest;
    if front.len() > 0 {
        let shorter = front.skip(1);
        assert(is_white(front[0]));
        assert(all[0] == front[0]);
        assert forall|i: int| 0 <= i < shorter.len() implies is_white(#[trigger] shorter[i]) by {
            assert(shorter[i] == front[i + 1]);
        }
        law_first_word(shorter, word, rest);
        assert(all.skip(1) =~= shorter + word + rest);
    } else {
        assert(all =~= word + rest);
        assert(all[0] == word[0] && !is_white(word[0]));
        assert(without_leading_white(all) == all);
        lemma_leading_word(word, rest);
    }
}

proof fn lemma_leading_word(word: Seq<char>, rest: Seq<char>)
    requires
        forall|i: int| 0 <= i < word.len() ==> !is_white(#[trigger] word[i]),
        rest.len() == 0 || is_white(rest[0]),
    ensures
        leading_word(word + rest) == word,
    decreases word.len(),
{
    let all = word + rest;
    if word.len() > 0 {
        let shorter = word.skip(1);
        assert(!is_white(word[0]) && all[0] == word[0]);
        assert forall|i: int| 0 <= i < shorter.len() implies !is_white(#[trigger] shorter[i]) by {
            assert(shorter[i] == word[i + 1]);
        }
        lemma_leading_word(shorter, rest);
        assert(all.skip(1) =~= shorter + rest);
        assert(seq![word[0]] + shorter =~= word);
    } else {
        assert(all =~= rest);
        assert(leading_word(all) =~= word);
    }
}

pub(crate) proof fn lemma_decimal_is_read(n: nat)
    ensures
        decimal(n).len() > 0,
        forall|i: int| 0 <= i < decimal(n).len() ==> is_digit(#[trigger] decimal(n)[i]),
        decimal_value(decimal(n)) == n,
    decreases n,
{
    reveal_with_fuel(in_base, 2);
    if n < 10 {
        let text = decimal(n);
        assert(text =~= seq![digit_char(n)]);
        assert(text.drop_last() =~= Seq::<char>::empty());
        assert(decimal_value(text.drop_last()) == 0);
    } else {
        let head = decimal(n / 10);
        let text = decimal(n);
        lemma_decimal_is_read(n / 10);
        assert(text == head.push(digit_char(n % 10)));
        assert(text.drop_last() =~= head);
        assert(is_digit(digit_char(n % 10)));
        assert forall|i: int| 0 <= i < text.len() implies is_digit(#[trigger] text[i]) by {
            if i < head.len() {
                assert(text[i] == head[i]);
            }
        }
    }
}

/// A number that is written out is read back where it is below 256, with or without a plus sign,
/// and is no small number otherwise.
pub proof fn law_small_numbers_are_read_back(n: nat)
    ensures
        n <= 255 ==> small_number(decimal(n)) == Some(n as u8),
        n <= 255 ==> small_number(seq!['+'] + decimal(n)) == Some(n as u8),
        n > 255 ==> small_number(decimal(n)) is None,
{
    lemma_decimal_is_read(n);
    let text = decimal(n);
    assert(is_digit(text[0]));
    assert(without_plus(text) == text);
    let signed = seq!['+'] + text;
    assert(signed[0] == '+');
    assert(signed.skip(1) =~= text);
}

/// Zeros at the front change nothing, and what holds anything but digits behind one plus sign is
/// no number.
pub proof fn law_only_digits_make_a_number(word: Seq<char>, i: int)
    ensures
        all_digits(word) ==> small_number(seq!['0'] + word) == small_number(word),
        word.len() == 0 ==> small_number(word) is None && small_number(seq!['+']) is None,
        0 <= i < word.len() && !('0' <= word[i] <= '9') && (i > 0 || word[0] != '+')
            ==> small_number(word) is None,
{
    if all_digits(word) {
        let longer = seq!['0'] + word;
        assert(is_digit(word[0]));
        assert(longer[0] == '0');
        assert forall|k: int| 0 <= k < longer.len() implies is_digit(#[trigger] longer[k]) by {
            if k > 0 {
                assert(longer[k] == word[k - 1]);
            }
        }
        lemma_leading_zero(word);
    }
    if word.len() == 0 {
        assert(seq!['+'].skip(1) =~= Seq::<char>::empty());
    }
    if 0 <= i < word.len() && !('0' <= word[i] <= '9') && (i > 0 || word[0] != '+') {
        let digits = without_plus(word);
        if word[0] == '+' {
            assert(digits[i - 1] == word[i]);
        } else {
            assert(digits[i] == word[i]);
        }
    }
}

proof fn lemma_leading_zero(digits: Seq<char>)
    ensures
        decimal_value(seq!['0'] + digits) == decimal_value(digits),
    decreases digits.len(),
{
    let longer = seq!['0'] + digits;
    if digits.len() > 0 {
        lemma_leading_zero(digits.drop_last());
        assert(longer.drop_last() =~= seq!['0'] + digits.drop_last());
    } else {
        assert(longer.drop_last() =~= Seq::<char>::empty());
        assert(decimal_value(longer.drop_last()) == 0);
    }
}

/// White space is what Unicode says it is.
pub proof fn law_white_space_is_that_of_unicode(c: char)
    ensures
        is_white(c) <==> c == '\t' || c == '\n' || c == '\u{b}' || c == '\u{c}' || c == '\r' || c
            == ' ' || c == '\u{85}' || c == '\u{a0}' || c == '\u{1680}' || ('\u{2000}' <= c && c
            <= '\u{200a}') || c == '\u{2028}' || c == '\u{2029}' || c == '\u{202f}' || c
            == '\u{205f}' || c == '\u{3000}',
{
}

/// A word is read as the number that it writes out, where that is below 256, and as none where it
/// is not or where anything but digits stands in it.
pub proof fn law_words_are_read_as_numbers(word: &[char], number: Option<u8>, n: nat, i: int)
    requires
        call_ensures(parse_small_number, (word,), number),
    ensures
        word@ == decimal(n) && n <= 255 ==> number == Some(n as u8),
        word@ == seq!['+'] + decimal(n) && n <= 255 ==> number == Some(n as u8),
        word@ == decimal(n) && n > 255 ==> number is None,
        word@.len() == 0 ==> number is None,
        0 <= i < word@.len() && !('0' <= word@[i] <= '9') && (i > 0 || word@[0] != '+')
            ==> number is None,
{
    law_small_numbers_are_read_back(n);
    law_only_digits_make_a_number(word@, i);
}

/// The first word from a place on is what stands there up to white space, white space in front
/// aside.
pub proof fn law_the_first_word_from_a_place(
    chars: &[char],
    start: usize,
    word: Vec<char>,
    front: Seq<char>,
    wanted: Seq<char>,
    rest: Seq<char>,
)
    requires
        start <= chars@.len(),
        call_ensures(word_from, (chars, start), word),
        chars@.skip(start as int) == front + wanted + rest,
        forall|i: int| 0 <= i < front.len() ==> is_white(#[trigger] front[i]),
        forall|i: int| 0 <= i < wanted.len() ==> !is_white(#[trigger] wanted[i]),
        wanted.len() > 0,
        rest.len() == 0 || is_white(rest[0]),
    ensures
        word@ == wanted,
{
    law_first_word(front, wanted, rest);
}

} // verus!
