//! Small text algorithms over characters, each stated against a mathematical description.
use vstd::prelude::*;

verus! {

/// `String::push`: the character is appended at the end.
pub assume_specification[ String::push ](s: &mut String, c: char)
    ensures
        final(s)@ == old(s)@.push(c),
;

/// The characters of a string, in order.
pub fn chars_of(s: &str) -> (chars: Vec<char>)
    ensures
        chars@ == s@,
{
    let mut chars: Vec<char> = Vec::new();
    for c in it: s.chars()
        invariant
            chars@ == it.seq().take(it.index() as int),
            it.seq() == s@,
    {
        chars.push(c);
        proof {
            assert(it.seq().take(it.index() + 1) == it.seq().take(it.index() as int).push(c));
        }
    }
    chars
}

/// Appends a slice of characters to a string.
pub fn push_chars(out: &mut String, chars: &[char])
    ensures
        final(out)@ == old(out)@ + chars@,
{
    let mut i: usize = 0;
    while i < chars.len()
        invariant
            i <= chars.len(),
            out@ == old(out)@ + chars@.take(i as int),
        decreases chars.len() - i,
    {
        out.push(chars[i]);
        i = i + 1;
        proof {
            assert(chars@.take(i as int) == chars@.take(i - 1).push(chars@[i - 1]));
        }
    }
    proof {
        assert(chars@.take(i as int) == chars@);
    }
}

/// A string made of the given characters.
pub fn text_of(chars: &[char]) -> (s: String)
    ensures
        s@ == chars@,
{
    let mut s = String::new();
    push_chars(&mut s, chars);
    s
}

/// The character of a digit in a base of at most sixteen, lower case.
pub open spec fn digit_char(d: nat) -> char {
    if d < 10 {
        (48 + d) as char
    } else {
        (87 + d) as char
    }
}

/// `n` written in `base`, without leading zeros.
pub open spec fn in_base(n: nat, base: nat) -> Seq<char>
    decreases n,
{
    if n < base || base < 2 {
        seq![digit_char(n)]
    } else {
        proof {
            assert(n / base < n) by (nonlinear_arith)
                requires
                    n >= base,
                    base >= 2,
            ;
        }
        in_base(n / base, base).push(digit_char(n % base))
    }
}

/// `n` written in decimal.
pub open spec fn decimal(n: nat) -> Seq<char> {
    in_base(n, 10)
}

/// `n` written in lower-case hexadecimal.
pub open spec fn hexadecimal(n: nat) -> Seq<char> {
    in_base(n, 16)
}

fn digit(d: u8) -> (c: char)
    requires
        d < 16,
    ensures
        c == digit_char(d as nat),
{
    if d < 10 {
        (48u8 + d) as char
    } else {
        (87u8 + d) as char
    }
}

/// Appends `n` written in `base`.
pub fn push_in_base(out: &mut String, n: u64, base: u64)
    requires
        2 <= base <= 16,
    ensures
        final(out)@ == old(out)@ + in_base(n as nat, base as nat),
    decreases n,
{
    if n < base {
        out.push(digit(n as u8));
        proof {
            assert(old(out)@.push(digit_char(n as nat)) == old(out)@ + in_base(
                n as nat,
                base as nat,
            ));
        }
    } else {
        proof {
            assert(n / base < n) by (nonlinear_arith)
                requires
                    n >= base,
                    base >= 2,
            ;
            assert(n % base < base) by (nonlinear_arith)
                requires
                    base >= 2,
            ;
        }
        push_in_base(out, n / base, base);
        out.push(digit((n % base) as u8));
        proof {
            assert((old(out)@ + in_base((n / base) as nat, base as nat)).push(
                digit_char((n % base) as nat),
            ) == old(out)@ + in_base(n as nat, base as nat));
        }
    }
}

/// Appends `n` in decimal.
pub fn push_decimal(out: &mut String, n: u64)
    ensures
        final(out)@ == old(out)@ + decimal(n as nat),
{
    push_in_base(out, n, 10)
}

/// Appends `n` in lower-case hexadecimal.
pub fn push_hexadecimal(out: &mut String, n: u64)
    ensures
        final(out)@ == old(out)@ + hexadecimal(n as nat),
{
    push_in_base(out, n, 16)
}

/// Whether `a` comes before `b` in lexicographic order of characters.
pub open spec fn precedes(a: Seq<char>, b: Seq<char>) -> bool
    decreases b.len(),
{
    if b.len() == 0 {
        false
    } else if a.len() == 0 {
        true
    } else if a[0] == b[0] {
        precedes(a.skip(1), b.skip(1))
    } else {
        a[0] < b[0]
    }
}

/// No text comes before itself.
pub proof fn lemma_precedes_irreflexive(a: Seq<char>)
    ensures
        !precedes(a, a),
    decreases a.len(),
{
    if a.len() > 0 {
        lemma_precedes_irreflexive(a.skip(1));
    }
}

/// What comes before something that comes before a third comes before the third.
pub proof fn lemma_precedes_transitive(a: Seq<char>, b: Seq<char>, c: Seq<char>)
    requires
        precedes(a, b),
        precedes(b, c),
    ensures
        precedes(a, c),
    decreases b.len(),
{
    if a.len() > 0 && a[0] == b[0] && b[0] == c[0] {
        lemma_precedes_transitive(a.skip(1), b.skip(1), c.skip(1));
    }
}

/// Of two different texts one comes before the other.
pub proof fn lemma_precedes_total(a: Seq<char>, b: Seq<char>)
    ensures
        precedes(a, b) || precedes(b, a) || a == b,
    decreases a.len(),
{
    if a.len() == 0 || b.len() == 0 {
        if a.len() == 0 && b.len() == 0 {
            assert(a == b);
        }
    } else if a[0] == b[0] {
        lemma_precedes_total(a.skip(1), b.skip(1));
        if a.skip(1) == b.skip(1) {
            assert(a == seq![a[0]] + a.skip(1));
            assert(b == seq![b[0]] + b.skip(1));
        }
    }
}

/// How one text stands to another in lexicographic order.
#[derive(Clone, Copy, Debug, PartialEq, Eq, Structural)]
pub enum TextOrder {
    Before,
    Same,
    After,
}

/// Compares two texts.
pub fn compare_text(a: &[char], b: &[char]) -> (order: TextOrder)
    ensures
        order is Before <==> precedes(a@, b@),
        order is Same <==> a@ == b@,
        order is After <==> precedes(b@, a@),
{
    let mut i: usize = 0;
    proof {
        assert(a@.skip(0) == a@);
        assert(b@.skip(0) == b@);
    }
    while i < a.len() && i < b.len() && a[i] == b[i]
        invariant
            i <= a@.len(),
            i <= b@.len(),
            a@.take(i as int) == b@.take(i as int),
            precedes(a@, b@) == precedes(a@.skip(i as int), b@.skip(i as int)),
            precedes(b@, a@) == precedes(b@.skip(i as int), a@.skip(i as int)),
        decreases a.len() - i,
    {
        proof {
            assert(a@.skip(i as int).skip(1) == a@.skip(i + 1));
            assert(b@.skip(i as int).skip(1) == b@.skip(i + 1));
            assert(a@.take(i + 1) == a@.take(i as int).push(a@[i as int]));
            assert(b@.take(i + 1) == b@.take(i as int).push(b@[i as int]));
        }
        i = i + 1;
    }
    proof {
        lemma_precedes_irreflexive(a@);
        assert(a@.len() == i && b@.len() == i ==> a@ == a@.take(i as int) && b@ == b@.take(
            i as int,
        ));
        assert(a@.len() > i ==> a@.skip(i as int)[0] == a@[i as int]);
        assert(b@.len() > i ==> b@.skip(i as int)[0] == b@[i as int]);
    }
    if i < a.len() {
        if i < b.len() {
            if a[i] < b[i] {
                TextOrder::Before
            } else {
                TextOrder::After
            }
        } else {
            TextOrder::After
        }
    } else if i < b.len() {
        TextOrder::Before
    } else {
        TextOrder::Same
    }
}

/// What a list of strings says.
pub open spec fn texts(strings: Seq<String>) -> Seq<Seq<char>> {
    strings.map_values(|s: String| s@)
}

/// A copy of a list of strings.
pub fn copy_texts(strings: &Vec<String>) -> (copy: Vec<String>)
    ensures
        texts(copy@) == texts(strings@),
{
    let mut copy: Vec<String> = Vec::new();
    let mut i: usize = 0;
    while i < strings.len()
        invariant
            i <= strings@.len(),
            texts(copy@) == texts(strings@).take(i as int),
        decreases strings.len() - i,
    {
        let ghost done = copy@;
        copy.push(strings[i].clone());
        i = i + 1;
        proof {
            assert(texts(copy@) == texts(done).push(strings@[i - 1]@));
            assert(texts(strings@).take(i as int) == texts(strings@).take(i - 1).push(
                strings@[i - 1]@,
            ));
        }
    }
    proof {
        assert(texts(strings@).take(i as int) == texts(strings@));
    }
    copy
}

/// Whether two texts are the same.
pub fn same_text(a: &str, b: &str) -> (same: bool)
    ensures
        same <==> a@ == b@,
{
    let left = chars_of(a);
    let right = chars_of(b);
    matches!(compare_text(&left, &right), TextOrder::Same)
}

/// Some texts one after the other, with a separator between them.
pub open spec fn joined(parts: Seq<Seq<char>>, separator: Seq<char>) -> Seq<char>
    decreases parts.len(),
{
    if parts.len() == 0 {
        Seq::empty()
    } else if parts.len() == 1 {
        parts[0]
    } else {
        joined(parts.drop_last(), separator) + separator + parts.last()
    }
}

/// Joins some texts with a separator between them.
pub fn join(parts: &Vec<String>, separator: &str) -> (text: String)
    ensures
        text@ == joined(texts(parts@), separator@),
{
    let mut text = String::new();
    let mut i: usize = 0;
    while i < parts.len()
        invariant
            i <= parts@.len(),
            text@ == joined(texts(parts@).take(i as int), separator@),
        decreases parts.len() - i,
    {
        proof {
            let all = texts(parts@);
            assert(all.take(i + 1).drop_last() == all.take(i as int));
            if i == 0 {
                assert(text@ == Seq::<char>::empty());
                assert(text@ + all[0] == all[0]);
            }
        }
        if i > 0 {
            text.append(separator);
        }
        text.append(parts[i].as_str());
        i = i + 1;
    }
    proof {
        assert(texts(parts@).take(i as int) == texts(parts@));
    }
    text
}

/// The value of a digit.
pub open spec fn value_of_digit(c: char) -> nat {
    if 48 <= c as u32 <= 57 {
        (c as u32 - 48) as nat
    } else {
        (c as u32 - 87) as nat
    }
}

/// The number that a run of digits stands for.
pub open spec fn value_in_base(digits: Seq<char>, base: nat) -> nat
    decreases digits.len(),
{
    if digits.len() == 0 {
        0
    } else {
        value_in_base(digits.drop_last(), base) * base + value_of_digit(digits.last())
    }
}

/// A number that is written out stands for itself, in digits of the base, without a zero at the
/// front unless it is all there is.
pub proof fn law_numbers_are_written_out(n: nat, base: nat)
    requires
        2 <= base <= 16,
    ensures
        value_in_base(in_base(n, base), base) == n,
        in_base(n, base).len() > 0,
        forall|i: int|
            0 <= i < in_base(n, base).len() ==> value_of_digit(#[trigger] in_base(n, base)[i])
                < base && (48 <= in_base(n, base)[i] as u32 <= 57 || 97 <= in_base(
                n,
                base,
            )[i] as u32 <= 102),
        in_base(n, base)[0] == '0' ==> n == 0,
        decimal(n) == in_base(n, 10),
        hexadecimal(n) == in_base(n, 16),
    decreases n,
{
    reveal_with_fuel(in_base, 2);
    let text = in_base(n, base);
    if n < base {
        assert(text =~= seq![digit_char(n)]);
        assert(text.drop_last() =~= Seq::<char>::empty());
        assert(value_in_base(text.drop_last(), base) == 0);
    } else {
        assert(n / base < n && n / base >= 1 && n % base < base && (n / base) * base + n % base
            == n) by (nonlinear_arith)
            requires
                n >= base,
                base >= 2,
        ;
        let head = in_base(n / base, base);
        law_numbers_are_written_out(n / base, base);
        assert(text == head.push(digit_char(n % base)));
        assert(text.drop_last() =~= head);
        assert(text[0] == head[0]);
        assert forall|i: int| 0 <= i < text.len() implies value_of_digit(#[trigger] text[i]) < base
            && (48 <= text[i] as u32 <= 57 || 97 <= text[i] as u32 <= 102) by {
            if i < head.len() {
                assert(text[i] == head[i]);
            }
        }
    }
}

/// One text comes before another exactly where it is a part of its front, or has the smaller
/// character at the first place where they differ.
pub proof fn law_texts_are_ordered_by_the_first_difference(a: Seq<char>, b: Seq<char>)
    ensures
        precedes(a, b) <==> exists|k: int|
            {
                &&& 0 <= k <= a.len() && k < b.len()
                &&& #[trigger] a.take(k) == b.take(k)
                &&& k == a.len() || a[k] < b[k]
            },
    decreases b.len(),
{
    if b.len() > 0 {
        if a.len() == 0 {
            assert(a.take(0) =~= b.take(0));
        } else if a[0] == b[0] {
            let (x, y) = (a.skip(1), b.skip(1));
            law_texts_are_ordered_by_the_first_difference(x, y);
            if precedes(x, y) {
                let k = choose|k: int|
                    {
                        &&& 0 <= k <= x.len() && k < y.len()
                        &&& #[trigger] x.take(k) == y.take(k)
                        &&& k == x.len() || x[k] < y[k]
                    };
                assert(a.take(k + 1) =~= seq![a[0]] + x.take(k));
                assert(b.take(k + 1) =~= seq![b[0]] + y.take(k));
            }
            assert forall|k: int|
                0 <= k <= a.len() && k < b.len() && #[trigger] a.take(k) == b.take(k) && (k
                    == a.len() || a[k] < b[k]) implies precedes(x, y) by {
                assert(k > 0);
                assert(x.take(k - 1) =~= a.take(k).skip(1));
                assert(y.take(k - 1) =~= b.take(k).skip(1));
                assert(x.take(k - 1) == y.take(k - 1));
            }
        } else {
            assert(a.take(0) =~= b.take(0));
            assert forall|k: int|
                0 <= k <= a.len() && k < b.len() && #[trigger] a.take(k) == b.take(k) && (k
                    == a.len() || a[k] < b[k]) implies a[0] < b[0] by {
                if k > 0 {
                    assert(a.take(k)[0] == a[0] && b.take(k)[0] == b[0]);
                }
            }
        }
    }
}

/// Joined texts stand in their order, with the separator between each two and nowhere else.
pub proof fn law_joined_texts_stand_in_order(
    first: Seq<char>,
    rest: Seq<Seq<char>>,
    separator: Seq<char>,
)
    ensures
        joined(seq![first], separator) == first,
        rest.len() > 0 ==> joined(seq![first] + rest, separator) == first + separator + joined(
            rest,
            separator,
        ),
        joined(Seq::empty(), separator).len() == 0,
    decreases rest.len(),
{
    if rest.len() > 0 {
        let all = seq![first] + rest;
        assert(all.drop_last() =~= seq![first] + rest.drop_last());
        assert(all.last() == rest.last());
        if rest.len() == 1 {
            assert(rest.drop_last() =~= Seq::empty());
            assert(all.drop_last() =~= seq![first]);
            assert(joined(seq![first], separator) == first);
            assert(joined(rest, separator) == rest[0]);
            assert(joined(all, separator) == joined(all.drop_last(), separator) + separator
                + all.last());
        } else {
            law_joined_texts_stand_in_order(first, rest.drop_last(), separator);
            assert(joined(all, separator) =~= first + separator + joined(rest, separator));
        }
    }
}

/// What is written stands behind what was there, and is the number in its base.
pub proof fn law_numbers_are_written_behind(
    decimals: &mut String,
    hexadecimals: &mut String,
    n: u64,
    chars: &[char],
    copied: String,
    more: &mut String,
)
    requires
        call_ensures(push_decimal, (decimals, n), ()),
        call_ensures(push_hexadecimal, (hexadecimals, n), ()),
        call_ensures(text_of, (chars,), copied),
        call_ensures(push_chars, (more, chars), ()),
    ensures
        final(decimals)@ == old(decimals)@ + decimal(n as nat),
        final(hexadecimals)@ == old(hexadecimals)@ + hexadecimal(n as nat),
        copied@ == chars@,
        final(more)@ == old(more)@ + chars@,
{
}

/// Two texts stand in one order: neither comes first where they are the same, and otherwise the one
/// with the smaller character at the first difference does, or the one that the other goes on from.
pub proof fn law_texts_are_compared(a: &[char], b: &[char], order: TextOrder, k: int)
    requires
        call_ensures(compare_text, (a, b), order),
    ensures
        order is Same <==> a@ == b@,
        0 <= k < a@.len() && k < b@.len() && a@.take(k) == b@.take(k) && a@[k] < b@[k]
            ==> order is Before,
        0 <= k < a@.len() && k < b@.len() && a@.take(k) == b@.take(k) && a@[k] > b@[k]
            ==> order is After,
        a@.len() < b@.len() && b@.take(a@.len() as int) == a@ ==> order is Before,
        b@.len() < a@.len() && a@.take(b@.len() as int) == b@ ==> order is After,
{
    if 0 <= k < a@.len() && k < b@.len() && a@.take(k) == b@.take(k) {
        if a@[k] < b@[k] {
            lemma_precedes_at(a@, b@, k);
        }
        if b@[k] < a@[k] {
            lemma_precedes_at(b@, a@, k);
        }
    }
    if a@.len() < b@.len() && b@.take(a@.len() as int) == a@ {
        lemma_precedes_prefix(a@, b@);
    }
    if b@.len() < a@.len() && a@.take(b@.len() as int) == b@ {
        lemma_precedes_prefix(b@, a@);
    }
}

proof fn lemma_precedes_at(a: Seq<char>, b: Seq<char>, k: int)
    requires
        0 <= k < a.len(),
        k < b.len(),
        a.take(k) == b.take(k),
        a[k] < b[k],
    ensures
        precedes(a, b),
    decreases k,
{
    if k > 0 {
        assert(a.take(k)[0] == a[0] && b.take(k)[0] == b[0]);
        assert(a.skip(1).take(k - 1) =~= a.take(k).skip(1));
        assert(b.skip(1).take(k - 1) =~= b.take(k).skip(1));
        lemma_precedes_at(a.skip(1), b.skip(1), k - 1);
    }
}

proof fn lemma_precedes_prefix(a: Seq<char>, b: Seq<char>)
    requires
        a.len() < b.len(),
        b.take(a.len() as int) == a,
    ensures
        precedes(a, b),
    decreases a.len(),
{
    if a.len() > 0 {
        assert(b.take(a.len() as int)[0] == b[0]);
        assert(b.skip(1).take(a.len() as int - 1) =~= b.take(a.len() as int).skip(1));
        lemma_precedes_prefix(a.skip(1), b.skip(1));
    }
}

} // verus!
