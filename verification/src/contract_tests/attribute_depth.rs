//! How deep the parser of attributes goes for a text, and which texts it comes back from.
use vstd::prelude::*;

use crate::contract_tests::comments::{is_layout, is_layout_char};
use crate::text::chars_of;

verus! {

/// Whether a character opens a bracket.
pub open spec fn opens(c: char) -> bool {
    c == '(' || c == '[' || c == '{'
}

/// How many brackets a text opens.
pub open spec fn openers(text: Seq<char>) -> nat
    decreases text.len(),
{
    if text.len() == 0 {
        0
    } else {
        openers(text.drop_last()) + if opens(text.last()) {
            1nat
        } else {
            0nat
        }
    }
}

/// Whether a character can stand inside a word or a number.
pub open spec fn in_word(c: char) -> bool {
    ('a' <= c && c <= 'z') || ('A' <= c && c <= 'Z') || ('0' <= c && c <= '9') || c == '_'
}

/// Whether a character closes a bracket.
pub open spec fn closes(c: char) -> bool {
    c == ')' || c == ']' || c == '}'
}

/// Whether what a character begins can go on behind a comma: a bracket, a list of types or of
/// parameters, a text, or a comment.
pub open spec fn outlasts_comma(c: char) -> bool {
    opens(c) || c == '<' || c == '|' || c == '"' || c == '\'' || c == '/'
}

/// How deep a parser can be behind some text. Words and operators go one deeper; a word in front
/// of a comma or a closing bracket does not, and neither does a closing bracket. A comma ends
/// what was begun since the last one, unless something in it goes on behind the comma.
pub struct Depth {
    /// What was begun and goes on.
    pub kept: nat,
    /// What was begun since the last comma.
    pub piece: nat,
    /// Whether something since the last comma goes on behind the next one.
    pub lasting: bool,
    /// Whether a word stands last.
    pub word: bool,
    /// The most so far.
    pub most: nat,
}

/// One deeper.
pub open spec fn deeper(d: Depth) -> Depth {
    Depth {
        piece: d.piece + 1,
        most: if d.kept + d.piece + 1 > d.most {
            d.kept + d.piece + 1
        } else {
            d.most
        },
        ..d
    }
}

/// The word that stands last goes one deeper, where there is one.
pub open spec fn word_counted(d: Depth) -> Depth {
    if d.word {
        Depth { word: false, ..deeper(d) }
    } else {
        d
    }
}

/// How deep a parser can be behind one character more. `inside` tells whether a word character
/// stands right before it.
pub open spec fn depth_behind(d: Depth, inside: bool, c: char) -> Depth {
    if is_layout(c) {
        d
    } else if in_word(c) {
        if inside {
            d
        } else {
            Depth { word: true, ..word_counted(d) }
        }
    } else if c == ',' {
        Depth {
            kept: if d.lasting {
                d.kept + d.piece
            } else {
                d.kept
            },
            piece: 0,
            lasting: false,
            word: false,
            ..d
        }
    } else if closes(c) {
        Depth { word: false, ..d }
    } else {
        Depth { lasting: d.lasting || outlasts_comma(c), ..deeper(word_counted(d)) }
    }
}

/// How deep a parser can be behind a text.
pub open spec fn depth_of(text: Seq<char>) -> Depth
    decreases text.len(),
{
    if text.len() == 0 {
        Depth { kept: 0, piece: 0, lasting: false, word: false, most: 0 }
    } else {
        let before = text.drop_last();
        depth_behind(
            depth_of(before),
            before.len() > 0 && in_word(before.last()),
            text.last(),
        )
    }
}

/// How many brackets a text may open where it is parsed.
pub const MAX_OPENERS: usize = 256;

/// How deep a text with a value may be where it is parsed.
pub const MAX_DEPTH: u128 = 32;

/// Whether a text is one that the parser comes back from on an ordinary stack: it goes one call
/// deeper with each bracket, and where there is a value, with each operator in it. An attribute
/// that names suites opens one bracket and holds no value.
pub open spec fn shallow(text: Seq<char>) -> bool {
    &&& openers(text) <= MAX_OPENERS
    &&& text.contains('=') ==> depth_of(text).most <= MAX_DEPTH
}

fn is_in_word(c: char) -> (answer: bool)
    ensures
        answer == in_word(c),
{
    ('a' <= c && c <= 'z') || ('A' <= c && c <= 'Z') || ('0' <= c && c <= '9') || c == '_'
}

fn is_opener(c: char) -> (answer: bool)
    ensures
        answer == opens(c),
{
    c == '(' || c == '[' || c == '{'
}

/// A depth, counted.
struct Count {
    kept: u128,
    piece: u128,
    lasting: bool,
    word: bool,
    most: u128,
}

impl Count {
    spec fn depth(&self) -> Depth {
        Depth {
            kept: self.kept as nat,
            piece: self.piece as nat,
            lasting: self.lasting,
            word: self.word,
            most: self.most as nat,
        }
    }

    fn go_deeper(&mut self)
        requires
            old(self).kept + old(self).piece < u128::MAX,
        ensures
            final(self).depth() == deeper(old(self).depth()),
    {
        self.piece = self.piece + 1;
        if self.kept + self.piece > self.most {
            self.most = self.kept + self.piece;
        }
    }

    fn count_word(&mut self)
        requires
            old(self).kept + old(self).piece < u128::MAX,
        ensures
            final(self).depth() == word_counted(old(self).depth()),
    {
        if self.word {
            self.go_deeper();
            self.word = false;
        }
    }

    fn pass(&mut self, inside: bool, c: char)
        requires
            old(self).kept + old(self).piece < u128::MAX - 2,
        ensures
            final(self).depth() == depth_behind(old(self).depth(), inside, c),
            final(self).kept + final(self).piece <= old(self).kept + old(self).piece + 2,
    {
        if is_layout_char(c) {
            return;
        }
        if is_in_word(c) {
            if !inside {
                self.count_word();
                self.word = true;
            }
        } else if c == ',' {
            if self.lasting {
                self.kept = self.kept + self.piece;
            }
            self.piece = 0;
            self.lasting = false;
            self.word = false;
        } else if c == ')' || c == ']' || c == '}' {
            self.word = false;
        } else {
            self.count_word();
            self.go_deeper();
            if is_opener(c) || c == '<' || c == '|' || c == '"' || c == '\'' || c == '/' {
                self.lasting = true;
            }
        }
    }
}

/// Whether a text is one that can be parsed.
pub fn is_shallow(text: &str) -> (answer: bool)
    ensures
        answer == shallow(text@),
{
    let chars = chars_of(text);
    let mut opened: usize = 0;
    let mut count = Count { kept: 0, piece: 0, lasting: false, word: false, most: 0 };
    let mut valued = false;
    let mut i: usize = 0;
    while i < chars.len()
        invariant
            i <= chars@.len(),
            opened <= i,
            count.kept + count.piece <= 2 * i,
            opened == openers(chars@.take(i as int)),
            count.depth() == depth_of(chars@.take(i as int)),
            valued == chars@.take(i as int).contains('='),
        decreases chars.len() - i,
    {
        let ghost before = chars@.take(i as int);
        let ghost after = chars@.take(i + 1);
        proof {
            assert(after.drop_last() =~= before);
            assert(after =~= before.push(chars@[i as int]));
            if before.contains('=') {
                let k = choose|k: int| 0 <= k < before.len() && before[k] == '=';
                assert(after[k] == '=');
            }
            if chars@[i as int] == '=' {
                assert(after[i as int] == '=');
            }
        }
        let c = chars[i];
        if is_opener(c) {
            opened = opened + 1;
        }
        let inside: bool = i > 0 && is_in_word(chars[i - 1]);
        count.pass(inside, c);
        if c == '=' {
            valued = true;
        }
        i = i + 1;
    }
    proof {
        assert(chars@.take(chars@.len() as int) =~= text@);
    }
    opened <= MAX_OPENERS && (!valued || count.most <= MAX_DEPTH)
}

} // verus!
