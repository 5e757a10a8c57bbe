//! Whether a piece of source text holds anything but white space and comments.
use vstd::prelude::*;

use crate::scan::{first_position, position_of};
use crate::text::chars_of;

verus! {

/// Whether a character is white space to a lexer of source text.
pub open spec fn is_layout(c: char) -> bool {
    ||| '\u{9}' <= c <= '\u{d}'
    ||| c == ' '
    ||| c == '\u{85}'
    ||| c == '\u{200e}'
    ||| c == '\u{200f}'
    ||| c == '\u{2028}'
    ||| c == '\u{2029}'
}

/// Whether a character is white space to a lexer of source text.
pub fn is_layout_char(c: char) -> (answer: bool)
    ensures
        answer == is_layout(c),
{
    ('\u{9}' <= c && c <= '\u{d}') || c == ' ' || c == '\u{85}' || c == '\u{200e}' || c
        == '\u{200f}' || c == '\u{2028}' || c == '\u{2029}'
}

/// Whether there is an `i`-th character and it is the given one.
pub open spec fn stands_at(s: Seq<char>, i: int, c: char) -> bool {
    0 <= i < s.len() && s[i] == c
}

/// Whether a comment to the end of the line begins here, one that documents nothing.
pub open spec fn begins_line_comment(s: Seq<char>) -> bool {
    &&& stands_at(s, 0, '/') && stands_at(s, 1, '/')
    &&& !stands_at(s, 2, '!')
    &&& stands_at(s, 2, '/') ==> stands_at(s, 3, '/')
}

/// Whether a comment between marks begins here, one that documents nothing.
pub open spec fn begins_block_comment(s: Seq<char>) -> bool {
    &&& stands_at(s, 0, '/') && stands_at(s, 1, '*')
    &&& !stands_at(s, 2, '!')
    &&& stands_at(s, 2, '*') ==> stands_at(s, 3, '*') || stands_at(s, 3, '/')
}

/// What is left behind the mark that closes the outermost of the given number of comments.
pub open spec fn after_block(s: Seq<char>, depth: nat) -> Option<Seq<char>>
    decreases s.len(),
{
    if depth == 0 {
        Some(s)
    } else if s.len() < 2 {
        None
    } else if s[0] == '/' && s[1] == '*' {
        after_block(s.skip(2), depth + 1)
    } else if s[0] == '*' && s[1] == '/' {
        after_block(s.skip(2), (depth - 1) as nat)
    } else {
        after_block(s.skip(1), depth)
    }
}

/// What closes a comment takes nothing back.
proof fn lemma_after_block_is_shorter(s: Seq<char>, depth: nat)
    ensures
        after_block(s, depth) is Some ==> after_block(s, depth)->0.len() <= s.len(),
    decreases s.len(),
{
    if depth > 0 && s.len() >= 2 {
        if s[0] == '/' && s[1] == '*' {
            lemma_after_block_is_shorter(s.skip(2), depth + 1);
        } else if s[0] == '*' && s[1] == '/' {
            lemma_after_block_is_shorter(s.skip(2), (depth - 1) as nat);
        } else {
            lemma_after_block_is_shorter(s.skip(1), depth);
        }
    }
}

/// Whether a text holds nothing but white space and comments that document nothing.
pub open spec fn blank(s: Seq<char>) -> bool
    decreases s.len(),
    via blank_decreases
{
    if s.len() == 0 {
        true
    } else if is_layout(s[0]) {
        blank(s.skip(1))
    } else if begins_line_comment(s) {
        blank(s.skip(2).skip(first_position(s.skip(2), '\n') as int))
    } else if begins_block_comment(s) {
        match after_block(s.skip(2), 1) {
            Some(rest) => blank(rest),
            None => false,
        }
    } else {
        false
    }
}

#[via_fn]
proof fn blank_decreases(s: Seq<char>) {
    if s.len() >= 2 {
        lemma_after_block_is_shorter(s.skip(2), 1);
        lemma_position_is_inside(s.skip(2), '\n');
    }
}

proof fn lemma_position_is_inside(s: Seq<char>, c: char)
    ensures
        first_position(s, c) <= s.len(),
    decreases s.len(),
{
    if s.len() > 0 && s[0] != c {
        lemma_position_is_inside(s.skip(1), c);
    }
}

/// Where the text goes on behind a comment whose opening mark ends at `start`.
fn end_of_block(chars: &[char], start: usize) -> (end: Option<usize>)
    requires
        start <= chars@.len(),
    ensures
        match end {
            Some(end) => start <= end <= chars@.len() && after_block(chars@.skip(start as int), 1)
                == Some(chars@.skip(end as int)),
            None => after_block(chars@.skip(start as int), 1) is None,
        },
{
    let mut i: usize = start;
    let mut depth: usize = 1;
    while depth > 0
        invariant
            start <= i <= chars@.len(),
            depth <= i - start + 1,
            after_block(chars@.skip(start as int), 1) == after_block(
                chars@.skip(i as int),
                depth as nat,
            ),
        decreases chars.len() - i, depth,
    {
        if chars.len() - i < 2 {
            return None;
        }
        proof {
            assert(chars@.skip(i as int).skip(1) =~= chars@.skip(i + 1));
            assert(chars@.skip(i as int).skip(2) =~= chars@.skip(i + 2));
        }
        if chars[i] == '/' && chars[i + 1] == '*' {
            depth = depth + 1;
            i = i + 2;
        } else if chars[i] == '*' && chars[i + 1] == '/' {
            depth = depth - 1;
            i = i + 2;
        } else {
            i = i + 1;
        }
    }
    Some(i)
}

/// Whether a text holds nothing but white space and comments that document nothing.
pub fn is_blank(text: &str) -> (answer: bool)
    ensures
        answer == blank(text@),
{
    let chars = chars_of(text);
    let mut i: usize = 0;
    proof {
        assert(chars@.skip(0) =~= text@);
    }
    while i < chars.len()
        invariant
            i <= chars@.len(),
            blank(text@) == blank(chars@.skip(i as int)),
        decreases chars.len() - i,
    {
        let ghost rest = chars@.skip(i as int);
        proof {
            assert(rest.len() > 0 && rest[0] == chars@[i as int]);
            assert(rest.skip(1) =~= chars@.skip(i + 1));
            assert(forall|k: int, c: char|
                k >= 0 ==> #[trigger] stands_at(rest, k, c) == (i + k < chars@.len() && chars@[i + k]
                    == c));
        }
        let c = chars[i];
        if is_layout_char(c) {
            i = i + 1;
            continue;
        }
        if c != '/' || chars.len() - i < 2 {
            return false;
        }
        let last: usize = chars.len() - 2;
        let third: Option<char> = if i < last {
            Some(chars[i + 2])
        } else {
            None
        };
        let fourth: Option<char> = if i < last && i + 2 < chars.len() - 1 {
            Some(chars[i + 3])
        } else {
            None
        };
        proof {
            assert(rest.skip(2) =~= chars@.skip(i + 2));
        }
        if chars[i + 1] == '/' && third != Some('!') && (third != Some('/') || fourth == Some('/')) {
            assert(begins_line_comment(rest));
            let behind = vstd::slice::slice_subrange(chars.as_slice(), i + 2, chars.len());
            assert(behind@ =~= rest.skip(2));
            let length = position_of(behind, '\n');
            proof {
                lemma_position_is_inside(rest.skip(2), '\n');
                assert(rest.skip(2).skip(length as int) =~= chars@.skip(i + 2 + length));
            }
            i = i + 2 + length;
        } else if chars[i + 1] == '*' && third != Some('!') && (third != Some('*') || fourth
            == Some('*') || fourth == Some('/')) {
            assert(begins_block_comment(rest));
            match end_of_block(chars.as_slice(), i + 2) {
                Some(end) => {
                    i = end;
                },
                None => {
                    return false;
                },
            }
        } else {
            return false;
        }
    }
    true
}

} // verus!
