//! Preview truncation for text entries.
//!
//! The history list renders a short preview of each text entry: at most the
//! first `PREVIEW_MAX_LINES` lines (so at most `PREVIEW_MAX_LINES - 1` newline
//! characters are kept), and at most the first `PREVIEW_MAX_CHARS` characters,
//! counted in characters, not bytes. The preview is always a prefix of the
//! full text: nothing is reordered or summarized.

use vstd::prelude::*;

verus! {

/// Maximum number of lines a preview keeps.
pub const PREVIEW_MAX_LINES: usize = 4;

/// Maximum number of characters a preview keeps.
pub const PREVIEW_MAX_CHARS: usize = 300;

/// The longest prefix of `s` that contains at most `chars_left` characters
/// and in which at most `newlines_left` newline characters appear.
pub open spec fn preview_rec(s: Seq<char>, chars_left: int, newlines_left: int) -> Seq<char>
    decreases s.len(),
{
    if s.len() == 0 || chars_left <= 0 {
        Seq::empty()
    } else if s[0] == '\n' && newlines_left <= 0 {
        Seq::empty()
    } else if s[0] == '\n' {
        seq!['\n'] + preview_rec(s.drop_first(), chars_left - 1, newlines_left - 1)
    } else {
        seq![s[0]] + preview_rec(s.drop_first(), chars_left - 1, newlines_left)
    }
}

/// The preview of a text: its prefix cut at the fourth line and at 300
/// characters, whichever comes first.
pub open spec fn preview_of(s: Seq<char>) -> Seq<char> {
    preview_rec(s, PREVIEW_MAX_CHARS as int, PREVIEW_MAX_LINES as int - 1)
}

/// A budgeted prefix is a prefix of its input, no longer than the character
/// budget.
proof fn lemma_preview_rec_prefix(s: Seq<char>, chars_left: int, newlines_left: int)
    ensures
        preview_rec(s, chars_left, newlines_left).len() <= s.len(),
        chars_left >= 0 ==> preview_rec(s, chars_left, newlines_left).len() <= chars_left,
        preview_rec(s, chars_left, newlines_left) == s.take(
            preview_rec(s, chars_left, newlines_left).len() as int,
        ),
    decreases s.len(),
{
    let p = preview_rec(s, chars_left, newlines_left);
    if s.len() == 0 || chars_left <= 0 {
        assert(p =~= s.take(0));
    } else if s[0] == '\n' && newlines_left <= 0 {
        assert(p =~= s.take(0));
    } else {
        let rest = if s[0] == '\n' {
            preview_rec(s.drop_first(), chars_left - 1, newlines_left - 1)
        } else {
            preview_rec(s.drop_first(), chars_left - 1, newlines_left)
        };
        if s[0] == '\n' {
            lemma_preview_rec_prefix(s.drop_first(), chars_left - 1, newlines_left - 1);
        } else {
            lemma_preview_rec_prefix(s.drop_first(), chars_left - 1, newlines_left);
        }
        assert(p =~= s.take(p.len() as int));
    }
}

/// Truncating an already truncated text changes nothing.
proof fn lemma_preview_rec_idempotent(s: Seq<char>, chars_left: int, newlines_left: int)
    ensures
        preview_rec(preview_rec(s, chars_left, newlines_left), chars_left, newlines_left)
            == preview_rec(s, chars_left, newlines_left),
    decreases s.len(),
{
    let p = preview_rec(s, chars_left, newlines_left);
    if s.len() == 0 || chars_left <= 0 {
        assert(p =~= Seq::<char>::empty());
    } else if s[0] == '\n' && newlines_left <= 0 {
        assert(p =~= Seq::<char>::empty());
    } else if s[0] == '\n' {
        let rest = preview_rec(s.drop_first(), chars_left - 1, newlines_left - 1);
        lemma_preview_rec_idempotent(s.drop_first(), chars_left - 1, newlines_left - 1);
        assert(p.drop_first() =~= rest);
        assert(preview_rec(p, chars_left, newlines_left) =~= p);
    } else {
        let rest = preview_rec(s.drop_first(), chars_left - 1, newlines_left);
        lemma_preview_rec_idempotent(s.drop_first(), chars_left - 1, newlines_left);
        assert(p.drop_first() =~= rest);
        assert(preview_rec(p, chars_left, newlines_left) =~= p);
    }
}

/// The preview transform is idempotent: the preview of a preview is that
/// preview itself.
pub proof fn lemma_preview_idempotent(s: Seq<char>)
    ensures
        preview_of(preview_of(s)) == preview_of(s),
{
    lemma_preview_rec_idempotent(s, PREVIEW_MAX_CHARS as int, PREVIEW_MAX_LINES as int - 1);
}

/// The preview is an order-preserving prefix of its input, within the
/// character budget: nothing is reordered or summarized.
pub proof fn lemma_preview_prefix(s: Seq<char>)
    ensures
        preview_of(s).len() <= s.len(),
        preview_of(s).len() <= PREVIEW_MAX_CHARS,
        preview_of(s) == s.take(preview_of(s).len() as int),
{
    lemma_preview_rec_prefix(s, PREVIEW_MAX_CHARS as int, PREVIEW_MAX_LINES as int - 1);
}

/// The display preview of a text: its prefix up to the line and character
/// limits.
pub fn compact_preview(text: &str) -> (r: String)
    ensures
        r@ == preview_of(text@),
{
    let n = text.unicode_len();
    let mut i: usize = 0;
    let mut newlines: usize = 0;
    let mut stop: bool = false;
    proof {
        assert(text@.skip(0) =~= text@);
        assert(text@.take(0) + preview_rec(
            text@,
            PREVIEW_MAX_CHARS as int,
            PREVIEW_MAX_LINES as int - 1,
        ) =~= preview_of(text@));
    }
    while !stop
        invariant
            i <= n,
            n == text@.len(),
            i <= PREVIEW_MAX_CHARS,
            newlines <= PREVIEW_MAX_LINES - 1,
            preview_of(text@) == text@.take(i as int) + preview_rec(
                text@.skip(i as int),
                PREVIEW_MAX_CHARS - i,
                PREVIEW_MAX_LINES as int - 1 - newlines,
            ),
            stop ==> preview_of(text@) == text@.take(i as int),
        decreases n - i + (if stop { 0int } else { 1int }),
    {
        if i == n || i == PREVIEW_MAX_CHARS {
            proof {
                assert(preview_of(text@) =~= text@.take(i as int));
            }
            stop = true;
        } else {
            let c = text.get_char(i);
            proof {
                assert(text@.skip(i as int)[0] == text@[i as int]);
                assert(text@.skip(i as int).drop_first() =~= text@.skip(i + 1));
                assert(text@.take(i + 1) =~= text@.take(i as int) + seq![text@[i as int]]);
            }
            if c == '\n' && newlines == PREVIEW_MAX_LINES - 1 {
                proof {
                    assert(preview_rec(
                        text@.skip(i as int),
                        PREVIEW_MAX_CHARS - i,
                        PREVIEW_MAX_LINES as int - 1 - newlines,
                    ) =~= Seq::<char>::empty());
                    assert(preview_of(text@) =~= text@.take(i as int));
                }
                stop = true;
            } else {
                if c == '\n' {
                    newlines = newlines + 1;
                }
                i = i + 1;
                proof {
                    assert(preview_of(text@) =~= text@.take(i as int) + preview_rec(
                        text@.skip(i as int),
                        PREVIEW_MAX_CHARS - i,
                        PREVIEW_MAX_LINES as int - 1 - newlines,
                    ));
                }
            }
        }
    }
    let out = text.substring_char(0, i);
    proof {
        assert(out@ =~= text@.take(i as int));
    }
    out.to_owned()
}

} // verus!
