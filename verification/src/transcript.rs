//! From the segments of one recognized window to the text that is emitted.

use crate::text::{
    chars_of, is_whitespace, join_with, lemma_trim_of_clean, lemma_trimmed_ends, string_of,
    trim_bounds, trimmed,
};
use vstd::prelude::*;

verus! {

/// A segment counts when, trimmed, it is longer than one character. Empty segments
/// and single characters are noise.
pub open spec fn is_kept(segment: Seq<char>) -> bool {
    trimmed(segment).len() > 1
}

/// The kept segments, each trimmed and followed by one space.
pub open spec fn joined(segments: Seq<Seq<char>>) -> Seq<char>
    decreases segments.len(),
{
    if segments.len() == 0 {
        Seq::<char>::empty()
    } else if is_kept(segments.last()) {
        joined(segments.drop_last()) + trimmed(segments.last()) + seq![' ']
    } else {
        joined(segments.drop_last())
    }
}

/// The text of a window: its kept segments joined by single spaces, trimmed.
pub open spec fn assembled(segments: Seq<Seq<char>>) -> Seq<char> {
    trimmed(joined(segments))
}

/// The text to emit for the segments of one window, if there is any.
pub fn assemble_text(segments: &Vec<String>) -> (text: Option<String>)
    ensures
        text is Some <==> assembled(segments.deep_view()).len() > 0,
        text is Some ==> text->0@ == assembled(segments.deep_view()),
{
    let ghost views = segments.deep_view();
    let mut full: Vec<char> = Vec::new();
    let mut i: usize = 0;
    while i < segments.len()
        invariant
            i <= segments.len(),
            views == segments.deep_view(),
            full@ == joined(views.subrange(0, i as int)),
        decreases segments.len() - i,
    {
        let chars = chars_of(segments[i].as_str());
        let (a, b) = trim_bounds(&chars, 0, chars.len());
        proof {
            assert(chars@.subrange(0, chars.len() as int) =~= chars@);
            assert(views[i as int] == segments[i as int]@);
            let next = views.subrange(0, i + 1);
            assert(next.drop_last() =~= views.subrange(0, i as int));
            assert(next.last() == chars@);
        }
        if b - a > 1 {
            let ghost before = full@;
            let mut k: usize = a;
            while k < b
                invariant
                    a <= k <= b <= chars.len(),
                    full@ == before + chars@.subrange(a as int, k as int),
                decreases b - k,
            {
                full.push(chars[k]);
                k += 1;
                assert(full@ =~= before + chars@.subrange(a as int, k as int));
            }
            full.push(' ');
            assert(full@ =~= before + chars@.subrange(a as int, b as int) + seq![' ']);
        }
        i += 1;
    }
    assert(views.subrange(0, segments.len() as int) =~= views);
    let (a, b) = trim_bounds(&full, 0, full.len());
    assert(full@.subrange(0, full.len() as int) =~= full@);
    if a == b {
        None
    } else {
        Some(string_of(&full, a, b))
    }
}

/// The segments that count, each trimmed.
pub open spec fn kept_texts(segments: Seq<Seq<char>>) -> Seq<Seq<char>> {
    segments.map_values(|s: Seq<char>| trimmed(s)).filter(|t: Seq<char>| t.len() > 1)
}

/// Before the last trimming, the text of a window is empty or its kept segments
/// joined by single spaces with one space after them; and the joined segments
/// neither begin nor end with white space.
proof fn lemma_joined_shape(segments: Seq<Seq<char>>)
    ensures
        kept_texts(segments).len() == 0 ==> joined(segments) == Seq::<char>::empty(),
        kept_texts(segments).len() > 0 ==> ({
            let text = join_with(kept_texts(segments), " "@);
            &&& joined(segments) == text.push(' ')
            &&& text.len() > 0
            &&& !is_whitespace(text.first())
            &&& !is_whitespace(text.last())
        }),
    decreases segments.len(),
{
    reveal_strlit(" ");
    reveal(Seq::filter);
    let trim = |s: Seq<char>| trimmed(s);
    if segments.len() > 0 {
        let front = segments.drop_last();
        let last = trimmed(segments.last());
        lemma_joined_shape(front);
        lemma_trimmed_ends(segments.last());
        assert(segments.map_values(trim).drop_last() =~= front.map_values(trim));
        assert(segments.map_values(trim).last() == last);
        let before = kept_texts(front);
        if last.len() > 1 {
            let kept = kept_texts(segments);
            assert(kept == before.push(last));
            assert(kept.drop_last() =~= before);
            assert(" "@ =~= seq![' ']);
            if before.len() == 0 {
                assert(join_with(kept, " "@) == last);
                assert(joined(segments) =~= last.push(' '));
            } else {
                let head = join_with(before, " "@);
                assert(join_with(kept, " "@) == head + " "@ + last);
                assert(joined(segments) =~= (head + " "@ + last).push(' '));
                assert((head + " "@ + last).first() == head.first());
                assert((head + " "@ + last).last() == last.last());
            }
        }
    }
}

/// The text of a window is its kept segments, each trimmed, with one space between
/// each two: the last trimming takes away the space after the last of them and
/// nothing else.
pub proof fn lemma_assembled_is_joined_by_spaces(segments: Seq<Seq<char>>)
    ensures
        assembled(segments) == join_with(kept_texts(segments), " "@),
{
    lemma_joined_shape(segments);
    if kept_texts(segments).len() > 0 {
        lemma_trim_of_clean(join_with(kept_texts(segments), " "@), ' ');
    } else {
        assert(trimmed(Seq::<char>::empty()) =~= Seq::<char>::empty());
    }
}

} // verus!
