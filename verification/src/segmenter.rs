//! Splitting a text into speakable segments.
//!
//! A segment is a contiguous, non-empty substring of the input. The scan
//! closes a segment immediately after every stop-word character (the stop
//! word belongs to the segment it terminates) and emits whatever remains
//! at the end of the text, whether or not it ends in a stop word.

use vstd::prelude::*;

verus! {

/// Whether `c` is a stop word: sentence-ending punctuation in Japanese
/// together with common Western equivalents.
pub open spec fn is_stop_word(c: char) -> bool {
    c == '。' || c == '、' || c == '？' || c == '！' || c == '…' || c == ',' || c == '.'
        || c == '?' || c == '!'
}

/// Executable membership test for the stop-word set.
pub fn stop_word(c: char) -> (b: bool)
    ensures
        b == is_stop_word(c),
{
    c == '。' || c == '、' || c == '？' || c == '！' || c == '…' || c == ',' || c == '.'
        || c == '?' || c == '!'
}

/// The segments of `s` that remain when the scan stands at position `i`
/// and the current segment began at position `start`.
pub open spec fn seg_from(s: Seq<char>, start: int, i: int) -> Seq<Seq<char>>
    recommends
        0 <= start <= i <= s.len(),
    decreases s.len() - i,
{
    if i < 0 || i >= s.len() {
        if 0 <= start < s.len() {
            seq![s.subrange(start, s.len() as int)]
        } else {
            Seq::empty()
        }
    } else if is_stop_word(s[i]) {
        seq![s.subrange(start, i + 1)] + seg_from(s, i + 1, i + 1)
    } else {
        seg_from(s, start, i + 1)
    }
}

/// All speakable segments of a text.
pub open spec fn segments(s: Seq<char>) -> Seq<Seq<char>> {
    seg_from(s, 0, 0)
}

/// The character sequences of a sequence of strings.
pub open spec fn seg_views(v: Seq<String>) -> Seq<Seq<char>> {
    v.map_values(|x: String| x@)
}

/// Concatenation of a sequence of segments back into one character sequence.
pub open spec fn concat_all(ss: Seq<Seq<char>>) -> Seq<char>
    decreases ss.len(),
{
    if ss.len() == 0 {
        Seq::empty()
    } else {
        ss[0] + concat_all(ss.drop_first())
    }
}

proof fn lemma_seg_from_concat(s: Seq<char>, start: int, i: int)
    requires
        0 <= start <= i <= s.len(),
    ensures
        concat_all(seg_from(s, start, i)) == s.subrange(start, s.len() as int),
    decreases s.len() - i,
{
    let whole = s.subrange(start, s.len() as int);
    if i >= s.len() {
        if start < s.len() {
            let ss = seq![whole];
            assert(ss.drop_first() =~= Seq::<Seq<char>>::empty());
            assert(concat_all(ss.drop_first()) =~= Seq::<char>::empty());
            assert(concat_all(ss) =~= whole);
        } else {
            assert(whole =~= Seq::<char>::empty());
        }
    } else if is_stop_word(s[i]) {
        lemma_seg_from_concat(s, i + 1, i + 1);
        let head = s.subrange(start, i + 1);
        let rest = seg_from(s, i + 1, i + 1);
        let ss = seq![head] + rest;
        assert(ss.drop_first() =~= rest);
        assert(ss[0] == head);
        assert(head + s.subrange(i + 1, s.len() as int) =~= whole);
    } else {
        lemma_seg_from_concat(s, start, i + 1);
    }
}

/// Round trip: concatenating all segments of a text, in order, reproduces
/// the text exactly.
pub proof fn lemma_round_trip(s: Seq<char>)
    ensures
        concat_all(segments(s)) == s,
{
    lemma_seg_from_concat(s, 0, 0);
    assert(s.subrange(0, s.len() as int) =~= s);
}

proof fn lemma_seg_from_shape(s: Seq<char>, start: int, i: int)
    requires
        0 <= start <= i <= s.len(),
    ensures
        forall|j: int|
            0 <= j < seg_from(s, start, i).len() ==> #[trigger] seg_from(s, start, i)[j].len()
                > 0,
        forall|j: int|
            0 <= j < seg_from(s, start, i).len() - 1 ==> is_stop_word(
                #[trigger] seg_from(s, start, i)[j].last(),
            ),
    decreases s.len() - i,
{
    let ss = seg_from(s, start, i);
    if i >= s.len() {
        if start < s.len() {
            assert(ss == seq![s.subrange(start, s.len() as int)]);
            assert(ss[0].len() == s.len() - start);
        } else {
            assert(ss == Seq::<Seq<char>>::empty());
        }
    } else if is_stop_word(s[i]) {
        lemma_seg_from_shape(s, i + 1, i + 1);
        let head = s.subrange(start, i + 1);
        let rest = seg_from(s, i + 1, i + 1);
        assert(ss == seq![head] + rest);
        assert(head.last() == s[i]);
        assert(forall|j: int| 0 <= j < rest.len() ==> ss[j + 1] == #[trigger] rest[j]);
        assert forall|j: int| 0 <= j < ss.len() implies #[trigger] ss[j].len() > 0 by {
            if j > 0 {
                assert(ss[j] == rest[j - 1]);
            }
        }
        assert forall|j: int| 0 <= j < ss.len() - 1 implies is_stop_word(
            #[trigger] ss[j].last(),
        ) by {
            if j > 0 {
                assert(ss[j] == rest[j - 1]);
            }
        }
    } else {
        lemma_seg_from_shape(s, start, i + 1);
        assert(ss == seg_from(s, start, i + 1));
    }
}

/// No segment of a text is empty.
pub proof fn lemma_non_empty(s: Seq<char>)
    ensures
        forall|j: int|
            0 <= j < segments(s).len() ==> #[trigger] segments(s)[j].len() > 0,
{
    lemma_seg_from_shape(s, 0, 0);
}

/// Every segment but possibly the last ends with a stop word.
pub proof fn lemma_boundary(s: Seq<char>)
    ensures
        forall|j: int|
            0 <= j < segments(s).len() - 1 ==> is_stop_word(#[trigger] segments(s)[j].last()),
{
    lemma_seg_from_shape(s, 0, 0);
}

/// Segmentation is deterministic: two runs over the same text yield
/// identical sequences of segments.
pub proof fn lemma_idempotent(text: Seq<char>, first: Seq<Seq<char>>, second: Seq<Seq<char>>)
    requires
        first == segments(text),
        second == segments(text),
    ensures
        first == second,
{
}

/// Splits `text` into speakable segments, in order.
pub fn split_by_stop_words(text: &str) -> (segs: Vec<String>)
    ensures
        seg_views(segs@) == segments(text@),
{
    let n: usize = text.unicode_len();
    let mut segs: Vec<String> = Vec::new();
    let mut start: usize = 0;
    let mut i: usize = 0;
    proof {
        assert(seg_views(segs@) =~= Seq::<Seq<char>>::empty());
        assert(seg_views(segs@) + seg_from(text@, 0, 0) =~= seg_from(text@, 0, 0));
    }
    while i < n
        invariant
            n == text@.len(),
            start <= i <= n,
            segments(text@) == seg_views(segs@) + seg_from(
                text@,
                start as int,
                i as int,
            ),
        decreases n - i,
    {
        let c = text.get_char(i);
        if stop_word(c) {
            let piece: String = text.substring_char(start, i + 1).to_owned();
            proof {
                let s = text@;
                let vs = seg_views(segs@);
                let head = s.subrange(start as int, i as int + 1);
                let rest = seg_from(s, i as int + 1, i as int + 1);
                assert(seg_from(s, start as int, i as int) == seq![head] + rest);
                assert(seg_views(segs@.push(piece)) =~= vs.push(head));
                assert(vs + (seq![head] + rest) =~= vs.push(head) + rest);
            }
            segs.push(piece);
            start = i + 1;
        } else {
            proof {
                assert(seg_from(text@, start as int, i as int) == seg_from(
                    text@,
                    start as int,
                    i as int + 1,
                ));
            }
        }
        i += 1;
    }
    if start < n {
        let piece: String = text.substring_char(start, n).to_owned();
        proof {
            let s = text@;
            let tail = s.subrange(start as int, n as int);
            assert(seg_from(s, start as int, n as int) == seq![tail]);
            assert(seg_views(segs@.push(piece)) =~= seg_views(segs@).push(tail));
            assert(seg_views(segs@) + seq![tail] =~= seg_views(segs@).push(tail));
        }
        segs.push(piece);
    } else {
        proof {
            assert(seg_from(text@, start as int, i as int) =~= Seq::<Seq<char>>::empty());
            assert(seg_views(segs@) + Seq::<Seq<char>>::empty() =~= seg_views(segs@));
        }
    }
    segs
}

} // verus!
