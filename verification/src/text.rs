//! Texts as sequences of characters: their order and their segments.

use vstd::prelude::*;

verus! {

/// The characters of `text`.
pub fn chars_of(text: &str) -> (chars: Vec<char>)
    ensures
        chars@ == text@,
{
    let mut chars: Vec<char> = Vec::new();
    for c in it: text.chars()
        invariant
            chars@ == it.seq().take(it.index() as int),
            it.seq() == text@,
    {
        chars.push(c);
    }
    chars
}

/// `a` comes before `b` from position `i` on: at the first position where
/// they differ `a` has the lower character, or `a` ends there and `b` does
/// not.
pub open spec fn lt_from(a: Seq<char>, b: Seq<char>, i: int) -> bool
    decreases a.len() - i,
{
    if i >= b.len() {
        false
    } else if i >= a.len() {
        true
    } else if a[i] != b[i] {
        (a[i] as u32) < (b[i] as u32)
    } else {
        lt_from(a, b, i + 1)
    }
}

/// `a` comes before `b` in the order of texts: the lexicographic order by
/// code point, which for UTF-8 is the order of the encoded bytes.
pub open spec fn text_lt(a: Seq<char>, b: Seq<char>) -> bool {
    lt_from(a, b, 0)
}

/// How one text stands to another.
#[derive(Debug, Clone, Copy, PartialEq, Eq)]
pub enum Position {
    Before,
    Same,
    After,
}

proof fn lemma_code_points_differ(c: char, d: char)
    requires
        c != d,
    ensures
        (c as u32) != (d as u32),
{
}

proof fn lemma_lt_from_exclusive(a: Seq<char>, b: Seq<char>, i: int)
    requires
        0 <= i <= a.len(),
        i <= b.len(),
        a.take(i) == b.take(i),
    ensures
        !(lt_from(a, b, i) && lt_from(b, a, i)),
        !lt_from(a, b, i) && !lt_from(b, a, i) ==> a == b,
        a == b ==> !lt_from(a, b, i),
    decreases a.len() - i,
{
    if i < a.len() && i < b.len() && a[i] == b[i] {
        assert(a.take(i + 1) =~= a.take(i).push(a[i]));
        assert(b.take(i + 1) =~= b.take(i).push(b[i]));
        lemma_lt_from_exclusive(a, b, i + 1);
    } else if i >= a.len() && i >= b.len() {
        assert(a.take(i) =~= a);
        assert(b.take(i) =~= b);
    } else if i < a.len() && i < b.len() {
        lemma_code_points_differ(a[i], b[i]);
    }
}

/// Of two texts exactly one holds: the first comes before the second, they
/// are the same, or the second comes before the first.
pub proof fn lemma_text_order_total(a: Seq<char>, b: Seq<char>)
    ensures
        !(text_lt(a, b) && text_lt(b, a)),
        !text_lt(a, b) && !text_lt(b, a) ==> a == b,
        a == b ==> !text_lt(a, b) && !text_lt(b, a),
{
    assert(a.take(0) =~= b.take(0));
    lemma_lt_from_exclusive(a, b, 0);
    lemma_lt_from_exclusive(b, a, 0);
}

proof fn lemma_lt_from_transitive(a: Seq<char>, b: Seq<char>, c: Seq<char>, i: int)
    requires
        0 <= i,
        lt_from(a, b, i),
        lt_from(b, c, i),
    ensures
        lt_from(a, c, i),
    decreases a.len() - i,
{
    if i < a.len() && a[i] == b[i] && b[i] == c[i] {
        lemma_lt_from_transitive(a, b, c, i + 1);
    }
}

/// The order of texts is transitive.
pub proof fn lemma_text_order_transitive(a: Seq<char>, b: Seq<char>, c: Seq<char>)
    requires
        text_lt(a, b),
        text_lt(b, c),
    ensures
        text_lt(a, c),
{
    lemma_lt_from_transitive(a, b, c, 0);
}

/// Where `a` stands to `b` in the order of texts.
pub fn position(a: &Vec<char>, b: &Vec<char>) -> (p: Position)
    ensures
        p == Position::Before <==> text_lt(a@, b@),
        p == Position::Same <==> a@ == b@,
        p == Position::After <==> text_lt(b@, a@),
{
    let mut i: usize = 0;
    while i < a.len() && i < b.len()
        invariant
            i <= a@.len(),
            i <= b@.len(),
            forall|k: int| 0 <= k < i ==> a@[k] == b@[k],
            text_lt(a@, b@) == lt_from(a@, b@, i as int),
            text_lt(b@, a@) == lt_from(b@, a@, i as int),
        decreases a@.len() - i,
    {
        if a[i] != b[i] {
            proof {
                lemma_text_order_total(a@, b@);
            }
            if (a[i] as u32) < (b[i] as u32) {
                return Position::Before;
            } else {
                return Position::After;
            }
        }
        i = i + 1;
    }
    proof {
        lemma_text_order_total(a@, b@);
    }
    if i < b.len() {
        Position::Before
    } else if i < a.len() {
        Position::After
    } else {
        Position::Same
    }
}

/// The segments of `text` between the occurrences of `sep`: one more than
/// there are occurrences, each possibly empty.
pub open spec fn split_text(text: Seq<char>, sep: char) -> Seq<Seq<char>>
    decreases text.len(),
{
    if text.len() == 0 {
        seq![Seq::empty()]
    } else {
        let head = split_text(text.drop_last(), sep);
        if text.last() == sep {
            head.push(Seq::empty())
        } else {
            head.update(head.len() - 1, head.last().push(text.last()))
        }
    }
}

/// The views of a sequence of texts, in order.
pub open spec fn texts_view(texts: Seq<Vec<char>>) -> Seq<Seq<char>> {
    texts.map_values(|t: Vec<char>| t@)
}

/// A text without `sep` is its own single segment.
pub proof fn lemma_split_plain(text: Seq<char>, sep: char)
    requires
        !text.contains(sep),
    ensures
        split_text(text, sep) == seq![text],
    decreases text.len(),
{
    if text.len() == 0 {
        assert(text =~= Seq::<char>::empty());
    } else {
        let head = text.drop_last();
        assert(text[text.len() - 1] != sep);
        assert forall|i: int| 0 <= i < head.len() implies head[i] != sep by {
            assert(text[i] == head[i]);
        }
        lemma_split_plain(head, sep);
        assert(head.push(text.last()) =~= text);
        assert(seq![head].update(0, head.push(text.last())) =~= seq![text]);
    }
}

/// A text without `sep` that is joined to another by `sep` is the last
/// segment of the whole, after the segments of the other.
pub proof fn lemma_split_joined(head: Seq<char>, sep: char, tail: Seq<char>)
    requires
        !tail.contains(sep),
    ensures
        split_text(head.push(sep) + tail, sep) == split_text(head, sep).push(tail),
    decreases tail.len(),
{
    let text = head.push(sep) + tail;
    if tail.len() == 0 {
        assert(text =~= head.push(sep));
        assert(text.drop_last() =~= head);
        assert(tail =~= Seq::<char>::empty());
    } else {
        let shorter = tail.drop_last();
        assert(tail[tail.len() - 1] != sep);
        assert forall|i: int| 0 <= i < shorter.len() implies shorter[i] != sep by {
            assert(tail[i] == shorter[i]);
        }
        lemma_split_joined(head, sep, shorter);
        assert(text.drop_last() =~= head.push(sep) + shorter);
        assert(text.last() == tail.last());
        assert(shorter.push(tail.last()) =~= tail);
        let before = split_text(head, sep).push(shorter);
        assert(before.update(before.len() - 1, before.last().push(tail.last()))
            =~= split_text(head, sep).push(tail));
    }
}

/// Splits `text` at each occurrence of `sep`.
pub fn split(text: &Vec<char>, sep: char) -> (parts: Vec<Vec<char>>)
    ensures
        texts_view(parts@) == split_text(text@, sep),
{
    let mut parts: Vec<Vec<char>> = Vec::new();
    let mut current: Vec<char> = Vec::new();
    let mut i: usize = 0;
    assert(text@.take(0) =~= Seq::<char>::empty());
    assert(texts_view(parts@).push(current@) =~= split_text(text@.take(0), sep));
    while i < text.len()
        invariant
            i <= text@.len(),
            texts_view(parts@).push(current@) == split_text(text@.take(i as int), sep),
        decreases text@.len() - i,
    {
        let ghost before = texts_view(parts@).push(current@);
        assert(text@.take(i + 1).drop_last() =~= text@.take(i as int));
        if text[i] == sep {
            parts.push(current);
            current = Vec::new();
            assert(texts_view(parts@).push(current@) =~= before.push(Seq::empty()));
        } else {
            current.push(text[i]);
            assert(texts_view(parts@).push(current@) =~= before.update(
                before.len() - 1,
                before.last().push(text@[i as int]),
            ));
        }
        i = i + 1;
    }
    assert(text@.take(i as int) =~= text@);
    let ghost before = texts_view(parts@).push(current@);
    parts.push(current);
    assert(texts_view(parts@) =~= before);
    parts
}

/// Whether two texts are the same.
pub fn same_text(a: &Vec<char>, b: &Vec<char>) -> (same: bool)
    ensures
        same == (a@ == b@),
{
    match position(a, b) {
        Position::Same => true,
        _ => false,
    }
}

} // verus!
