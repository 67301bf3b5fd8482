//! Small helpers for working with the characters of a string.

use vstd::prelude::*;
use vstd::string::*;

verus! {

/// The strings of `list`, each as its sequence of characters.
pub open spec fn texts(list: Seq<String>) -> Seq<Seq<char>> {
    Seq::new(list.len(), |i: int| list[i]@)
}

/// One more string at the end of a list is one more sequence of characters
/// at the end of its texts.
pub proof fn lemma_texts_push(list: Seq<String>, item: String)
    ensures
        texts(list.push(item)) == texts(list).push(item@),
{
    assert(texts(list.push(item)) =~= texts(list).push(item@));
}

/// The position of the first `mark` in `items`, or the length of `items`
/// where it holds none.
pub open spec fn position_of<T>(items: Seq<T>, mark: T) -> nat
    decreases items.len(),
{
    if items.len() == 0 || items[0] == mark {
        0
    } else {
        1 + position_of(items.drop_first(), mark)
    }
}

/// The first `mark` of `items` stands at `k` where none stands before it, and
/// `k` is the length of `items` where it holds none at all.
pub proof fn lemma_position_of<T>(items: Seq<T>, mark: T, k: int)
    requires
        0 <= k <= items.len(),
        forall|j: int| 0 <= j < k ==> items[j] != mark,
        k == items.len() || items[k] == mark,
    ensures
        position_of(items, mark) == k,
    decreases k,
{
    if k > 0 {
        lemma_position_of(items.drop_first(), mark, k - 1);
    }
}

/// `position_of` stays within the sequence, finds `mark` where it stops
/// before the end, and passes over nothing that equals `mark`.
pub proof fn lemma_position_of_is_first<T>(items: Seq<T>, mark: T)
    ensures
        position_of(items, mark) <= items.len(),
        position_of(items, mark) < items.len() ==> items[position_of(items, mark) as int] == mark,
        forall|j: int| 0 <= j < position_of(items, mark) ==> items[j] != mark,
    decreases items.len(),
{
    if items.len() == 0 || items[0] == mark {
    } else {
        let rest = items.drop_first();
        lemma_position_of_is_first(rest, mark);
        assert forall|j: int| 0 <= j < position_of(items, mark) implies items[j] != mark by {
            if j > 0 {
                assert(items[j] == rest[j - 1]);
            }
        }
    }
}

/// The position of the first `mark` in `chars` at or after `start`, or the
/// length of `chars` where none follows.
pub fn find_from(chars: &Vec<char>, start: usize, mark: char) -> (end: usize)
    requires
        start <= chars.len(),
    ensures
        start <= end <= chars.len(),
        end - start == position_of(chars@.subrange(start as int, chars.len() as int), mark),
{
    let mut end = start;
    while end < chars.len() && chars[end] != mark
        invariant
            start <= end <= chars.len(),
            forall|j: int| start <= j < end ==> chars@[j] != mark,
        decreases chars.len() - end,
    {
        end += 1;
    }
    proof {
        lemma_position_of(chars@.subrange(start as int, chars.len() as int), mark, end - start);
    }
    end
}

/// The characters of `text`, in order.
pub fn chars_of(text: &str) -> (out: Vec<char>)
    ensures
        out@ == text@,
{
    let mut out: Vec<char> = Vec::new();
    for c in it: text.chars()
        invariant
            out@ == text@.take(it.index() as int),
            it.seq() == text@,
    {
        out.push(c);
    }
    out
}

/// Whether two strings hold the same characters.
pub fn same_text(a: &str, b: &str) -> (same: bool)
    ensures
        same == (a@ == b@),
{
    let x = chars_of(a);
    let y = chars_of(b);
    if x.len() != y.len() {
        return false;
    }
    let mut i: usize = 0;
    while i < x.len()
        invariant
            i <= x.len(),
            x.len() == y.len(),
            x@ == a@,
            y@ == b@,
            forall|j: int| 0 <= j < i ==> x@[j] == y@[j],
        decreases x.len() - i,
    {
        if x[i] != y[i] {
            assert(a@[i as int] != b@[i as int]);
            return false;
        }
        i += 1;
    }
    assert(x@ =~= y@);
    true
}

/// Whether `chars` begins with the characters of `prefix`.
pub fn starts_with(chars: &Vec<char>, prefix: &str) -> (yes: bool)
    ensures
        yes == prefix@.is_prefix_of(chars@),
{
    let p = chars_of(prefix);
    if p.len() > chars.len() {
        return false;
    }
    let mut i: usize = 0;
    while i < p.len()
        invariant
            i <= p.len() <= chars.len(),
            p@ == prefix@,
            forall|j: int| 0 <= j < i ==> p@[j] == chars@[j],
        decreases p.len() - i,
    {
        if p[i] != chars[i] {
            assert(chars@.subrange(0, p@.len() as int)[i as int] != prefix@[i as int]);
            return false;
        }
        i += 1;
    }
    assert(p@ =~= chars@.subrange(0, p@.len() as int));
    true
}

/// The characters of `text` from position `from` up to, not including, `to`,
/// as a string of their own.
pub fn slice_of(text: &str, from: usize, to: usize) -> (out: String)
    requires
        from <= to <= text@.len(),
    ensures
        out@ == text@.subrange(from as int, to as int),
{
    String::from_str(text.substring_char(from, to))
}

/// `a` followed by `b`.
pub fn text_of2(a: &str, b: &str) -> (out: String)
    ensures
        out@ == a@ + b@,
{
    let mut out = String::from_str(a);
    out.append(b);
    out
}

/// `a`, `b` and `c`, one after the other.
pub fn text_of3(a: &str, b: &str, c: &str) -> (out: String)
    ensures
        out@ == a@ + b@ + c@,
{
    let mut out = String::from_str(a);
    out.append(b);
    out.append(c);
    out
}

/// `a`, `b`, `c`, `d` and `e`, one after the other.
pub fn text_of5(a: &str, b: &str, c: &str, d: &str, e: &str) -> (out: String)
    ensures
        out@ == a@ + b@ + c@ + d@ + e@,
{
    let mut out = String::from_str(a);
    out.append(b);
    out.append(c);
    out.append(d);
    out.append(e);
    out
}

/// Puts a copy of `text` at the end of `list`.
pub fn push_text(list: &mut Vec<String>, text: &str)
    ensures
        texts(final(list)@) == texts(old(list)@).push(text@),
{
    let item = String::from_str(text);
    proof {
        lemma_texts_push(list@, item);
    }
    list.push(item);
}

/// Puts copies of the strings of `more` at the end of `list`, in order.
pub fn push_texts(list: &mut Vec<String>, more: &Vec<String>)
    ensures
        texts(final(list)@) == texts(old(list)@) + texts(more@),
{
    let ghost before = texts(list@);
    let mut i: usize = 0;
    assert(before + texts(more@).take(0) =~= before);
    while i < more.len()
        invariant
            i <= more.len(),
            texts(list@) == before + texts(more@).take(i as int),
        decreases more.len() - i,
    {
        push_text(list, more[i].as_str());
        assert(texts(list@) =~= before + texts(more@).take(i as int + 1));
        i += 1;
    }
    assert(texts(more@).take(more.len() as int) =~= texts(more@));
}

/// A copy of `text`.
pub fn copy_text(text: &String) -> (copy: String)
    ensures
        copy@ == text@,
{
    text.clone()
}

/// The strings of `list` from position `from` on, copied.
pub fn copy_from(list: &Vec<String>, from: usize) -> (copy: Vec<String>)
    requires
        from <= list.len(),
    ensures
        texts(copy@) == texts(list@).skip(from as int),
{
    let mut copy: Vec<String> = Vec::new();
    let mut i: usize = from;
    let ghost all = texts(list@);
    assert(texts(copy@) =~= all.subrange(from as int, from as int));
    while i < list.len()
        invariant
            from <= i <= list.len(),
            all == texts(list@),
            texts(copy@) == all.subrange(from as int, i as int),
        decreases list.len() - i,
    {
        let token = copy_text(&list[i]);
        proof {
            lemma_texts_push(copy@, token);
            assert(all.subrange(from as int, i as int + 1) =~= all.subrange(
                from as int,
                i as int,
            ).push(all[i as int]));
        }
        copy.push(token);
        i += 1;
    }
    assert(all.subrange(from as int, all.len() as int) =~= all.skip(from as int));
    copy
}

/// A copy of `list`.
pub fn copy_texts(list: &Vec<String>) -> (copy: Vec<String>)
    ensures
        texts(copy@) == texts(list@),
{
    let copy = copy_from(list, 0);
    assert(texts(list@).skip(0) =~= texts(list@));
    copy
}

} // verus!
