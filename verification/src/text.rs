//! Small operations on text, stated over sequences of characters.

use vstd::prelude::*;
use vstd::string::*;

verus! {

/// The position of the first `wanted` in `items`, or the length of `items`
/// where there is none.
pub open spec fn first_index<A>(items: Seq<A>, wanted: A) -> int
    decreases items.len(),
{
    if items.len() == 0 {
        0
    } else if items[0] == wanted {
        0
    } else {
        1 + first_index(items.drop_first(), wanted)
    }
}

/// `first_index` is the least position that holds `wanted`, if any does.
pub proof fn lemma_first_index<A>(items: Seq<A>, wanted: A)
    ensures
        0 <= first_index(items, wanted) <= items.len(),
        forall|k: int| 0 <= k < first_index(items, wanted) ==> items[k] != wanted,
        first_index(items, wanted) < items.len() ==> items[first_index(items, wanted)] == wanted,
        items.contains(wanted) <==> first_index(items, wanted) < items.len(),
    decreases items.len(),
{
    if items.len() == 0 {
    } else if items[0] == wanted {
    } else {
        let rest = items.drop_first();
        lemma_first_index(rest, wanted);
        assert forall|k: int| 0 <= k < first_index(items, wanted) implies items[k] != wanted by {
            if k > 0 {
                assert(items[k] == rest[k - 1]);
            }
        }
        if rest.contains(wanted) {
            let k = choose|k: int| 0 <= k < rest.len() && rest[k] == wanted;
            assert(items[k + 1] == wanted);
        }
        if items.contains(wanted) {
            let k = choose|k: int| 0 <= k < items.len() && items[k] == wanted;
            assert(rest[k - 1] == wanted);
        }
    }
}

/// What `first_index` is, told from outside: a position before which
/// `wanted` does not occur and which holds it, or the length where
/// `wanted` does not occur at all.
pub proof fn lemma_first_index_is<A>(items: Seq<A>, wanted: A, at: int)
    requires
        0 <= at <= items.len(),
        forall|k: int| 0 <= k < at ==> items[k] != wanted,
        at < items.len() ==> items[at] == wanted,
    ensures
        first_index(items, wanted) == at,
{
    lemma_first_index(items, wanted);
}

/// The characters of a text, one by one.
pub fn chars_of(text: &str) -> (chars: Vec<char>)
    ensures
        chars@ == text@,
{
    let mut chars: Vec<char> = Vec::new();
    for c in it: text.chars()
        invariant
            it.seq() == text@,
            chars@ == it.seq().take(it.index() as int),
    {
        chars.push(c);
    }
    chars
}

/// Finds the first `wanted` in `chars` at or after `from`; the length of
/// `chars` where there is none.
pub fn find_char(chars: &Vec<char>, from: usize, wanted: char) -> (at: usize)
    requires
        from <= chars@.len(),
    ensures
        at == from + first_index(chars@.skip(from as int), wanted),
        from <= at <= chars@.len(),
{
    let mut i: usize = from;
    while i < chars.len() && chars[i] != wanted
        invariant
            from <= i <= chars@.len(),
            forall|k: int| from <= k < i ==> chars@[k] != wanted,
        decreases chars@.len() - i,
    {
        i += 1;
    }
    proof {
        let tail = chars@.skip(from as int);
        assert forall|k: int| 0 <= k < i - from implies tail[k] != wanted by {
            assert(tail[k] == chars@[from + k]);
        }
        lemma_first_index_is(tail, wanted, i - from);
    }
    i
}

/// Whether two texts hold the same characters.
pub fn same_text(left: &str, right: &str) -> (same: bool)
    ensures
        same == (left@ == right@),
{
    left.to_owned() == right.to_owned()
}

/// The parts in their order, with one space between neighbours.
pub open spec fn joined(parts: Seq<Seq<char>>) -> Seq<char>
    decreases parts.len(),
{
    if parts.len() == 0 {
        Seq::empty()
    } else if parts.len() == 1 {
        parts[0]
    } else {
        joined(parts.drop_last()) + seq![' '] + parts.last()
    }
}

/// The texts of a list of strings.
pub open spec fn texts(parts: Seq<String>) -> Seq<Seq<char>> {
    Seq::new(parts.len(), |i: int| parts[i]@)
}

/// Joins the parts with single spaces.
pub fn join(parts: &Vec<String>) -> (line: String)
    ensures
        line@ == joined(texts(parts@)),
{
    let ghost all = texts(parts@);
    let mut line = String::new();
    let mut i: usize = 0;
    assert(all.take(0) =~= Seq::<Seq<char>>::empty());
    while i < parts.len()
        invariant
            i <= parts.len(),
            all == texts(parts@),
            line@ == joined(all.take(i as int)),
        decreases parts.len() - i,
    {
        proof {
            reveal_strlit(" ");
            assert(all.take(i + 1).drop_last() =~= all.take(i as int));
            assert(all.take(i + 1).last() == parts@[i as int]@);
        }
        if i > 0 {
            line.append(" ");
            assert(" "@ =~= seq![' ']);
        } else {
            assert(joined(all.take(0)) =~= Seq::<char>::empty());
            assert(Seq::<char>::empty() + parts@[0]@ =~= parts@[0]@);
        }
        line.append(parts[i].as_str());
        i += 1;
    }
    assert(all.take(i as int) =~= all);
    line
}

} // verus!
