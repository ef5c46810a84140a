//! Operations on strings, specified over sequences of characters.

use vstd::prelude::*;

verus! {

/// The two halves of `item` around its first `=`, if it holds one.
pub open spec fn split_at_equals(item: Seq<char>) -> Option<(Seq<char>, Seq<char>)> {
    match item.index_of_first('=') {
        Some(i) => Some((item.take(i), item.skip(i + 1))),
        None => None,
    }
}

/// Splits `item` at its first `=`.
pub fn split_once_equals(item: &str) -> (res: Option<(String, String)>)
    ensures
        res.deep_view() == split_at_equals(item@),
{
    let total: usize = item.unicode_len();
    let mut i: usize = 0;
    for c in iter: item.chars()
        invariant
            i == iter.index(),
            total == item@.len(),
            iter.seq() == item@,
            forall|j: int| 0 <= j < i ==> item@[j] != '=',
    {
        if c == '=' {
            let key = item.substring_char(0, i).to_owned();
            let value = item.substring_char(i + 1, total).to_owned();
            proof {
                item@.index_of_first_ensures('=');
                assert(item@[i as int] == '=');
                assert(item@.index_of_first('=') == Some(i as int));
                assert(key@ =~= item@.take(i as int));
                assert(value@ =~= item@.skip(i + 1));
            }
            return Some((key, value));
        }
        i = i + 1;
    }
    proof {
        item@.index_of_first_ensures('=');
    }
    None
}

/// Concatenates all `parts`, in order.
pub fn concat_all(parts: &Vec<String>) -> (res: String)
    ensures
        res@ == parts.deep_view().flatten(),
{
    let mut res = String::new();
    let ghost views = parts.deep_view();
    assert(views.take(0).flatten() =~= Seq::<char>::empty());
    for i in 0..parts.len()
        invariant
            views == parts.deep_view(),
            res@ == views.take(i as int).flatten(),
    {
        res.append(parts[i].as_str());
        proof {
            assert(views.take(i + 1) =~= views.take(i as int).push(parts[i as int]@));
            views.take(i as int).lemma_flatten_push(parts[i as int]@);
        }
    }
    assert(views.take(parts.len() as int) =~= views);
    res
}

/// Tells whether `text` begins with `prefix`.
pub fn starts_with(text: &str, prefix: &str) -> (res: bool)
    ensures
        res == prefix@.is_prefix_of(text@),
{
    let n: usize = prefix.unicode_len();
    if text.unicode_len() < n {
        return false;
    }
    let head = text.substring_char(0, n).to_owned();
    let expected = prefix.to_owned();
    let res = head == expected;
    proof {
        assert(head@ =~= text@.take(n as int));
        if prefix@.is_prefix_of(text@) {
            assert(head@ =~= prefix@);
        }
    }
    res
}

/// Tells whether `text` is `word`.
pub fn same(text: &str, word: &str) -> (res: bool)
    ensures
        res == (text@ == word@),
{
    text.to_owned() == word.to_owned()
}

/// The two halves around the first `=` make up the item, and the first half holds no `=`.
pub proof fn halves_make_the_item(item: Seq<char>)
    ensures
        match split_at_equals(item) {
            Some((key, value)) => item == key + seq!['='] + value && !key.contains('='),
            None => !item.contains('='),
        },
{
    item.index_of_first_ensures('=');
    if let Some((key, value)) = split_at_equals(item) {
        assert(item =~= key + seq!['='] + value);
    }
}

} // verus!
