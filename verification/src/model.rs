//! How values of the library are modelled and copied.
//!
//! Contracts speak of mathematical values: a `String` is the sequence of its
//! characters, a `Vec` the sequence of its items' values, and every record of
//! the library has a view type of its own. [`Dup`] copies a value and promises
//! that the copy has the same mathematical value.
use vstd::prelude::*;

verus! {

/// A value that can be copied without changing what it stands for.
pub trait Dup: DeepView + Sized {
    /// Copies the value.
    fn dup(&self) -> (res: Self)
        ensures
            res.deep_view() == self.deep_view(),
    ;
}

impl Dup for String {
    fn dup(&self) -> (res: Self) {
        self.clone()
    }
}

impl<T: Dup> Dup for Option<T> {
    fn dup(&self) -> (res: Self) {
        match self {
            Some(x) => Some(x.dup()),
            None => None,
        }
    }
}

/// Puts an item at the end of a list.
pub fn push_item<T: DeepView>(list: &mut Vec<T>, item: T)
    ensures
        final(list)@ == old(list)@.push(item),
        final(list).deep_view() == old(list).deep_view().push(item.deep_view()),
{
    let ghost before = list@;
    let ghost values = list.deep_view();
    list.push(item);
    assert(list@ == before.push(item));
    assert(list.deep_view() =~= values.push(item.deep_view()));
}

/// Puts copies of a list's items at the end of another.
pub fn extend_items<T: Dup>(list: &mut Vec<T>, items: &Vec<T>)
    ensures
        final(list).deep_view() == old(list).deep_view() + items.deep_view(),
{
    let ghost before = list.deep_view();
    let mut i: usize = 0;
    assert(before + items.deep_view().take(0) =~= before);
    while i < items.len()
        invariant
            i <= items.len(),
            list.deep_view() == before + items.deep_view().take(i as int),
        decreases items.len() - i,
    {
        let x = items[i].dup();
        push_item(list, x);
        i += 1;
        assert(list.deep_view() =~= before + items.deep_view().take(i as int));
    }
    assert(items.deep_view().take(i as int) =~= items.deep_view());
}

/// An empty list.
pub fn empty_list<T: DeepView>() -> (res: Vec<T>)
    ensures
        res@.len() == 0,
        res.deep_view() == Seq::<T::V>::empty(),
{
    let res: Vec<T> = Vec::new();
    assert(res.deep_view() =~= Seq::<T::V>::empty());
    res
}

impl<T: Dup> Dup for Vec<T> {
    fn dup(&self) -> (res: Self) {
        let mut res: Vec<T> = empty_list();
        extend_items(&mut res, self);
        assert(res.deep_view() =~= self.deep_view());
        res
    }
}

/// What filtering keeps: exactly the items that pass, none of them new.
pub proof fn lemma_filter<T>(s: Seq<T>, keep: spec_fn(T) -> bool)
    ensures
        forall|i: int|
            0 <= i < s.filter(keep).len() ==> keep(#[trigger] s.filter(keep)[i]) && s.contains(
                s.filter(keep)[i],
            ),
        forall|i: int| 0 <= i < s.len() && keep(#[trigger] s[i]) ==> s.filter(keep).contains(s[i]),
        s.filter(keep).len() <= s.len(),
        (forall|i: int| 0 <= i < s.len() ==> keep(#[trigger] s[i])) ==> s.filter(keep) == s,
    decreases s.len(),
{
    reveal(Seq::filter);
    let kept = s.filter(keep);
    if s.len() > 0 {
        let front = s.drop_last();
        let before = front.filter(keep);
        lemma_filter(front, keep);
        assert(kept == if keep(s.last()) {
            before.push(s.last())
        } else {
            before
        });
        assert forall|i: int| 0 <= i < kept.len() implies keep(#[trigger] kept[i]) && s.contains(
            kept[i],
        ) by {
            if i < before.len() {
                assert(kept[i] == before[i]);
                let j = choose|j: int| 0 <= j < front.len() && front[j] == before[i];
                assert(s[j] == kept[i]);
            } else {
                assert(s[s.len() - 1] == kept[i]);
            }
        }
        assert forall|i: int| 0 <= i < s.len() && keep(#[trigger] s[i]) implies kept.contains(
            s[i],
        ) by {
            if i < front.len() {
                assert(front[i] == s[i]);
                let j = choose|j: int| 0 <= j < before.len() && before[j] == s[i];
                assert(kept[j] == s[i]);
            } else {
                assert(kept[kept.len() - 1] == s[i]);
            }
        }
        if forall|i: int| 0 <= i < s.len() ==> keep(#[trigger] s[i]) {
            assert forall|i: int| 0 <= i < front.len() implies keep(#[trigger] front[i]) by {
                assert(keep(s[i]));
            }
            assert(keep(s[s.len() - 1]));
            assert(kept =~= s);
        }
    } else {
        assert(kept =~= s);
    }
}

/// What a list holds once an item has been put at its end.
pub proof fn lemma_push_contains<T>(s: Seq<T>, a: T, x: T)
    ensures
        s.push(a).contains(x) <==> s.contains(x) || x == a,
{
    if s.contains(x) {
        let i = choose|i: int| 0 <= i < s.len() && s[i] == x;
        assert(s.push(a)[i] == x);
    }
    if x == a {
        assert(s.push(a)[s.len() as int] == x);
    }
    if s.push(a).contains(x) {
        let i = choose|i: int| 0 <= i < s.push(a).len() && s.push(a)[i] == x;
        if i < s.len() {
            assert(s[i] == x);
        }
    }
}

} // verus!
