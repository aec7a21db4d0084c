use vstd::prelude::*;
use crate::error::LoadError;

verus! {

/// Decodes every item in turn and stops at the first that fails.
pub open spec fn try_map<A, B>(items: Seq<A>, f: spec_fn(A) -> Result<B, LoadError>) -> Result<
    Seq<B>,
    LoadError,
>
    decreases items.len(),
{
    if items.len() == 0 {
        Ok(Seq::empty())
    } else {
        match try_map(items.drop_last(), f) {
            Err(e) => Err(e),
            Ok(done) => match f(items.last()) {
                Ok(b) => Ok(done.push(b)),
                Err(e) => Err(e),
            },
        }
    }
}

/// A result with the value it holds replaced by its mathematical value.
pub open spec fn outcome_view<T: DeepView>(r: Result<T, LoadError>) -> Result<T::V, LoadError> {
    match r {
        Ok(t) => Ok(t.deep_view()),
        Err(e) => Err(e),
    }
}

/// Decoding one item more either extends what was decoded or fails.
pub proof fn lemma_try_map_step<A, B>(
    items: Seq<A>,
    f: spec_fn(A) -> Result<B, LoadError>,
    i: int,
)
    requires
        0 <= i < items.len(),
    ensures
        try_map(items.take(i + 1), f) == match try_map(items.take(i), f) {
            Err(e) => Err::<Seq<B>, LoadError>(e),
            Ok(done) => match f(items[i]) {
                Ok(b) => Ok(done.push(b)),
                Err(e) => Err(e),
            },
        },
{
    assert(items.take(i + 1).drop_last() =~= items.take(i));
    assert(items.take(i + 1).last() == items[i]);
}

/// Once an item has failed, the failure stays whatever follows.
pub proof fn lemma_try_map_fails<A, B>(
    items: Seq<A>,
    f: spec_fn(A) -> Result<B, LoadError>,
    i: int,
    n: int,
)
    requires
        0 <= i <= n <= items.len(),
        try_map(items.take(i), f) is Err,
    ensures
        try_map(items.take(n), f) == try_map(items.take(i), f),
    decreases n - i,
{
    if i < n {
        lemma_try_map_fails(items, f, i, n - 1);
        lemma_try_map_step(items, f, n - 1);
    }
}

/// The place of the first of the names that reads as `name` does.
pub open spec fn first_index(names: Seq<Seq<char>>, name: Seq<char>) -> Option<int>
    decreases names.len(),
{
    if names.len() == 0 {
        None
    } else if names[0] == name {
        Some(0)
    } else {
        match first_index(names.drop_first(), name) {
            Some(i) => Some(i + 1),
            None => None,
        }
    }
}

/// The place of the first of the names from `from` on that reads as `name`
/// does, counted from the start.
pub open spec fn first_index_from(names: Seq<Seq<char>>, name: Seq<char>, from: int) -> Option<
    int,
> {
    match first_index(names.skip(from), name) {
        Some(i) => Some(i + from),
        None => None,
    }
}

/// Looking from one place on finds the name there, or what is found from the
/// next place on.
pub proof fn lemma_first_index_from(names: Seq<Seq<char>>, name: Seq<char>, from: int)
    requires
        0 <= from <= names.len(),
    ensures
        first_index_from(names, name, 0) == first_index(names, name),
        first_index_from(names, name, from) == if from == names.len() {
            None
        } else if names[from] == name {
            Some(from)
        } else {
            first_index_from(names, name, from + 1)
        },
{
    assert(names.skip(0) =~= names);
    if from < names.len() {
        assert(names.skip(from)[0] == names[from]);
        assert(names.skip(from).drop_first() =~= names.skip(from + 1));
    }
}

/// What `first_index` finds is the first place at which the name stands.
pub proof fn lemma_first_index(names: Seq<Seq<char>>, name: Seq<char>)
    ensures
        match first_index(names, name) {
            Some(i) => 0 <= i < names.len() && names[i] == name && forall|k: int|
                0 <= k < i ==> names[k] != name,
            None => forall|k: int| 0 <= k < names.len() ==> names[k] != name,
        },
    decreases names.len(),
{
    if names.len() > 0 && names[0] != name {
        let rest = names.drop_first();
        lemma_first_index(rest, name);
        match first_index(rest, name) {
            Some(i) => {
                assert(rest[i] == names[i + 1]);
                assert forall|k: int| 0 <= k < i + 1 implies names[k] != name by {
                    if k > 0 {
                        assert(rest[k - 1] == names[k]);
                    }
                }
            },
            None => {
                assert forall|k: int| 0 <= k < names.len() implies names[k] != name by {
                    if k > 0 {
                        assert(rest[k - 1] == names[k]);
                    }
                }
            },
        }
    }
}

/// The weights of all items, added up.
pub open spec fn sum<A>(items: Seq<A>, weight: spec_fn(A) -> nat) -> nat
    decreases items.len(),
{
    if items.len() == 0 {
        0
    } else {
        sum(items.drop_last(), weight) + weight(items.last())
    }
}

/// One item more adds its weight.
pub proof fn lemma_sum_step<A>(items: Seq<A>, weight: spec_fn(A) -> nat, i: int)
    requires
        0 <= i < items.len(),
    ensures
        sum(items.take(i + 1), weight) == sum(items.take(i), weight) + weight(items[i]),
{
    assert(items.take(i + 1).drop_last() =~= items.take(i));
    assert(items.take(i + 1).last() == items[i]);
}

/// The sum over a prefix is no more than the sum over all.
pub proof fn lemma_sum_prefix<A>(items: Seq<A>, weight: spec_fn(A) -> nat, i: int)
    requires
        0 <= i <= items.len(),
    ensures
        sum(items.take(i), weight) <= sum(items, weight),
    decreases items.len() - i,
{
    if i < items.len() {
        lemma_sum_step(items, weight, i);
        lemma_sum_prefix(items, weight, i + 1);
    } else {
        assert(items.take(i) =~= items);
    }
}

/// The value of a vector after a push, item by item.
pub proof fn lemma_deep_view_push<T: DeepView>(before: Vec<T>, after: Vec<T>, item: T)
    requires
        after@ == before@.push(item),
    ensures
        after.deep_view() == before.deep_view().push(item.deep_view()),
{
    assert(after.deep_view() =~= before.deep_view().push(item.deep_view()));
}

} // verus!
