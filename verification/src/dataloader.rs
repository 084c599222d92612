//! Batched loading: many keyed loads become one fetch of the distinct keys, and
//! the answers come back in the order in which they were asked for.
use std::collections::{HashMap, HashSet};
use std::hash::Hash;

use vstd::prelude::*;

verus! {

broadcast use vstd::std_specs::hash::group_hash_axioms;

/// What a resolver can ask a loader for.
#[derive(Debug, PartialEq, Eq, Hash)]
pub enum BatchKey {
    User { user_id: String },
    Project { project_id: String },
    Channel { channel_id: String },
    Model { model_id: String },
    Request { request_id: String },
    UserProjects { user_id: String },
    ProjectChannels { project_id: String },
    ChannelModels { channel_id: String },
    ModelRequests { model_id: String },
    UserRequests { user_id: String },
}

impl Clone for BatchKey {
    fn clone(&self) -> (copy: Self)
        ensures
            copy == *self,
    {
        match self {
            BatchKey::User { user_id } => BatchKey::User { user_id: user_id.clone() },
            BatchKey::Project { project_id } => BatchKey::Project { project_id: project_id.clone() },
            BatchKey::Channel { channel_id } => BatchKey::Channel { channel_id: channel_id.clone() },
            BatchKey::Model { model_id } => BatchKey::Model { model_id: model_id.clone() },
            BatchKey::Request { request_id } => BatchKey::Request { request_id: request_id.clone() },
            BatchKey::UserProjects { user_id } => BatchKey::UserProjects { user_id: user_id.clone() },
            BatchKey::ProjectChannels { project_id } => BatchKey::ProjectChannels { project_id: project_id.clone() },
            BatchKey::ChannelModels { channel_id } => BatchKey::ChannelModels { channel_id: channel_id.clone() },
            BatchKey::ModelRequests { model_id } => BatchKey::ModelRequests { model_id: model_id.clone() },
            BatchKey::UserRequests { user_id } => BatchKey::UserRequests { user_id: user_id.clone() },
        }
    }
}

/// A source that answers a set of distinct keys at once.
pub trait BatchLoader {
    type Key: Clone + Eq + Hash;

    type Value: Clone;

    /// The values of those keys that the source knows.
    fn load_unique(&self, keys: &[Self::Key]) -> HashMap<Self::Key, Self::Value>;
}

/// Keys that behave: equality, hashing and cloning agree on which keys are the
/// same. Hash maps promise nothing of other keys.
pub open spec fn keys_behave<K: Clone>() -> bool {
    &&& vstd::std_specs::hash::obeys_key_model::<K>()
    &&& forall|a: K, b: K| #[trigger] cloned(a, b) ==> a == b
}

/// The distinct keys, each where it first occurs.
pub open spec fn first_occurrences<K>(keys: Seq<K>) -> Seq<K>
    decreases keys.len(),
{
    if keys.len() == 0 {
        Seq::empty()
    } else {
        let earlier = first_occurrences(keys.drop_last());
        if earlier.contains(keys.last()) {
            earlier
        } else {
            earlier.push(keys.last())
        }
    }
}

/// Whether `x` occurs in `keys` before `y` first does.
pub open spec fn comes_first<K>(keys: Seq<K>, x: K, y: K) -> bool {
    exists|i: int|
        {
            &&& 0 <= i < keys.len()
            &&& #[trigger] keys[i] == x
            &&& forall|j: int| 0 <= j < keys.len() && #[trigger] keys[j] == y ==> i < j
        }
}

/// `values` answers `keys` one by one from `known`: a clone of the value where
/// the key is known, nothing where it is not.
pub open spec fn answers_each<K, V: Clone>(
    values: Seq<Option<V>>,
    keys: Seq<K>,
    known: Map<K, V>,
) -> bool {
    &&& values.len() == keys.len()
    &&& forall|i: int|
        0 <= i < keys.len() ==> {
            &&& (#[trigger] values[i]) is Some <==> known.contains_key(keys[i])
            &&& values[i] matches Some(value) ==> cloned(known[keys[i]], value)
        }
}

/// The keys among `unique` that are not known, in order.
pub open spec fn unknown_keys<K, V>(unique: Seq<K>, known: Map<K, V>) -> Seq<K> {
    unique.filter(|k: K| !known.contains_key(k))
}

/// `values` answers `loads` from one fetch of the distinct keys.
pub open spec fn answers_batch<K, V: Clone, F: Fn(&[K]) -> HashMap<K, V>>(
    values: Seq<Option<V>>,
    loads: Seq<K>,
    fetch: F,
) -> bool {
    exists|asked: &[K], known: HashMap<K, V>|
        {
            &&& #[trigger] call_ensures(fetch, (asked,), known)
            &&& asked@ == first_occurrences(loads)
            &&& answers_each(values, loads, known@)
        }
}

/// The same, and `missing` lists the distinct keys that the fetch did not return.
pub open spec fn answers_batch_with_missing<K, V: Clone, F: Fn(&[K]) -> HashMap<K, V>>(
    values: Seq<Option<V>>,
    missing: Seq<K>,
    loads: Seq<K>,
    fetch: F,
) -> bool {
    exists|asked: &[K], known: HashMap<K, V>|
        {
            &&& #[trigger] call_ensures(fetch, (asked,), known)
            &&& asked@ == first_occurrences(loads)
            &&& answers_each(values, loads, known@)
            &&& missing == unknown_keys(asked@, known@)
        }
}

/// The distinct keys, each where it first occurs.
pub fn deduplicate_keys<K>(keys: &[K]) -> (unique: Vec<K>) where K: Clone + Eq + Hash
    ensures
        keys_behave::<K>() ==> {
            &&& unique@ == first_occurrences(keys@)
            &&& unique@.no_duplicates()
            &&& forall|k: K| #[trigger] unique@.contains(k) <==> keys@.contains(k)
            &&& forall|a: int, b: int|
                0 <= a < b < unique@.len() ==> comes_first(
                    keys@,
                    #[trigger] unique@[a],
                    #[trigger] unique@[b],
                )
            &&& first_occurrences(unique@) == unique@
        },
{
    let mut seen: HashSet<K> = HashSet::with_capacity(keys.len());
    let mut unique: Vec<K> = Vec::new();
    let mut i: usize = 0;
    assert(keys@.take(0) =~= Seq::empty());
    while i < keys.len()
        invariant
            i <= keys@.len(),
            keys_behave::<K>() ==> unique@ == first_occurrences(keys@.take(i as int)),
            keys_behave::<K>() ==> forall|k: K| #[trigger] seen@.contains(k) <==> unique@.contains(k),
        decreases keys@.len() - i,
    {
        let key = &keys[i];
        let marker = key.clone();
        let ghost before = unique@;
        assert(keys@.take(i + 1).drop_last() =~= keys@.take(i as int));
        assert(cloned(*key, marker));
        if seen.insert(marker) {
            let copy = key.clone();
            assert(cloned(*key, copy));
            unique.push(copy);
            assert forall|k: K| #[trigger] before.push(copy).contains(k) <==> before.contains(k)
                || k == copy by {
                push_adds_one_element(before, copy, k);
            }
        }
        i += 1;
    }
    assert(keys@.take(i as int) =~= keys@);
    proof {
        fetched_keys_are_the_distinct_keys(keys@);
        distinct_keys_are_fetched_as_they_are(keys@);
        assert forall|a: int, b: int|
            0 <= a < b < first_occurrences(keys@).len() implies comes_first(
            keys@,
            #[trigger] first_occurrences(keys@)[a],
            #[trigger] first_occurrences(keys@)[b],
        ) by {
            earlier_keys_are_asked_for_first(keys@, a, b);
        }
    }
    unique
}

fn answer_each<K, V>(keys: &[K], known: &HashMap<K, V>) -> (values: Vec<Option<V>>) where
    K: Eq + Hash,
    V: Clone,

    ensures
        values@.len() == keys@.len(),
        vstd::std_specs::hash::obeys_key_model::<K>() ==> answers_each(values@, keys@, known@),
{
    let mut values: Vec<Option<V>> = Vec::new();
    let mut i: usize = 0;
    while i < keys.len()
        invariant
            i <= keys@.len(),
            values@.len() == i,
            vstd::std_specs::hash::obeys_key_model::<K>() ==> answers_each(
                values@,
                keys@.take(i as int),
                known@,
            ),
        decreases keys@.len() - i,
    {
        let found = known.get(&keys[i]);
        let value = match found {
            Some(value) => {
                let copy = value.clone();
                assert(cloned(*value, copy));
                Some(copy)
            },
            None => None,
        };
        let ghost before = values@;
        values.push(value);
        proof {
            if vstd::std_specs::hash::obeys_key_model::<K>() {
                assert forall|j: int| 0 <= j < i + 1 implies {
                    &&& (#[trigger] values@[j]) is Some <==> known@.contains_key(
                        keys@.take(i + 1)[j],
                    )
                    &&& values@[j] matches Some(value) ==> cloned(
                        known@[keys@.take(i + 1)[j]],
                        value,
                    )
                } by {
                    if j < i {
                        assert(values@[j] == before[j]);
                        assert(keys@.take(i + 1)[j] == keys@.take(i as int)[j]);
                    }
                }
            }
        }
        i += 1;
    }
    assert(keys@.take(i as int) =~= keys@);
    values
}

/// Loads every key through one call of `loader` with the distinct keys, and
/// answers in the order of `keys`.
pub fn load_batch<L>(loader: &L, keys: &[L::Key]) -> (values: Vec<Option<L::Value>>) where
    L: BatchLoader,

    requires
        forall|asked: &[L::Key]| call_requires(L::load_unique, (loader, asked)),
    ensures
        values@.len() == keys@.len(),
        keys_behave::<L::Key>() ==> exists|asked: &[L::Key], known: HashMap<L::Key, L::Value>|
            {
                &&& #[trigger] call_ensures(L::load_unique, (loader, asked), known)
                &&& asked@ == first_occurrences(keys@)
                &&& answers_each(values@, keys@, known@)
            },
{
    let unique = deduplicate_keys(keys);
    let asked = unique.as_slice();
    let known = loader.load_unique(asked);
    answer_each(keys, &known)
}

/// Batches keyed loads over a fetch function. It holds nothing between calls and
/// does no I/O of its own.
#[derive(Debug, Default)]
pub struct DataLoaderBatcher<K, V> {
    _key: std::marker::PhantomData<K>,
    _value: std::marker::PhantomData<V>,
}

impl<K: Clone, V: Clone> Clone for DataLoaderBatcher<K, V> {
    fn clone(&self) -> (copy: Self)
        ensures
            copy == *self,
    {
        DataLoaderBatcher { _key: self._key, _value: self._value }
    }
}

impl<K: Copy, V: Copy> Copy for DataLoaderBatcher<K, V> {

}

impl<K, V> DataLoaderBatcher<K, V> where K: Clone + Eq + Hash, V: Clone {
    /// Answers a batch of keyed loads: `fetch` is called once, with the distinct
    /// keys in order of first occurrence; the answers stand in the order of
    /// `loads`; a key that `fetch` does not return is answered with nothing.
    pub fn batch<F>(loads: &[K], fetch: F) -> (values: Vec<Option<V>>) where
        F: Fn(&[K]) -> HashMap<K, V>,

        requires
            forall|asked: &[K]| call_requires(fetch, (asked,)),
        ensures
            values@.len() == loads@.len(),
            keys_behave::<K>() ==> answers_batch(values@, loads@, fetch),
    {
        let unique = deduplicate_keys(loads);
        let asked = unique.as_slice();
        let known = fetch(asked);
        answer_each(loads, &known)
    }

    /// The same, and also the distinct keys that `fetch` did not return.
    pub fn batch_with_missing<F>(loads: &[K], fetch: F) -> (result: (
        Vec<Option<V>>,
        Vec<K>,
    )) where F: Fn(&[K]) -> HashMap<K, V>
        requires
            forall|asked: &[K]| call_requires(fetch, (asked,)),
        ensures
            result.0@.len() == loads@.len(),
            keys_behave::<K>() ==> answers_batch_with_missing(
                result.0@,
                result.1@,
                loads@,
                fetch,
            ),
    {
        let unique = deduplicate_keys(loads);
        let asked = unique.as_slice();
        let known = fetch(asked);
        let values = answer_each(loads, &known);
        let mut missing: Vec<K> = Vec::new();
        let ghost unknown = |k: K| !known@.contains_key(k);
        assert(asked@.take(0) =~= Seq::empty());
        let mut i: usize = 0;
        while i < asked.len()
            invariant
                i <= asked@.len(),
                unknown == (|k: K| !known@.contains_key(k)),
                keys_behave::<K>() ==> missing@ == asked@.take(i as int).filter(unknown),
            decreases asked@.len() - i,
        {
            proof {
                assert(asked@.take(i + 1) =~= asked@.take(i as int).push(asked@[i as int]));
                asked@.take(i as int).lemma_filter_push(asked@[i as int], unknown);
            }
            if !known.contains_key(&asked[i]) {
                let key = asked[i].clone();
                assert(cloned(asked@[i as int], key));
                missing.push(key);
            }
            i += 1;
        }
        assert(asked@.take(i as int) =~= asked@);
        (values, missing)
    }
}

/// `DataLoaderBatcher::batch` for callers that do not want to name its type.
pub fn batch_loads<K, V, F>(loads: &[K], fetch: F) -> (values: Vec<Option<V>>) where
    K: Clone + Eq + Hash,
    V: Clone,
    F: Fn(&[K]) -> HashMap<K, V>,

    requires
        forall|asked: &[K]| call_requires(fetch, (asked,)),
    ensures
        values@.len() == loads@.len(),
        keys_behave::<K>() ==> answers_batch(values@, loads@, fetch),
{
    DataLoaderBatcher::<K, V>::batch(loads, fetch)
}

// ---------------------------------------------------------------------------
// Laws
// ---------------------------------------------------------------------------

/// Numbers behave as keys.
pub proof fn numbers_behave_as_keys()
    ensures
        keys_behave::<u64>(),
{
}

/// A batch key is cloned into itself.
pub proof fn batch_keys_are_cloned_into_themselves(a: BatchKey, b: BatchKey)
    requires
        cloned(a, b),
    ensures
        a == b,
{
}

/// The keys handed to a fetch are distinct, and they are the keys asked for.
pub proof fn fetched_keys_are_the_distinct_keys<K>(keys: Seq<K>)
    ensures
        first_occurrences(keys).no_duplicates(),
        forall|k: K|
            #![trigger first_occurrences(keys).contains(k)]
            #![trigger keys.contains(k)]
            first_occurrences(keys).contains(k) <==> keys.contains(k),
        first_occurrences(keys).len() <= keys.len(),
    decreases keys.len(),
{
    if keys.len() > 0 {
        let earlier = keys.drop_last();
        let last = keys.last();
        fetched_keys_are_the_distinct_keys(earlier);
        let before = first_occurrences(earlier);
        assert(keys =~= earlier.push(last));
        assert forall|k: K|
            #![trigger first_occurrences(keys).contains(k)]
            #![trigger keys.contains(k)]
            first_occurrences(keys).contains(k) <==> keys.contains(k) by {
            push_adds_one_element(earlier, last, k);
            push_adds_one_element(before, last, k);
            assert(before.contains(k) <==> earlier.contains(k));
        }
    }
}

proof fn push_adds_one_element<K>(keys: Seq<K>, last: K, k: K)
    ensures
        keys.push(last).contains(k) <==> keys.contains(k) || k == last,
{
    if keys.contains(k) {
        let i = choose|i: int| 0 <= i < keys.len() && keys[i] == k;
        assert(keys.push(last)[i] == k);
    }
    assert(keys.push(last)[keys.len() as int] == last);
}

/// The keys handed to a fetch stand in the order in which they first occur: the
/// keys of a shorter batch come first, in the same order, in the longer one.
pub proof fn fetched_keys_keep_their_order<K>(keys: Seq<K>, n: int)
    requires
        0 <= n <= keys.len(),
    ensures
        first_occurrences(keys.take(n)).is_prefix_of(first_occurrences(keys)),
    decreases keys.len() - n,
{
    if n < keys.len() {
        fetched_keys_keep_their_order(keys, n + 1);
        assert(keys.take(n + 1).drop_last() =~= keys.take(n));
    } else {
        assert(keys.take(n) =~= keys);
    }
}

/// A key is reported missing exactly where its loads are answered with nothing,
/// and each missing key is reported once.
pub proof fn missing_keys_are_the_unanswered_ones<K, V: Clone>(
    values: Seq<Option<V>>,
    keys: Seq<K>,
    known: Map<K, V>,
)
    requires
        answers_each(values, keys, known),
    ensures
        forall|i: int|
            0 <= i < keys.len() ==> ((#[trigger] values[i]) is None <==> unknown_keys(
                first_occurrences(keys),
                known,
            ).contains(keys[i])),
        unknown_keys(first_occurrences(keys), known).no_duplicates(),
{
    let unique = first_occurrences(keys);
    let unknown = |k: K| !known.contains_key(k);
    fetched_keys_are_the_distinct_keys(keys);
    broadcast use vstd::seq_lib::group_filter_ensures;

    assert forall|i: int| 0 <= i < keys.len() implies ((#[trigger] values[i]) is None
        <==> unknown_keys(unique, known).contains(keys[i])) by {
        assert(keys.contains(keys[i]));
        assert(unique.contains(keys[i]));
    }
    filter_keeps_distinct(unique, unknown);
}

proof fn filter_keeps_distinct<K>(keys: Seq<K>, pred: spec_fn(K) -> bool)
    requires
        keys.no_duplicates(),
    ensures
        keys.filter(pred).no_duplicates(),
        forall|k: K| #[trigger] keys.filter(pred).contains(k) ==> keys.contains(k),
    decreases keys.len(),
{
    reveal(Seq::filter);
    if keys.len() > 0 {
        let earlier = keys.drop_last();
        let last = keys.last();
        filter_keeps_distinct(earlier, pred);
        assert(keys =~= earlier.push(last));
        assert forall|k: K| #[trigger] keys.filter(pred).contains(k) implies keys.contains(k) by {
            push_adds_one_element(earlier, last, k);
            push_adds_one_element(earlier.filter(pred), last, k);
            assert(earlier.filter(pred).contains(k) ==> earlier.contains(k));
        }
        assert(!earlier.contains(last)) by {
            if earlier.contains(last) {
                let i = choose|i: int| 0 <= i < earlier.len() && earlier[i] == last;
                assert(keys[i] == keys[keys.len() - 1]);
            }
        }
        assert(!earlier.filter(pred).contains(last));
    }
}

/// Loads of the same key get the same answer, up to cloning of the value.
pub proof fn same_keys_get_the_same_answer<K, V: Clone>(
    values: Seq<Option<V>>,
    keys: Seq<K>,
    known: Map<K, V>,
    i: int,
    j: int,
)
    requires
        answers_each(values, keys, known),
        0 <= i < keys.len(),
        0 <= j < keys.len(),
        keys[i] == keys[j],
    ensures
        values[i] is Some <==> values[j] is Some,
        values[i] is Some ==> cloned(known[keys[i]], values[i]->0) && cloned(
            known[keys[i]],
            values[j]->0,
        ),
{
}

/// Distinct keys are handed to a fetch as they are; so the keys of a fetch, asked for
/// once more, are the same keys.
pub proof fn distinct_keys_are_fetched_as_they_are<K>(keys: Seq<K>)
    ensures
        keys.no_duplicates() ==> first_occurrences(keys) == keys,
        first_occurrences(first_occurrences(keys)) == first_occurrences(keys),
{
    if keys.no_duplicates() {
        first_occurrences_of_distinct(keys);
    }
    fetched_keys_are_the_distinct_keys(keys);
    first_occurrences_of_distinct(first_occurrences(keys));
}

proof fn first_occurrences_of_distinct<K>(keys: Seq<K>)
    requires
        keys.no_duplicates(),
    ensures
        first_occurrences(keys) == keys,
    decreases keys.len(),
{
    if keys.len() > 0 {
        let earlier = keys.drop_last();
        first_occurrences_of_distinct(earlier);
        if earlier.contains(keys.last()) {
            let i = choose|i: int| 0 <= i < earlier.len() && earlier[i] == keys.last();
            assert(keys[i] == keys[keys.len() - 1]);
        }
        assert(earlier.push(keys.last()) =~= keys);
    } else {
        assert(first_occurrences(keys) =~= keys);
    }
}

/// Keys are handed to a fetch in the order in which they are first asked for.
pub proof fn earlier_keys_are_asked_for_first<K>(keys: Seq<K>, a: int, b: int)
    requires
        0 <= a < b < first_occurrences(keys).len(),
    ensures
        comes_first(keys, first_occurrences(keys)[a], first_occurrences(keys)[b]),
    decreases keys.len(),
{
    let earlier = keys.drop_last();
    let before = first_occurrences(earlier);
    let x = first_occurrences(keys)[a];
    let y = first_occurrences(keys)[b];
    fetched_keys_are_the_distinct_keys(earlier);
    if b < before.len() {
        earlier_keys_are_asked_for_first(earlier, a, b);
        let i = choose|i: int|
            {
                &&& 0 <= i < earlier.len()
                &&& #[trigger] earlier[i] == x
                &&& forall|j: int| 0 <= j < earlier.len() && #[trigger] earlier[j] == y ==> i < j
            };
        assert(keys[i] == x);
        assert forall|j: int| 0 <= j < keys.len() && #[trigger] keys[j] == y implies i < j by {
            if j < earlier.len() {
                assert(earlier[j] == y);
            }
        }
    } else {
        assert(before.contains(x));
        assert(earlier.contains(x));
        let i = choose|i: int| 0 <= i < earlier.len() && earlier[i] == x;
        assert(keys[i] == x);
        assert forall|j: int| 0 <= j < keys.len() && #[trigger] keys[j] == y implies i < j by {
            if j < earlier.len() {
                assert(earlier[j] == y);
                assert(earlier.contains(y));
            }
        }
    }
}

/// What a filter leaves stands in the order in which it stood.
proof fn filter_keeps_order<K>(keys: Seq<K>, pred: spec_fn(K) -> bool, a: int, b: int) -> (at: (
    int,
    int,
))
    requires
        0 <= a < b < keys.filter(pred).len(),
    ensures
        0 <= at.0 < at.1 < keys.len(),
        keys[at.0] == keys.filter(pred)[a],
        keys[at.1] == keys.filter(pred)[b],
    decreases keys.len(),
{
    reveal(Seq::filter);
    let earlier = keys.drop_last();
    if b < earlier.filter(pred).len() {
        filter_keeps_order(earlier, pred, a, b)
    } else {
        let left = earlier.filter(pred);
        assert(left.contains(left[a]));
        earlier.lemma_filter_contains_rev(pred, left[a]);
        let i = choose|i: int| 0 <= i < earlier.len() && earlier[i] == left[a];
        (i, keys.len() - 1)
    }
}

/// Values whose clones are the values themselves.
pub open spec fn values_behave<V: Clone>() -> bool {
    forall|a: V, b: V| #[trigger] cloned(a, b) ==> a == b
}

/// A fetch that gives the same answer whenever it is asked for the same keys.
pub open spec fn is_steady<K, V, F: Fn(&[K]) -> HashMap<K, V>>(fetch: F) -> bool {
    forall|a: &[K], b: &[K], x: HashMap<K, V>, y: HashMap<K, V>|
        #[trigger] call_ensures(fetch, (a,), x) && #[trigger] call_ensures(fetch, (b,), y) && a@
            == b@ ==> x@ == y@
}

proof fn answers_are_determined<K, V: Clone>(
    a: Seq<Option<V>>,
    b: Seq<Option<V>>,
    loads: Seq<K>,
    known: Map<K, V>,
)
    requires
        values_behave::<V>(),
        answers_each(a, loads, known),
        answers_each(b, loads, known),
    ensures
        a == b,
{
    assert forall|i: int| 0 <= i < a.len() implies a[i] == b[i] by {
        if known.contains_key(loads[i]) {
            assert(cloned(known[loads[i]], a[i]->0));
            assert(cloned(known[loads[i]], b[i]->0));
        }
    }
    assert(a =~= b);
}

/// For a steady fetch a batch has one answer only: what `batch_loads` gives is what
/// `DataLoaderBatcher::batch` gives for the same loads.
pub proof fn batch_loads_agrees_with_batch<K, V: Clone, F: Fn(&[K]) -> HashMap<K, V>>(
    by_function: Seq<Option<V>>,
    by_batcher: Seq<Option<V>>,
    loads: Seq<K>,
    fetch: F,
)
    requires
        is_steady::<K, V, F>(fetch),
        values_behave::<V>(),
        answers_batch(by_function, loads, fetch),
        answers_batch(by_batcher, loads, fetch),
    ensures
        by_function == by_batcher,
{
    let (a, x) = choose|asked: &[K], known: HashMap<K, V>|
        {
            &&& #[trigger] call_ensures(fetch, (asked,), known)
            &&& asked@ == first_occurrences(loads)
            &&& answers_each(by_function, loads, known@)
        };
    let (b, y) = choose|asked: &[K], known: HashMap<K, V>|
        {
            &&& #[trigger] call_ensures(fetch, (asked,), known)
            &&& asked@ == first_occurrences(loads)
            &&& answers_each(by_batcher, loads, known@)
        };
    assert(x@ == y@);
    answers_are_determined(by_function, by_batcher, loads, x@);
}

/// For a steady fetch the values of `batch_with_missing` are those of `batch`. Its
/// missing keys are the keys of the loads that are answered with nothing, each once
/// and in order of first occurrence.
pub proof fn batch_with_missing_agrees_with_batch<K, V: Clone, F: Fn(&[K]) -> HashMap<K, V>>(
    values: Seq<Option<V>>,
    missing: Seq<K>,
    by_batch: Seq<Option<V>>,
    loads: Seq<K>,
    fetch: F,
)
    requires
        is_steady::<K, V, F>(fetch),
        values_behave::<V>(),
        answers_batch_with_missing(values, missing, loads, fetch),
        answers_batch(by_batch, loads, fetch),
    ensures
        values == by_batch,
        missing.no_duplicates(),
        forall|k: K| #[trigger]
            missing.contains(k) <==> exists|i: int|
                0 <= i < loads.len() && #[trigger] loads[i] == k && values[i] is None,
        forall|a: int, b: int|
            0 <= a < b < missing.len() ==> comes_first(
                loads,
                #[trigger] missing[a],
                #[trigger] missing[b],
            ),
{
    let (a, x) = choose|asked: &[K], known: HashMap<K, V>|
        {
            &&& #[trigger] call_ensures(fetch, (asked,), known)
            &&& asked@ == first_occurrences(loads)
            &&& answers_each(values, loads, known@)
            &&& missing == unknown_keys(asked@, known@)
        };
    let (b, y) = choose|asked: &[K], known: HashMap<K, V>|
        {
            &&& #[trigger] call_ensures(fetch, (asked,), known)
            &&& asked@ == first_occurrences(loads)
            &&& answers_each(by_batch, loads, known@)
        };
    assert(x@ == y@);
    answers_are_determined(values, by_batch, loads, x@);
    missing_keys_are_the_unanswered_ones(values, loads, x@);
    fetched_keys_are_the_distinct_keys(loads);
    let unknown = |k: K| !x@.contains_key(k);
    filter_keeps_distinct(first_occurrences(loads), unknown);
    assert forall|k: K| #[trigger] missing.contains(k) <==> exists|i: int|
        0 <= i < loads.len() && #[trigger] loads[i] == k && values[i] is None by {
        if missing.contains(k) {
            assert(first_occurrences(loads).contains(k));
            let i = choose|i: int| 0 <= i < loads.len() && loads[i] == k;
            assert(loads[i] == k && values[i] is None);
        }
        if exists|i: int| 0 <= i < loads.len() && #[trigger] loads[i] == k && values[i] is None {
            let i = choose|i: int|
                0 <= i < loads.len() && #[trigger] loads[i] == k && values[i] is None;
            assert(missing.contains(loads[i]));
        }
    }
    assert forall|a: int, b: int| 0 <= a < b < missing.len() implies comes_first(
        loads,
        #[trigger] missing[a],
        #[trigger] missing[b],
    ) by {
        let at = filter_keeps_order(first_occurrences(loads), unknown, a, b);
        earlier_keys_are_asked_for_first(loads, at.0, at.1);
    }
}

/// What it takes for keys to behave: that hash maps tell them apart by equality, and that
/// a clone is the key itself.
pub proof fn keys_behave_by_equality<K: Clone>()
    ensures
        keys_behave::<K>() <==> {
            &&& vstd::std_specs::hash::obeys_key_model::<K>()
            &&& forall|a: K, b: K| #[trigger] cloned(a, b) ==> a == b
        },
{
}

/// Each load has an answer of its own at its own position: a clone of the value of its
/// key where that is known, and nothing where it is not.
pub proof fn every_load_is_answered_in_place<K, V: Clone>(
    values: Seq<Option<V>>,
    keys: Seq<K>,
    known: Map<K, V>,
    i: int,
)
    requires
        answers_each(values, keys, known),
    ensures
        values.len() == keys.len(),
        0 <= i < keys.len() && known.dom().contains(keys[i]) ==> values[i] is Some && cloned(
            known[keys[i]],
            values[i]->0,
        ),
        0 <= i < keys.len() && !known.dom().contains(keys[i]) ==> values[i] is None,
{
    if 0 <= i < keys.len() {
        assert(values[i] is Some <==> known.contains_key(keys[i]));
    }
}

/// A batch is answered from one fetch: of the keys that are asked for, each once and in
/// the order in which they are first asked for.
pub proof fn batches_are_answered_from_one_fetch<K, V: Clone, F: Fn(&[K]) -> HashMap<K, V>>(
    values: Seq<Option<V>>,
    loads: Seq<K>,
    fetch: F,
)
    requires
        answers_batch(values, loads, fetch),
    ensures
        values.len() == loads.len(),
        exists|asked: &[K], known: HashMap<K, V>|
            {
                &&& #[trigger] call_ensures(fetch, (asked,), known)
                &&& asked@.no_duplicates()
                &&& forall|k: K| #[trigger] asked@.contains(k) <==> loads.contains(k)
                &&& forall|a: int, b: int|
                    0 <= a < b < asked@.len() ==> comes_first(
                        loads,
                        #[trigger] asked@[a],
                        #[trigger] asked@[b],
                    )
                &&& forall|i: int|
                    0 <= i < loads.len() ==> {
                        &&& (#[trigger] values[i]) is Some <==> known@.dom().contains(loads[i])
                        &&& values[i] is Some ==> cloned(known@[loads[i]], values[i]->0)
                    }
            },
{
    let (asked, known) = choose|asked: &[K], known: HashMap<K, V>|
        {
            &&& #[trigger] call_ensures(fetch, (asked,), known)
            &&& asked@ == first_occurrences(loads)
            &&& answers_each(values, loads, known@)
        };
    fetched_keys_are_the_distinct_keys(loads);
    assert forall|a: int, b: int| 0 <= a < b < asked@.len() implies comes_first(
        loads,
        #[trigger] asked@[a],
        #[trigger] asked@[b],
    ) by {
        earlier_keys_are_asked_for_first(loads, a, b);
    }
    assert(call_ensures(fetch, (asked,), known));
}

/// The keys that are reported missing are those that were asked for and are not known, in
/// the order in which they were asked for.
pub proof fn missing_keys_are_the_unknown_ones<K, V>(unique: Seq<K>, known: Map<K, V>, n: int)
    requires
        0 <= n <= unique.len(),
    ensures
        forall|k: K| #[trigger]
            unknown_keys(unique, known).contains(k) <==> unique.contains(k)
                && !known.dom().contains(k),
        unknown_keys(unique.take(n), known).is_prefix_of(unknown_keys(unique, known)),
        unique.no_duplicates() ==> unknown_keys(unique, known).no_duplicates(),
    decreases unique.len() - n,
{
    let unknown = |k: K| !known.contains_key(k);
    broadcast use vstd::seq_lib::group_filter_ensures;

    if unique.no_duplicates() {
        filter_keeps_distinct(unique, unknown);
    }
    assert forall|k: K| #[trigger] unknown_keys(unique, known).contains(k) <==> unique.contains(k)
        && !known.dom().contains(k) by {
        let left = unique.filter(unknown);
        if left.contains(k) {
            let i = choose|i: int| 0 <= i < left.len() && left[i] == k;
            assert(unknown(left[i]));
            unique.lemma_filter_contains_rev(unknown, k);
        }
        if unique.contains(k) && !known.dom().contains(k) {
            let i = choose|i: int| 0 <= i < unique.len() && unique[i] == k;
            assert(unknown(unique[i]));
            assert(left.contains(unique[i]));
        }
    }
    if n < unique.len() {
        missing_keys_are_the_unknown_ones(unique, known, n + 1);
        assert(unique.take(n + 1) =~= unique.take(n).push(unique[n]));
        unique.take(n).lemma_filter_push(unique[n], unknown);
    } else {
        assert(unique.take(n) =~= unique);
    }
}

} // verus!
