//! Strict inputs: an input object may only hold the fields that its type
//! declares.
use vstd::prelude::*;

use crate::dataloader::first_occurrences;
use crate::text::{has_text, joined3, same_text, texts};

verus! {

/// The fields of `AdminCreateUserInput`, as clients write them.
pub const ADMIN_CREATE_USER_INPUT_FIELDS: [&'static str; 3] = [
    "username",
    "displayName",
    "enabled",
];

/// What an administrator gives to create a user.
#[derive(Debug, Clone, PartialEq, Eq)]
pub struct AdminCreateUserInput {
    pub username: String,
    pub display_name: Option<String>,
    pub enabled: Option<bool>,
}

/// The texts of a list of string slices.
pub open spec fn slices(list: Seq<&str>) -> Seq<Seq<char>> {
    list.map_values(|s: &str| s@)
}

/// The keys that are not known, each where it first occurs.
pub open spec fn unknown_fields(
    input_keys: Seq<Seq<char>>,
    known_keys: Seq<Seq<char>>,
) -> Seq<Seq<char>> {
    first_occurrences(input_keys.filter(|k: Seq<char>| !known_keys.contains(k)))
}

fn holds_slice(list: &[&str], text: &str) -> (found: bool)
    ensures
        found == slices(list@).contains(text@),
{
    let mut i: usize = 0;
    while i < list.len()
        invariant
            i <= list@.len(),
            forall|j: int| 0 <= j < i ==> #[trigger] slices(list@)[j] != text@,
        decreases list@.len() - i,
    {
        if same_text(list[i], text) {
            assert(slices(list@)[i as int] == text@);
            return true;
        }
        i += 1;
    }
    false
}

/// Accepts an input whose keys are all known; otherwise reports every unknown
/// key once, in order of first occurrence.
pub fn reject_unknown_fields(input_keys: &[&str], known_keys: &[&str]) -> (result: Result<
    (),
    Vec<String>,
>)
    ensures
        result is Ok <==> forall|i: int|
            0 <= i < input_keys@.len() ==> slices(known_keys@).contains(
                #[trigger] slices(input_keys@)[i],
            ),
        result matches Err(unknown) ==> texts(unknown@) == unknown_fields(
            slices(input_keys@),
            slices(known_keys@),
        ),
{
    let ghost stray = |k: Seq<char>| !slices(known_keys@).contains(k);
    let ghost keys = slices(input_keys@);
    let mut unknown: Vec<String> = Vec::new();
    let mut i: usize = 0;
    proof {
        assert(keys.take(0) =~= Seq::empty());
        assert(keys.take(0).filter(stray) =~= Seq::empty()) by {
            reveal(Seq::filter);
        }
        assert(texts(unknown@) =~= Seq::empty());
    }
    while i < input_keys.len()
        invariant
            i <= input_keys@.len(),
            keys == slices(input_keys@),
            stray == (|k: Seq<char>| !slices(known_keys@).contains(k)),
            texts(unknown@) == first_occurrences(keys.take(i as int).filter(stray)),
            unknown@.len() == 0 <==> forall|j: int|
                0 <= j < i ==> slices(known_keys@).contains(#[trigger] slices(input_keys@)[j]),
        decreases input_keys@.len() - i,
    {
        let key = input_keys[i];
        proof {
            assert(keys[i as int] == key@);
            assert(keys.take(i + 1) =~= keys.take(i as int).push(key@));
            keys.take(i as int).lemma_filter_push(key@, stray);
        }
        if !holds_slice(known_keys, key) {
            let ghost earlier = keys.take(i as int).filter(stray);
            assert(earlier.push(key@).drop_last() =~= earlier);
            assert(earlier.push(key@).last() == key@);
            if !has_text(&unknown, key) {
                let ghost before = texts(unknown@);
                unknown.push(key.to_owned());
                assert(texts(unknown@) =~= before.push(key@));
            } else {
                assert(texts(unknown@).len() > 0);
            }
            assert(!slices(known_keys@).contains(slices(input_keys@)[i as int]));
        }
        i += 1;
    }
    assert(keys.take(i as int) =~= keys);
    if unknown.len() == 0 {
        Ok(())
    } else {
        Err(unknown)
    }
}

/// The refusal of an input with an unknown field.
pub open spec fn unknown_field_text(field: Seq<char>) -> Seq<char> {
    "unknown field \""@ + field + "\""@
}

/// Checks the keys of an input object against the fields of
/// `AdminCreateUserInput`. An input that is no object has no keys and passes;
/// otherwise the first unknown field is reported.
pub fn reject_unknown_admin_create_user_input_fields(keys: Option<&[&str]>) -> (result: Result<
    (),
    String,
>)
    ensures
        keys is None ==> result is Ok,
        keys matches Some(list) ==> ({
            let unknown = unknown_fields(
                slices(list@),
                slices(ADMIN_CREATE_USER_INPUT_FIELDS@),
            );
            &&& result is Ok <==> unknown.len() == 0
            &&& result matches Err(refusal) ==> refusal@ == unknown_field_text(unknown[0])
        }),
{
    let list = match keys {
        None => {
            return Ok(());
        },
        Some(list) => list,
    };
    let known = ADMIN_CREATE_USER_INPUT_FIELDS;
    match reject_unknown_fields(list, known.as_slice()) {
        Ok(()) => {
            proof {
                accepted_means_nothing_unknown(slices(list@), slices(known@));
            }
            Ok(())
        },
        Err(unknown) => {
            proof {
                accepted_means_nothing_unknown(slices(list@), slices(known@));
                assert(texts(unknown@)[0] == unknown@[0]@);
            }
            Err(joined3("unknown field \"", unknown[0].as_str(), "\""))
        },
    }
}

// ---------------------------------------------------------------------------
// Laws
// ---------------------------------------------------------------------------

/// Nothing is reported exactly when every key is known.
pub proof fn accepted_means_nothing_unknown(
    input_keys: Seq<Seq<char>>,
    known_keys: Seq<Seq<char>>,
)
    ensures
        unknown_fields(input_keys, known_keys).len() == 0 <==> forall|i: int|
            0 <= i < input_keys.len() ==> known_keys.contains(#[trigger] input_keys[i]),
{
    reported_fields_are_the_unknown_ones(input_keys, known_keys);
    let unknown = unknown_fields(input_keys, known_keys);
    if unknown.len() == 0 {
        assert forall|i: int| 0 <= i < input_keys.len() implies known_keys.contains(
            #[trigger] input_keys[i],
        ) by {
            assert(input_keys.contains(input_keys[i]));
            assert(!unknown.contains(input_keys[i]));
        }
    } else {
        assert(unknown.contains(unknown[0]));
        let i = choose|i: int| 0 <= i < input_keys.len() && input_keys[i] == unknown[0];
        assert(!known_keys.contains(input_keys[i]));
    }
}

/// The reported fields are the keys of the input that are not known, each once.
pub proof fn reported_fields_are_the_unknown_ones(
    input_keys: Seq<Seq<char>>,
    known_keys: Seq<Seq<char>>,
)
    ensures
        unknown_fields(input_keys, known_keys).no_duplicates(),
        forall|k: Seq<char>|
            #[trigger] unknown_fields(input_keys, known_keys).contains(k) <==> (
            input_keys.contains(k) && !known_keys.contains(k)),
{
    let stray = |k: Seq<char>| !known_keys.contains(k);
    let left = input_keys.filter(stray);
    crate::dataloader::fetched_keys_are_the_distinct_keys(left);
    broadcast use vstd::seq_lib::group_filter_ensures;

    assert forall|k: Seq<char>|
        #[trigger] unknown_fields(input_keys, known_keys).contains(k) <==> (input_keys.contains(k)
            && !known_keys.contains(k)) by {
        assert(left.contains(k) <==> first_occurrences(left).contains(k));
        if left.contains(k) {
            let i = choose|i: int| 0 <= i < left.len() && left[i] == k;
            assert(stray(left[i]));
            input_keys.lemma_filter_contains_rev(stray, k);
        }
        if input_keys.contains(k) && !known_keys.contains(k) {
            let i = choose|i: int| 0 <= i < input_keys.len() && input_keys[i] == k;
            assert(stray(input_keys[i]));
            assert(left.contains(input_keys[i]));
        }
    }
}

/// Unknown fields are reported in the order in which they first occur: those of the first
/// keys of an input come first among those of the whole input.
pub proof fn unknown_fields_keep_their_order(
    input_keys: Seq<Seq<char>>,
    known_keys: Seq<Seq<char>>,
    n: int,
)
    requires
        0 <= n <= input_keys.len(),
    ensures
        unknown_fields(input_keys.take(n), known_keys).is_prefix_of(
            unknown_fields(input_keys, known_keys),
        ),
    decreases input_keys.len() - n,
{
    let stray = |k: Seq<char>| !known_keys.contains(k);
    if n < input_keys.len() {
        unknown_fields_keep_their_order(input_keys, known_keys, n + 1);
        let shorter = input_keys.take(n).filter(stray);
        assert(input_keys.take(n + 1) =~= input_keys.take(n).push(input_keys[n]));
        input_keys.take(n).lemma_filter_push(input_keys[n], stray);
        assert(shorter.push(input_keys[n]).drop_last() =~= shorter);
    } else {
        assert(input_keys.take(n) =~= input_keys);
    }
}

/// The field that is reported first is the first key that is not known.
pub proof fn the_first_unknown_field_is_reported(
    input_keys: Seq<Seq<char>>,
    known_keys: Seq<Seq<char>>,
    n: int,
)
    requires
        0 <= n < input_keys.len(),
        !known_keys.contains(input_keys[n]),
        forall|i: int| 0 <= i < n ==> known_keys.contains(#[trigger] input_keys[i]),
    ensures
        unknown_fields(input_keys, known_keys).len() > 0,
        unknown_fields(input_keys, known_keys)[0] == input_keys[n],
{
    let sooner = input_keys.take(n);
    let upto = input_keys.take(n + 1);
    assert forall|i: int| 0 <= i < sooner.len() implies known_keys.contains(#[trigger] sooner[i]) by {
        assert(sooner[i] == input_keys[i]);
    }
    accepted_means_nothing_unknown(sooner, known_keys);
    let stray = |k: Seq<char>| !known_keys.contains(k);
    assert(upto =~= sooner.push(input_keys[n]));
    unknown_fields_keep_their_order(input_keys, known_keys, n + 1);
    reported_fields_are_the_unknown_ones(upto, known_keys);
    assert(upto[n] == input_keys[n]);
    assert(upto.contains(input_keys[n]));
    let reported = unknown_fields(upto, known_keys);
    assert(reported.contains(input_keys[n]));
    assert(reported.contains(reported[0]));
    assert(upto.contains(reported[0]) && !known_keys.contains(reported[0]));
    let i = choose|i: int| 0 <= i < upto.len() && upto[i] == reported[0];
    if i < n {
        assert(sooner[i] == reported[0]);
        assert(known_keys.contains(sooner[i]));
    }
}

/// Whether a text is a field of `AdminCreateUserInput`.
pub open spec fn is_admin_create_user_field(field: Seq<char>) -> bool {
    field == "username"@ || field == "displayName"@ || field == "enabled"@
}

/// A user may be created from a user name, a display name and a flag; the first key that
/// is none of these is reported by name.
pub proof fn users_are_created_from_three_fields(
    keys: Seq<&str>,
    result: Result<(), String>,
    n: int,
)
    requires
        ({
            let unknown = unknown_fields(slices(keys), slices(ADMIN_CREATE_USER_INPUT_FIELDS@));
            &&& result is Ok <==> unknown.len() == 0
            &&& result matches Err(refusal) ==> refusal@ == unknown_field_text(unknown[0])
        }),
    ensures
        result is Ok <==> forall|i: int|
            0 <= i < keys.len() ==> is_admin_create_user_field((#[trigger] keys[i])@),
        0 <= n < keys.len() && !is_admin_create_user_field(keys[n]@) && (forall|i: int|
            0 <= i < n ==> is_admin_create_user_field((#[trigger] keys[i])@)) ==> result is Err
            && result->Err_0@ == "unknown field \""@ + keys[n]@ + "\""@,
{
    let names = slices(ADMIN_CREATE_USER_INPUT_FIELDS@);
    let given = slices(keys);
    assert(names[0] == "username"@);
    assert(names[1] == "displayName"@);
    assert(names[2] == "enabled"@);
    assert forall|field: Seq<char>| #[trigger] names.contains(field) == is_admin_create_user_field(
        field,
    ) by {
        if names.contains(field) {
            let i = choose|i: int| 0 <= i < names.len() && names[i] == field;
            assert(i == 0 || i == 1 || i == 2);
        }
    }
    assert forall|i: int| 0 <= i < keys.len() implies #[trigger] given[i] == keys[i]@ by {}
    accepted_means_nothing_unknown(given, names);
    if result is Ok {
        assert forall|i: int| 0 <= i < keys.len() implies is_admin_create_user_field(
            (#[trigger] keys[i])@,
        ) by {
            assert(names.contains(given[i]));
        }
    }
    if forall|i: int| 0 <= i < keys.len() ==> is_admin_create_user_field((#[trigger] keys[i])@) {
        assert forall|i: int| 0 <= i < given.len() implies names.contains(#[trigger] given[i]) by {
            assert(is_admin_create_user_field(keys[i]@));
        }
    }
    if 0 <= n < keys.len() && !is_admin_create_user_field(keys[n]@) && (forall|i: int|
        0 <= i < n ==> is_admin_create_user_field((#[trigger] keys[i])@)) {
        assert forall|i: int| 0 <= i < n implies names.contains(#[trigger] given[i]) by {
            assert(is_admin_create_user_field(keys[i]@));
        }
        assert(given[n] == keys[n]@);
        the_first_unknown_field_is_reported(given, names, n);
    }
}

} // verus!
