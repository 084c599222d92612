use std::cell::RefCell;
use std::collections::HashMap;
use std::rc::Rc;

use conduit_admin_graphql::dataloader::{
    batch_loads, deduplicate_keys, load_batch, BatchKey, BatchLoader, DataLoaderBatcher,
};

#[derive(Default)]
struct RecordingLoader {
    responses: HashMap<BatchKey, String>,
    calls: RefCell<Vec<Vec<BatchKey>>>,
}

impl RecordingLoader {
    fn with_response(mut self, key: BatchKey, value: impl Into<String>) -> Self {
        self.responses.insert(key, value.into());
        self
    }
}

impl BatchLoader for RecordingLoader {
    type Key = BatchKey;
    type Value = String;

    fn load_unique(&self, keys: &[Self::Key]) -> HashMap<Self::Key, Self::Value> {
        self.calls.borrow_mut().push(keys.to_vec());

        keys.iter()
            .filter_map(|key| {
                self.responses
                    .get(key)
                    .map(|value| (key.clone(), value.clone()))
            })
            .collect()
    }
}

#[test]
fn batch_loader_deduplicates_repeated_keys_before_loading() {
    let user_key = BatchKey::User {
        user_id: "user-1".to_owned(),
    };
    let project_edge_key = BatchKey::UserProjects {
        user_id: "user-1".to_owned(),
    };
    let loader = RecordingLoader::default()
        .with_response(user_key.clone(), "user")
        .with_response(project_edge_key.clone(), "projects");

    let values = load_batch(
        &loader,
        &[
            user_key.clone(),
            project_edge_key.clone(),
            user_key.clone(),
            project_edge_key.clone(),
        ],
    );

    assert_eq!(
        loader.calls.borrow().as_slice(),
        &[vec![user_key.clone(), project_edge_key.clone()]]
    );
    assert_eq!(
        values,
        vec![
            Some("user".to_owned()),
            Some("projects".to_owned()),
            Some("user".to_owned()),
            Some("projects".to_owned())
        ]
    );
}

#[test]
fn batch_loader_preserves_request_order() {
    let keys = vec![
        BatchKey::Model {
            model_id: "model-2".to_owned(),
        },
        BatchKey::ProjectChannels {
            project_id: "project-1".to_owned(),
        },
        BatchKey::ChannelModels {
            channel_id: "channel-9".to_owned(),
        },
    ];
    let loader = RecordingLoader::default()
        .with_response(keys[0].clone(), "model")
        .with_response(keys[1].clone(), "channels")
        .with_response(keys[2].clone(), "models");

    let values = load_batch(&loader, &keys);

    assert_eq!(
        values,
        vec![
            Some("model".to_owned()),
            Some("channels".to_owned()),
            Some("models".to_owned())
        ]
    );
}

#[test]
fn batch_loader_returns_none_for_missing_items() {
    let request_key = BatchKey::Request {
        request_id: "request-3".to_owned(),
    };
    let missing_edge_key = BatchKey::ModelRequests {
        model_id: "model-missing".to_owned(),
    };
    let user_requests_key = BatchKey::UserRequests {
        user_id: "user-1".to_owned(),
    };
    let loader = RecordingLoader::default()
        .with_response(request_key.clone(), "request")
        .with_response(user_requests_key.clone(), "requests");

    let values = load_batch(
        &loader,
        &[
            request_key.clone(),
            missing_edge_key.clone(),
            user_requests_key.clone(),
        ],
    );

    assert_eq!(
        values,
        vec![
            Some("request".to_owned()),
            None,
            Some("requests".to_owned())
        ]
    );
}


#[allow(clippy::type_complexity)]
fn recorder(
    responses: HashMap<String, String>,
) -> (
    impl Fn(&[String]) -> HashMap<String, String>,
    Rc<RefCell<Vec<Vec<String>>>>,
) {
    let calls = Rc::new(RefCell::new(Vec::<Vec<String>>::new()));
    let calls_clone = calls.clone();
    let fetch = move |keys: &[String]| -> HashMap<String, String> {
        calls_clone.borrow_mut().push(keys.to_vec());
        keys.iter()
            .filter_map(|k| responses.get(k).map(|v| (k.clone(), v.clone())))
            .collect()
    };
    (fetch, calls)
}

#[test]
fn dataloader_batcher_dedupes_keys_before_calling_fetch() {
    let responses: HashMap<String, String> = [("user-1".to_owned(), "Alice".to_owned())]
        .into_iter()
        .collect();
    let (fetch, calls) = recorder(responses);

    let loads = vec![
        "user-1".to_owned(),
        "user-1".to_owned(),
        "user-1".to_owned(),
    ];
    let values = DataLoaderBatcher::<String, String>::batch(&loads, fetch);

    assert_eq!(
        calls.borrow().as_slice(),
        &[vec!["user-1".to_owned()]],
        "fetch should be called once with the deduped key set"
    );
    assert_eq!(
        values,
        vec![
            Some("Alice".to_owned()),
            Some("Alice".to_owned()),
            Some("Alice".to_owned())
        ]
    );
}

#[test]
fn dataloader_batcher_preserves_input_order_in_output() {
    let responses: HashMap<String, String> = [
        ("model-2".to_owned(), "M2".to_owned()),
        ("project-1".to_owned(), "P1".to_owned()),
        ("channel-9".to_owned(), "C9".to_owned()),
    ]
    .into_iter()
    .collect();
    let (fetch, _calls) = recorder(responses);

    let loads = vec![
        "model-2".to_owned(),
        "project-1".to_owned(),
        "channel-9".to_owned(),
    ];
    let values = DataLoaderBatcher::<String, String>::batch(&loads, fetch);

    assert_eq!(
        values,
        vec![
            Some("M2".to_owned()),
            Some("P1".to_owned()),
            Some("C9".to_owned())
        ]
    );
}

#[test]
fn dataloader_batcher_surfaces_missing_keys_as_none() {
    let responses: HashMap<String, String> = [
        ("user-1".to_owned(), "Alice".to_owned()),
        ("user-3".to_owned(), "Carol".to_owned()),
    ]
    .into_iter()
    .collect();
    let (fetch, _calls) = recorder(responses);

    let loads = vec![
        "user-1".to_owned(),
        "user-2".to_owned(),
        "user-3".to_owned(),
    ];
    let values = DataLoaderBatcher::<String, String>::batch(&loads, fetch);

    assert_eq!(
        values,
        vec![Some("Alice".to_owned()), None, Some("Carol".to_owned())]
    );
}

#[test]
fn dataloader_batcher_with_missing_reports_missing_keys() {
    let responses: HashMap<String, String> = [("present".to_owned(), "v".to_owned())]
        .into_iter()
        .collect();
    let (fetch, _calls) = recorder(responses);

    let loads = vec![
        "present".to_owned(),
        "absent-a".to_owned(),
        "absent-b".to_owned(),
        "absent-a".to_owned(),
    ];
    let (values, missing) =
        DataLoaderBatcher::<String, String>::batch_with_missing(&loads, fetch);

    assert_eq!(values, vec![Some("v".to_owned()), None, None, None]);
    assert_eq!(missing.len(), 2);
    assert!(missing.contains(&"absent-a".to_owned()));
    assert!(missing.contains(&"absent-b".to_owned()));
}

#[test]
fn dataloader_batcher_handles_empty_load_set() {
    let (fetch, calls) = recorder(HashMap::new());

    let values = DataLoaderBatcher::<String, String>::batch(&[], fetch);

    assert!(values.is_empty());
    assert_eq!(calls.borrow().as_slice(), &[Vec::<String>::new()]);
}

#[test]
fn dataloader_batcher_preserves_order_with_mixed_hits_and_misses() {
    let responses: HashMap<String, String> = [
        ("u-1".to_owned(), "u1".to_owned()),
        ("u-3".to_owned(), "u3".to_owned()),
        ("u-5".to_owned(), "u5".to_owned()),
    ]
    .into_iter()
    .collect();
    let (fetch, _calls) = recorder(responses);

    let loads = vec![
        "u-1".to_owned(),
        "u-2".to_owned(),
        "u-3".to_owned(),
        "u-1".to_owned(),
        "u-4".to_owned(),
        "u-5".to_owned(),
    ];
    let values = DataLoaderBatcher::<String, String>::batch(&loads, fetch);

    assert_eq!(
        values,
        vec![
            Some("u1".to_owned()),
            None,
            Some("u3".to_owned()),
            Some("u1".to_owned()),
            None,
            Some("u5".to_owned())
        ]
    );
}

#[test]
fn batch_loads_answers_like_the_batcher() {
    let (fetch, calls) = recorder(HashMap::from([("b".to_owned(), "B".to_owned())]));
    let loads = vec!["b".to_owned(), "a".to_owned(), "b".to_owned()];
    let values = batch_loads(&loads, fetch);
    assert_eq!(values, vec![Some("B".to_owned()), None, Some("B".to_owned())]);
    assert_eq!(calls.borrow().as_slice(), &[vec!["b".to_owned(), "a".to_owned()]]);
}

#[test]
fn missing_keys_come_in_order_of_first_occurrence() {
    let loads: Vec<u64> = vec![9, 4, 7, 4, 9, 1];
    let (values, missing) = DataLoaderBatcher::<u64, u64>::batch_with_missing(&loads, |keys| {
        assert_eq!(keys, &[9, 4, 7, 1]);
        HashMap::from([(7, 70)])
    });
    assert_eq!(values, vec![None, None, Some(70), None, None, None]);
    assert_eq!(missing, vec![9, 4, 1]);
}

#[test]
fn batchers_hold_nothing() {
    let batcher: DataLoaderBatcher<u64, u64> = DataLoaderBatcher::default();
    let copy = batcher;
    assert_eq!(format!("{:?}", batcher.clone()), format!("{:?}", copy));
}

#[test]
fn the_keys_of_a_fetch_are_fetched_as_they_are() {
    let (fetch, calls) = recorder(HashMap::new());
    let loads: Vec<String> = ["b", "a", "b", "c", "a"].iter().map(|k| (*k).to_owned()).collect();
    batch_loads(&loads, &fetch);
    let asked = calls.borrow()[0].clone();
    batch_loads(&asked, &fetch);
    assert_eq!(asked, vec!["b", "a", "c"]);
    assert_eq!(calls.borrow()[1], asked);
}

#[test]
fn all_forms_of_a_batch_agree() {
    let fetch = |keys: &[u64]| -> HashMap<u64, u64> {
        keys.iter().filter(|key| **key % 2 == 0).map(|key| (*key, key * 10)).collect()
    };
    let loads: Vec<u64> = vec![3, 2, 3, 8, 1, 2];
    let values = DataLoaderBatcher::<u64, u64>::batch(&loads, fetch);
    let (with_missing, missing) = DataLoaderBatcher::<u64, u64>::batch_with_missing(&loads, fetch);
    assert_eq!(values, vec![None, Some(20), None, Some(80), None, Some(20)]);
    assert_eq!(batch_loads(&loads, fetch), values);
    assert_eq!(with_missing, values);
    assert_eq!(missing, vec![3, 1]);
}

#[test]
fn distinct_keys_stand_in_order_of_first_occurrence() {
    let unique = deduplicate_keys(&[5_u64, 1, 5, 9, 1, 5]);
    assert_eq!(unique, vec![5, 1, 9]);
    assert_eq!(deduplicate_keys(&unique), unique);
    assert_eq!(deduplicate_keys::<u64>(&[]), Vec::<u64>::new());
}

#[test]
fn batch_keys_clone_into_themselves() {
    let id = || "1".to_owned();
    for key in [
        BatchKey::User { user_id: id() },
        BatchKey::Project { project_id: id() },
        BatchKey::Channel { channel_id: id() },
        BatchKey::Model { model_id: id() },
        BatchKey::Request { request_id: id() },
        BatchKey::UserProjects { user_id: id() },
        BatchKey::ProjectChannels { project_id: id() },
        BatchKey::ChannelModels { channel_id: id() },
        BatchKey::ModelRequests { model_id: id() },
        BatchKey::UserRequests { user_id: id() },
    ] {
        assert_eq!(key.clone(), key);
    }
}
