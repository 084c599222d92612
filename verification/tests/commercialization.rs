use conduit_admin_graphql::channel::ModelMapping;
use conduit_admin_graphql::commercialization::{
    build_channel_model_mapping_preview, merge_channel_model_mappings, ChannelModelMappingAction,
    CommercializationError,
};
use conduit_admin_graphql::scalars::ID;

fn mapping(from: &str, to: &str) -> ModelMapping {
    ModelMapping {
        from: from.into(),
        to: to.into(),
    }
}

#[test]
fn preview_classifies_create_skip_and_conflict() {
    let preview = build_channel_model_mapping_preview(
        ID("channel-1".into()),
        "v1".into(),
        &[mapping("same", "up-a"), mapping("conflict", "old")],
        &[
            ("same".into(), "up-a".into()),
            ("new".into(), "up-b".into()),
            ("conflict".into(), "up-c".into()),
        ],
    );
    assert_eq!(preview.create_count, 1);
    assert_eq!(preview.skip_count, 1);
    assert_eq!(preview.conflict_count, 1);
}

#[test]
fn merge_preserves_unrelated_and_requires_conflict_confirmation() {
    let existing = vec![mapping("unrelated", "keep"), mapping("sku", "old")];
    let preview = build_channel_model_mapping_preview(
        ID("channel-1".into()),
        "v1".into(),
        &existing,
        &[
            ("sku".into(), "new".into()),
            ("added".into(), "target".into()),
        ],
    );
    let safe = merge_channel_model_mappings(&existing, &preview, false);
    assert_eq!(
        safe,
        vec![
            mapping("unrelated", "keep"),
            mapping("sku", "old"),
            mapping("added", "target")
        ]
    );
    let replaced = merge_channel_model_mappings(&existing, &preview, true);
    assert_eq!(
        replaced,
        vec![
            mapping("unrelated", "keep"),
            mapping("sku", "new"),
            mapping("added", "target")
        ]
    );
}

fn routes(list: &[(&str, &str)]) -> Vec<(String, String)> {
    list.iter().map(|(from, to)| ((*from).to_owned(), (*to).to_owned())).collect()
}

#[test]
fn previews_say_what_would_change() {
    let preview = build_channel_model_mapping_preview(
        ID("c".to_owned()),
        "v2".to_owned(),
        &[mapping("b", "old"), mapping("a", "x")],
        &routes(&[("b", "new"), ("a", "x"), ("c", "y")]),
    );
    assert_eq!(preview.channel_id, ID("c".to_owned()));
    assert_eq!(preview.expected_version, "v2");
    let rows: Vec<(&str, Option<&str>, &str, ChannelModelMappingAction)> = preview
        .entries
        .iter()
        .map(|row| {
            (row.from.as_str(), row.previous_to.as_deref(), row.to.as_str(), row.action)
        })
        .collect();
    assert_eq!(
        rows,
        vec![
            ("a", Some("x"), "x", ChannelModelMappingAction::Skip),
            ("b", Some("old"), "new", ChannelModelMappingAction::Conflict),
            ("c", None, "y", ChannelModelMappingAction::Create),
        ]
    );
    assert_eq!(
        preview.create_count + preview.skip_count + preview.conflict_count,
        preview.entries.len() as i32
    );
}

#[test]
fn a_merge_that_replaces_settles_every_route() {
    let existing = vec![mapping("a", "old"), mapping("z", "keep")];
    let routed = routes(&[("a", "new"), ("m", "added")]);
    let preview = build_channel_model_mapping_preview(
        ID("c".to_owned()),
        "v".to_owned(),
        &existing,
        &routed,
    );
    let merged = merge_channel_model_mappings(&existing, &preview, true);
    let again = build_channel_model_mapping_preview(
        ID("c".to_owned()),
        "v".to_owned(),
        &merged,
        &routed,
    );
    assert_eq!(again.skip_count, 2);
    assert_eq!(again.create_count, 0);
    assert_eq!(again.conflict_count, 0);
    assert_eq!(merge_channel_model_mappings(&merged, &again, true), merged);
}

#[test]
fn an_empty_preview_changes_nothing() {
    let existing = vec![mapping("a", "x"), mapping("a", "y")];
    let preview =
        build_channel_model_mapping_preview(ID("c".to_owned()), "v".to_owned(), &existing, &[]);
    assert_eq!(preview.entries.len(), 0);
    assert_eq!(merge_channel_model_mappings(&existing, &preview, true), existing);
}

#[test]
fn commercialization_errors_read_as_promised() {
    assert_eq!(
        CommercializationError::Unavailable.message(),
        "commercialization service is unavailable"
    );
    assert_eq!(
        CommercializationError::NotFound("x".to_owned()).message(),
        "commercialization object not found: x"
    );
    assert_eq!(
        CommercializationError::Invalid("x".to_owned()).message(),
        "invalid commercialization input: x"
    );
    assert_eq!(
        CommercializationError::Storage("x".to_owned()).message(),
        "commercialization operation failed: x"
    );
}

#[test]
fn a_second_merge_of_the_same_routes_changes_nothing() {
    let existing = vec![mapping("a", "x"), mapping("b", "k"), mapping("a", "y")];
    let routed = routes(&[("a", "z"), ("b", "k"), ("c", "new")]);
    for replace in [false, true] {
        let first = build_channel_model_mapping_preview(
            ID("c".to_owned()),
            "v".to_owned(),
            &existing,
            &routed,
        );
        let merged = merge_channel_model_mappings(&existing, &first, replace);
        let second = build_channel_model_mapping_preview(
            ID("c".to_owned()),
            "v".to_owned(),
            &merged,
            &routed,
        );
        assert_eq!(second.create_count, 0, "{replace}");
        assert_eq!(second.conflict_count, 1, "{replace}");
        assert_eq!(merge_channel_model_mappings(&merged, &second, replace), merged, "{replace}");
    }
}
