use conduit_admin_graphql::apikey::{
    api_key_access_scope, resolve_apikey_order, APIKey, APIKeyAccessScope, APIKeyOrder,
    APIKeyOrderField, APIKeyOrderSelection, APIKeyOrderTerm, APIKeyServiceError, APIKeyStatus,
    APIKeyType, CreatorLookup,
};
use conduit_admin_graphql::channel::OrderDirection;
use conduit_admin_graphql::edges::NodeEdge;
use conduit_admin_graphql::policy::RequestContext;
use conduit_admin_graphql::scalars::{TimeScalar, ID};

#[test]
fn resolve_apikey_order_remaps_created_at_to_default_id_order() {
    let selection = resolve_apikey_order(Some(APIKeyOrder {
        direction: OrderDirection::Desc,
        field: APIKeyOrderField::CreatedAt,
    }));
    assert_eq!(
        selection,
        Some(APIKeyOrderSelection {
            direction: OrderDirection::Desc,
            term: APIKeyOrderTerm::Id,
        })
    );
}

#[test]
fn resolve_apikey_order_maps_updated_at_one_to_one() {
    let selection = resolve_apikey_order(Some(APIKeyOrder {
        direction: OrderDirection::Asc,
        field: APIKeyOrderField::UpdatedAt,
    }));
    assert_eq!(selection.map(|s| s.term), Some(APIKeyOrderTerm::UpdatedAt));
    assert_eq!(resolve_apikey_order(None), None);
}

fn key(user_id: Option<&str>) -> APIKey {
    APIKey {
        id: ID("1".to_owned()),
        created_at: TimeScalar::default(),
        updated_at: TimeScalar::default(),
        user_id: user_id.map(|id| ID(id.to_owned())),
        project_id: ID("p".to_owned()),
        key: "k".to_owned(),
        name: "n".to_owned(),
        key_type: APIKeyType::User,
        status: APIKeyStatus::Enabled,
        scopes: None,
        profiles: None,
    }
}

#[test]
fn the_creator_is_looked_up_by_identifier() {
    assert_eq!(
        key(Some("u-9")).creator_lookup(),
        Some(CreatorLookup { first: 1, id: ID("u-9".to_owned()) })
    );
    assert_eq!(key(None).creator_lookup(), None);
}

#[test]
fn the_first_present_node_is_the_creator() {
    let edges = vec![
        None,
        Some(NodeEdge { node: None }),
        Some(NodeEdge { node: Some("ada") }),
        Some(NodeEdge { node: Some("bob") }),
    ];
    assert_eq!(APIKey::creator(Some(edges)), Some("ada"));
    assert_eq!(APIKey::creator::<&str>(Some(vec![None, Some(NodeEdge { node: None })])), None);
    assert_eq!(APIKey::creator::<&str>(None), None);
}

#[test]
fn api_keys_need_a_selected_project() {
    let context = RequestContext { principal: None, project_id: Some("p-1".to_owned()) };
    assert_eq!(
        api_key_access_scope(Some(&context)),
        Ok(APIKeyAccessScope { project_id: "p-1".to_owned() })
    );
    for missing in [None, Some(&RequestContext::default())] {
        assert_eq!(
            api_key_access_scope(missing),
            Err("current project is required; send X-Project-ID".to_owned())
        );
    }
}

#[test]
fn api_key_errors_read_as_promised() {
    let x = || "x".to_owned();
    for (error, text) in [
        (APIKeyServiceError::ServiceUnavailable, "api key service is not available"),
        (APIKeyServiceError::DuplicateName(x()), "API Key name 'x' already exists"),
        (APIKeyServiceError::NoauthReserved, "noauth type API key is reserved"),
        (APIKeyServiceError::NoauthNotUpdatable, "noauth type API key cannot be updated"),
        (
            APIKeyServiceError::NoauthStatusNotUpdatable,
            "noauth type API key status cannot be updated",
        ),
        (APIKeyServiceError::NoauthNotRotatable, "noauth type API key cannot be rotated"),
        (APIKeyServiceError::UserTypeScopesImmutable, "user type API key cannot update scopes"),
        (APIKeyServiceError::NotFound, "ent: apikey not found"),
        (APIKeyServiceError::Create(x()), "failed to create API key: x"),
        (APIKeyServiceError::Update(x()), "failed to update API key: x"),
        (APIKeyServiceError::UpdateStatus(x()), "failed to update API key status: x"),
        (APIKeyServiceError::Rotate(x()), "failed to rotate API key: x"),
        (APIKeyServiceError::Query(x()), "failed to query API keys: x"),
        (
            APIKeyServiceError::BulkUpdate("disable".to_owned(), x()),
            "failed to bulk disable API keys: x",
        ),
        (
            APIKeyServiceError::NoauthProfilesNotUpdatable,
            "noauth type API key profiles cannot be updated",
        ),
        (APIKeyServiceError::UpdateProfiles(x()), "failed to update API key profiles: x"),
        (APIKeyServiceError::ProfileNameEmpty, "profile name cannot be empty"),
        (APIKeyServiceError::DuplicateProfileName(x()), "duplicate profile name: x"),
        (
            APIKeyServiceError::ActiveProfileMissing(x()),
            "active profile 'x' does not exist in the profiles list",
        ),
    ] {
        assert_eq!(error.message(), text);
    }
}
