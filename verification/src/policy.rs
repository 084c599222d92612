//! Who is asking, as far as the library needs to know.
use vstd::prelude::*;

verus! {

/// The caller behind a request.
#[derive(Debug, Clone, PartialEq, Eq)]
pub struct Principal {
    /// What kind of caller it is, as it is written into audit records.
    pub kind: String,
    pub id: Option<String>,
    pub is_owner: bool,
}

/// What a request carries besides its document.
#[derive(Debug, Clone, Default, PartialEq, Eq)]
pub struct RequestContext {
    /// The caller, where the request is authenticated.
    pub principal: Option<Principal>,
    /// The project that the caller has selected.
    pub project_id: Option<String>,
}

/// The caller of a request, if there is a request context and it names one.
pub open spec fn caller(context: Option<&RequestContext>) -> Option<Principal> {
    match context {
        Some(request) => request.principal,
        None => None,
    }
}

/// The selected project of a request, if there is a request context and it names
/// one.
pub open spec fn selected_project(context: Option<&RequestContext>) -> Option<String> {
    match context {
        Some(request) => request.project_id,
        None => None,
    }
}

/// The caller and the selected project are those of the request, and a missing request
/// has neither.
pub proof fn requests_name_their_caller(context: Option<&RequestContext>)
    ensures
        context matches Some(request) ==> caller(context) == request.principal
            && selected_project(context) == request.project_id,
        context is None ==> caller(context) is None && selected_project(context) is None,
{
}

} // verus!
