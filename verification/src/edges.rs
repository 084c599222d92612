//! Edges between objects: which rows an edge asks for, and which part of the
//! answer it takes.
use vstd::prelude::*;

use crate::channel::{Channel, ChannelCredentials, DisabledAPIKey};
use crate::channel_queries::{cursor_string, cursor_text, ChannelSensitiveFields};
use crate::data_storage::DataStorage;
use crate::scalars::{CursorScalar, ID};

verus! {

/// An edge of a connection, with the node that it leads to.
#[derive(Debug, Clone, PartialEq, Eq)]
pub struct NodeEdge<T> {
    pub node: Option<T>,
}

/// The first node that is present in a list of edges.
pub open spec fn present_node<T>(edges: Seq<Option<NodeEdge<T>>>) -> Option<T>
    decreases edges.len(),
{
    if edges.len() == 0 {
        None
    } else {
        match edges[0] {
            Some(NodeEdge { node: Some(node) }) => Some(node),
            _ => present_node(edges.drop_first()),
        }
    }
}

/// The first node that is present in a list of edges.
pub fn first_of<T>(edges: Vec<Option<NodeEdge<T>>>) -> (node: Option<T>)
    ensures
        node == present_node(edges@),
{
    let ghost all = edges@;
    assert(all.skip(0) =~= all);
    for edge in it: edges
        invariant
            it.seq() == all,
            present_node(all) == present_node(all.skip(it.index())),
    {
        assert(all.skip(it.index()).drop_first() =~= all.skip(it.index() + 1));
        if let Some(found) = edge {
            if let Some(node) = found.node {
                return Some(node);
            }
        }
    }
    None
}

/// The page of an edge, as a caller asks for it.
#[derive(Debug, Clone, Default, PartialEq, Eq)]
pub struct EdgePage {
    pub after: Option<CursorScalar>,
    pub first: Option<i32>,
    pub before: Option<CursorScalar>,
    pub last: Option<i32>,
}

/// The conditions on the rows of an edge: their owners, and whatever else the caller
/// asks for.
#[derive(Debug, Clone, PartialEq, Eq)]
pub struct EdgeFilter<F> {
    pub channel_id: Option<ID>,
    pub data_storage_id: Option<ID>,
    pub other: Option<F>,
}

/// The arguments of an edge, as the service takes them.
#[derive(Debug, Clone, PartialEq, Eq)]
pub struct EdgeArgs<O, F> {
    pub after: Option<String>,
    pub first: Option<i32>,
    pub before: Option<String>,
    pub last: Option<i32>,
    pub order_by: Option<O>,
    pub where_filter: Option<EdgeFilter<F>>,
}

/// The arguments of an edge to executions, as the service takes them: besides the
/// page, `access` says which rows the caller may see.
#[derive(Debug, Clone, PartialEq, Eq)]
pub struct ExecutionArgs<A, O, F> {
    pub access: A,
    pub after: Option<String>,
    pub first: Option<i32>,
    pub before: Option<String>,
    pub last: Option<i32>,
    pub order_by: Option<O>,
    pub where_filter: Option<EdgeFilter<F>>,
}

/// The conditions of a caller, or none.
pub open spec fn conditions<F>(filter: Option<EdgeFilter<F>>) -> EdgeFilter<F> {
    match filter {
        Some(given) => given,
        None => EdgeFilter { channel_id: None, data_storage_id: None, other: None },
    }
}

/// The arguments of an edge with these conditions.
pub open spec fn edge_args<O, F>(
    page: EdgePage,
    order_by: Option<O>,
    filter: EdgeFilter<F>,
) -> EdgeArgs<O, F> {
    EdgeArgs {
        after: cursor_text(page.after),
        first: page.first,
        before: cursor_text(page.before),
        last: page.last,
        order_by,
        where_filter: Some(filter),
    }
}

/// The arguments of an edge to executions with these conditions.
pub open spec fn execution_args<A, O, F>(
    access: A,
    page: EdgePage,
    order_by: Option<O>,
    filter: EdgeFilter<F>,
) -> ExecutionArgs<A, O, F> {
    ExecutionArgs {
        access,
        after: cursor_text(page.after),
        first: page.first,
        before: cursor_text(page.before),
        last: page.last,
        order_by,
        where_filter: Some(filter),
    }
}

fn make_edge_args<O, F>(page: EdgePage, order_by: Option<O>, filter: EdgeFilter<F>) -> (args:
    EdgeArgs<O, F>)
    ensures
        args == edge_args(page, order_by, filter),
{
    EdgeArgs {
        after: cursor_string(page.after),
        first: page.first,
        before: cursor_string(page.before),
        last: page.last,
        order_by,
        where_filter: Some(filter),
    }
}

fn conditions_of<F>(filter: Option<EdgeFilter<F>>) -> (given: EdgeFilter<F>)
    ensures
        given == conditions(filter),
{
    match filter {
        Some(given) => given,
        None => EdgeFilter { channel_id: None, data_storage_id: None, other: None },
    }
}

/// The conditions of a caller, kept to the rows of one channel.
pub open spec fn within_channel<F>(channel: Channel, filter: Option<EdgeFilter<F>>) -> EdgeFilter<
    F,
> {
    EdgeFilter { channel_id: Some(channel.id), ..conditions(filter) }
}

/// The conditions of a caller, kept to the rows of one storage.
pub open spec fn within_storage<F>(
    storage: DataStorage,
    filter: Option<EdgeFilter<F>>,
) -> EdgeFilter<F> {
    EdgeFilter { data_storage_id: Some(storage.id), ..conditions(filter) }
}

impl Channel {
    /// What an edge from the channel to its requests, usage logs or executions asks
    /// for: the caller's page, order and conditions, kept to the rows of this
    /// channel whatever channel the caller names.
    pub fn edge_arguments<O, F>(
        &self,
        page: EdgePage,
        order_by: Option<O>,
        filter: Option<EdgeFilter<F>>,
    ) -> (args: EdgeArgs<O, F>)
        ensures
            args == edge_args(page, order_by, within_channel(*self, filter)),
    {
        let given = conditions_of(filter);
        make_edge_args(
            page,
            order_by,
            EdgeFilter {
                channel_id: Some(self.id.copied()),
                data_storage_id: given.data_storage_id,
                other: given.other,
            },
        )
    }

    /// Which row holds what only editors of the channel may see, for a caller who
    /// may edit channels; for any other caller nothing is loaded.
    pub fn sensitive_lookup(&self, may_edit: bool) -> (id: Option<ID>)
        ensures
            id == if may_edit {
                Some(self.id)
            } else {
                None
            },
    {
        if may_edit {
            Some(self.id.copied())
        } else {
            None
        }
    }

    /// The credentials of the channel as the caller may see them.
    pub fn credentials(may_edit: bool, fields: Option<ChannelSensitiveFields>) -> (credentials:
        Option<ChannelCredentials>)
        ensures
            credentials == match fields {
                Some(loaded) if may_edit => loaded.credentials,
                _ => None,
            },
    {
        match fields {
            Some(loaded) => {
                if may_edit {
                    loaded.credentials
                } else {
                    None
                }
            },
            None => None,
        }
    }

    /// The disabled keys of the channel as the caller may see them.
    pub fn disabled_api_keys(may_edit: bool, fields: Option<ChannelSensitiveFields>) -> (keys:
        Option<Vec<DisabledAPIKey>>)
        ensures
            keys == match fields {
                Some(loaded) if may_edit => Some(loaded.disabled_api_keys),
                _ => None,
            },
    {
        match fields {
            Some(loaded) => {
                if may_edit {
                    Some(loaded.disabled_api_keys)
                } else {
                    None
                }
            },
            None => None,
        }
    }
}

impl DataStorage {
    /// What the edge from the storage to its executions asks for: the caller's
    /// page, order and conditions, kept to the rows that the caller may see, and to
    /// the rows of this storage whatever storage the caller names.
    pub fn edge_arguments<A, O, F>(
        &self,
        access: A,
        page: EdgePage,
        order_by: Option<O>,
        filter: Option<EdgeFilter<F>>,
    ) -> (args: ExecutionArgs<A, O, F>)
        ensures
            args == execution_args(access, page, order_by, within_storage(*self, filter)),
            args.access == access,
    {
        let given = conditions_of(filter);
        ExecutionArgs {
            access,
            after: cursor_string(page.after),
            first: page.first,
            before: cursor_string(page.before),
            last: page.last,
            order_by,
            where_filter: Some(
                EdgeFilter {
                    channel_id: given.channel_id,
                    data_storage_id: Some(self.id.copied()),
                    other: given.other,
                },
            ),
        }
    }
}

// ---------------------------------------------------------------------------
// Laws
// ---------------------------------------------------------------------------

/// An edge never leaves its owner, and leaves every other condition alone.
pub proof fn edges_stay_with_their_owner<F>(
    channel: Channel,
    storage: DataStorage,
    filter: Option<EdgeFilter<F>>,
)
    ensures
        within_channel(channel, filter).channel_id == Some(channel.id),
        within_channel(channel, filter).data_storage_id == conditions(filter).data_storage_id,
        within_channel(channel, filter).other == conditions(filter).other,
        within_storage(storage, filter).data_storage_id == Some(storage.id),
        within_storage(storage, filter).channel_id == conditions(filter).channel_id,
        within_storage(storage, filter).other == conditions(filter).other,
{
}

/// The first present node is one of the nodes, and nothing comes before it; there
/// is none exactly where every edge leads nowhere.
pub proof fn present_node_is_the_first<T>(edges: Seq<Option<NodeEdge<T>>>)
    ensures
        match present_node(edges) {
            Some(node) => exists|i: int|
                {
                    &&& 0 <= i < edges.len()
                    &&& #[trigger] edges[i] == Some(NodeEdge { node: Some(node) })
                    &&& forall|j: int|
                        0 <= j < i ==> (#[trigger] edges[j] is None || edges[j]->0.node is None)
                },
            None => forall|j: int|
                0 <= j < edges.len() ==> (#[trigger] edges[j] is None || edges[j]->0.node is None),
        },
    decreases edges.len(),
{
    if edges.len() > 0 {
        let rest = edges.drop_first();
        present_node_is_the_first(rest);
        assert(forall|j: int| 0 < j < edges.len() ==> edges[j] == rest[j - 1]);
        match edges[0] {
            Some(NodeEdge { node: Some(node) }) => {
                assert(edges[0] == Some(NodeEdge { node: Some(node) }));
            },
            _ => {
                if let Some(node) = present_node(rest) {
                    let i = choose|i: int|
                        {
                            &&& 0 <= i < rest.len()
                            &&& #[trigger] rest[i] == Some(NodeEdge { node: Some(node) })
                            &&& forall|j: int|
                                0 <= j < i ==> (#[trigger] rest[j] is None || rest[j]->0.node is None)
                        };
                    assert(edges[i + 1] == Some(NodeEdge { node: Some(node) }));
                }
            },
        }
    }
}

/// What an edge of a channel asks for: the caller's page, order and conditions, with the
/// channel itself as owner.
pub proof fn channel_edges_ask_for_their_own_rows<O, F>(
    channel: Channel,
    page: EdgePage,
    order_by: Option<O>,
    filter: Option<EdgeFilter<F>>,
    args: EdgeArgs<O, F>,
)
    requires
        args == edge_args(page, order_by, within_channel(channel, filter)),
    ensures
        page.after matches Some(position) ==> args.after == Some(position.0),
        page.after is None ==> args.after is None,
        page.before matches Some(position) ==> args.before == Some(position.0),
        page.before is None ==> args.before is None,
        args.first == page.first,
        args.last == page.last,
        args.order_by == order_by,
        args.where_filter is Some,
        args.where_filter->0.channel_id == Some(channel.id),
        filter matches Some(given) ==> args.where_filter->0.data_storage_id
            == given.data_storage_id && args.where_filter->0.other == given.other,
        filter is None ==> args.where_filter->0.data_storage_id is None
            && args.where_filter->0.other is None,
{
}

/// What the edge of a storage asks for: the same with the storage as owner, among the
/// rows that the caller may see.
pub proof fn storage_edges_ask_for_their_own_rows<A, O, F>(
    storage: DataStorage,
    access: A,
    page: EdgePage,
    order_by: Option<O>,
    filter: Option<EdgeFilter<F>>,
    args: ExecutionArgs<A, O, F>,
)
    requires
        args == execution_args(access, page, order_by, within_storage(storage, filter)),
    ensures
        args.access == access,
        page.after matches Some(position) ==> args.after == Some(position.0),
        page.after is None ==> args.after is None,
        page.before matches Some(position) ==> args.before == Some(position.0),
        page.before is None ==> args.before is None,
        args.first == page.first,
        args.last == page.last,
        args.order_by == order_by,
        args.where_filter is Some,
        args.where_filter->0.data_storage_id == Some(storage.id),
        filter matches Some(given) ==> args.where_filter->0.channel_id == given.channel_id
            && args.where_filter->0.other == given.other,
        filter is None ==> args.where_filter->0.channel_id is None && args.where_filter->0.other
            is None,
{
}

} // verus!
