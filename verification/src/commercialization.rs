//! Public models, routes and price books, and the aliases that routes call for.
use vstd::prelude::*;

use crate::channel::ModelMapping;
use crate::channel_models::alias_pairs;
use crate::scalars::{JsonText, ID};
use crate::text::{joined, optional_text, precedes, same_text};
use crate::text_map::TextMap;

verus! {

/// Whether a commercial object is in use.
#[derive(Debug, Clone, Copy, PartialEq, Eq, Structural)]
pub enum CommercialStatus {
    Enabled,
    Disabled,
    Archived,
}

/// The `UpstreamModelDeployment` object.
#[derive(Debug, Clone)]
pub struct UpstreamModelDeployment {
    pub id: ID,
    pub channel_id: ID,
    pub channel_name: String,
    pub upstream_model_id: String,
    pub internal_name: String,
    pub variant: String,
    pub status: CommercialStatus,
    pub source: String,
}

/// The `ModelRoute` object.
#[derive(Debug, Clone)]
pub struct ModelRoute {
    pub id: ID,
    pub public_model_id: ID,
    pub public_model_key: String,
    pub deployment_id: ID,
    pub deployment_name: String,
    pub channel_id: ID,
    pub channel_name: String,
    pub upstream_model_id: String,
    pub status: CommercialStatus,
}

/// What a preview proposes for an alias.
#[derive(Debug, Clone, Copy, PartialEq, Eq, Structural)]
pub enum ChannelModelMappingAction {
    Create,
    Skip,
    Conflict,
}

/// What a preview says of one alias.
#[derive(Debug, Clone)]
pub struct ChannelModelMappingPreviewEntry {
    pub action: ChannelModelMappingAction,
    pub from: String,
    pub to: String,
    pub previous_to: Option<String>,
    pub reason: String,
}

/// How a channel's aliases compare with the routes that lead to it.
#[derive(Debug, Clone)]
pub struct ChannelModelMappingPreview {
    pub channel_id: ID,
    pub expected_version: String,
    pub entries: Vec<ChannelModelMappingPreviewEntry>,
    pub create_count: i32,
    pub skip_count: i32,
    pub conflict_count: i32,
}

/// The `ApplyChannelModelMappingsInput` input.
#[derive(Debug, Clone)]
pub struct ApplyChannelModelMappingsInput {
    pub channel_id: ID,
    pub expected_version: String,
    /// Conflicting aliases are never overwritten unless this is explicitly true.
    pub replace_conflicts: Option<bool>,
}

/// The `ChannelModelMappingAutomationSettings` object.
#[derive(Debug, Clone)]
pub struct ChannelModelMappingAutomationSettings {
    pub enabled: bool,
}

/// The `SetChannelModelMappingAutomationInput` input.
#[derive(Debug, Clone)]
pub struct SetChannelModelMappingAutomationInput {
    pub enabled: bool,
}

/// The `UpsertModelRouteInput` input.
#[derive(Debug, Clone)]
pub struct UpsertModelRouteInput {
    pub id: Option<ID>,
    pub public_model_id: ID,
    pub deployment_id: ID,
    pub status: Option<CommercialStatus>,
    /// Required when a second deployment is attached to an existing public model:
    /// equal upstream names do not prove equal capability or quality.
    pub confirm_compatibility: Option<bool>,
}

/// The `CreatePublicModelWithRoutesInput` input, for models described by an `M`.
#[derive(Debug, Clone)]
pub struct CreatePublicModelWithRoutesInput<M> {
    pub model: M,
    pub deployment_ids: Vec<ID>,
    pub enabled: Option<bool>,
    pub confirm_compatibility: Option<bool>,
}

/// The `CreatePublicModelWithRoutesPayload` object, for models that are an `M`.
#[derive(Debug, Clone)]
pub struct CreatePublicModelWithRoutesPayload<M> {
    pub model: M,
    pub routes: Vec<ModelRoute>,
}

/// The `PriceBookItem` object.
#[derive(Debug, Clone)]
pub struct PriceBookItem {
    pub id: ID,
    pub public_model_id: ID,
    pub public_model_key: String,
    pub price: JsonText,
}

/// The `PriceBookVersion` object.
#[derive(Debug, Clone)]
pub struct PriceBookVersion {
    pub id: ID,
    pub version: i32,
    pub status: String,
    pub reference_id: String,
    pub effective_start_at: Option<String>,
    pub effective_end_at: Option<String>,
    pub items: Vec<PriceBookItem>,
}

/// The `PriceBook` object.
#[derive(Debug, Clone)]
pub struct PriceBook {
    pub id: ID,
    pub name: String,
    pub currency: String,
    pub status: CommercialStatus,
    pub is_default: bool,
    pub versions: Vec<PriceBookVersion>,
}

/// The `CreatePriceBookInput` input.
#[derive(Debug, Clone)]
pub struct CreatePriceBookInput {
    pub name: String,
    pub currency: Option<String>,
    pub is_default: Option<bool>,
}

/// The `PrimaryProjectResolutionStatus` values.
#[derive(Debug, Clone, Copy, PartialEq, Eq, Structural)]
pub enum PrimaryProjectResolutionStatus {
    Resolved,
    Missing,
    Ambiguous,
}

/// Which project is a user's own. It is resolved only where exactly one active
/// owned project has an active personal profile; an arbitrary first project is
/// never handed out.
#[derive(Debug, Clone)]
pub struct PrimaryProjectResolution {
    pub status: PrimaryProjectResolutionStatus,
    pub project_id: Option<ID>,
    pub candidate_project_ids: Vec<ID>,
}

/// What the commercialization service reports when it fails.
#[derive(Debug)]
pub enum CommercializationError {
    Unavailable,
    NotFound(String),
    Invalid(String),
    Storage(String),
}

impl CommercializationError {
    /// What the error reads like.
    pub open spec fn text(&self) -> Seq<char> {
        match self {
            CommercializationError::Unavailable => "commercialization service is unavailable"@,
            CommercializationError::NotFound(what) => "commercialization object not found: "@
                + what@,
            CommercializationError::Invalid(what) => "invalid commercialization input: "@ + what@,
            CommercializationError::Storage(what) => "commercialization operation failed: "@
                + what@,
        }
    }

    /// What the error reads like.
    pub fn message(&self) -> (message: String)
        ensures
            message@ == self.text(),
    {
        match self {
            CommercializationError::Unavailable =>
                "commercialization service is unavailable".to_owned(),
            CommercializationError::NotFound(what) => joined(
                "commercialization object not found: ",
                what.as_str(),
            ),
            CommercializationError::Invalid(what) => joined(
                "invalid commercialization input: ",
                what.as_str(),
            ),
            CommercializationError::Storage(what) => joined(
                "commercialization operation failed: ",
                what.as_str(),
            ),
        }
    }
}

// ---------------------------------------------------------------------------
// Preview
// ---------------------------------------------------------------------------

/// Targets by alias; of two pairs for one alias the later counts.
pub open spec fn targets(pairs: Seq<(Seq<char>, Seq<char>)>) -> Map<Seq<char>, Seq<char>>
    decreases pairs.len(),
{
    if pairs.len() == 0 {
        Map::empty()
    } else {
        targets(pairs.drop_last()).insert(pairs.last().0, pairs.last().1)
    }
}

/// Routes as pairs of texts.
pub open spec fn route_pairs(routed: Seq<(String, String)>) -> Seq<(Seq<char>, Seq<char>)> {
    Seq::new(routed.len(), |i: int| (routed[i].0@, routed[i].1@))
}

/// What a preview says of one alias.
pub struct PreviewRow {
    pub action: ChannelModelMappingAction,
    pub from: Seq<char>,
    pub to: Seq<char>,
    pub previous_to: Option<Seq<char>>,
    pub reason: Seq<char>,
}

impl View for ChannelModelMappingPreviewEntry {
    type V = PreviewRow;

    open spec fn view(&self) -> PreviewRow {
        PreviewRow {
            action: self.action,
            from: self.from@,
            to: self.to@,
            previous_to: optional_text(self.previous_to),
            reason: self.reason@,
        }
    }
}

/// The rows of a list of preview entries.
pub open spec fn preview_rows(entries: Seq<ChannelModelMappingPreviewEntry>) -> Seq<PreviewRow> {
    Seq::new(entries.len(), |i: int| entries[i]@)
}

/// How the route from `from` to `to` compares with the aliases at hand: it is
/// new, there already, or at odds with another target.
pub open spec fn compared(
    current: Map<Seq<char>, Seq<char>>,
    from: Seq<char>,
    to: Seq<char>,
) -> PreviewRow {
    if !current.dom().contains(from) {
        PreviewRow {
            action: ChannelModelMappingAction::Create,
            from,
            to,
            previous_to: None,
            reason: "route is not present in channel aliases"@,
        }
    } else if current[from] == to {
        PreviewRow {
            action: ChannelModelMappingAction::Skip,
            from,
            to,
            previous_to: Some(to),
            reason: "channel alias already matches the route"@,
        }
    } else {
        PreviewRow {
            action: ChannelModelMappingAction::Conflict,
            from,
            to,
            previous_to: Some(current[from]),
            reason: "channel alias points to another upstream model"@,
        }
    }
}

/// `rows` compares every route with the aliases at hand, each alias once, in
/// order.
pub open spec fn compares_all(
    rows: Seq<PreviewRow>,
    current: Map<Seq<char>, Seq<char>>,
    routes: Map<Seq<char>, Seq<char>>,
) -> bool {
    &&& forall|i: int, j: int|
        0 <= i < j < rows.len() ==> precedes((#[trigger] rows[i]).from, (#[trigger] rows[j]).from)
    &&& forall|i: int|
        0 <= i < rows.len() ==> {
            let row = #[trigger] rows[i];
            &&& routes.dom().contains(row.from)
            &&& row == compared(current, row.from, routes[row.from])
        }
    &&& forall|from: Seq<char>| #[trigger]
        routes.dom().contains(from) ==> exists|i: int|
            0 <= i < rows.len() && (#[trigger] rows[i]).from == from
}

/// How many rows propose `action`.
pub open spec fn action_count(rows: Seq<PreviewRow>, action: ChannelModelMappingAction) -> nat
    decreases rows.len(),
{
    if rows.len() == 0 {
        0
    } else {
        action_count(rows.drop_last(), action) + if rows.last().action == action {
            1nat
        } else {
            0nat
        }
    }
}

fn aliases_by_name(existing: &[ModelMapping]) -> (current: TextMap<String>)
    ensures
        current.wf(),
        current@ == targets(alias_pairs(existing@)),
{
    let mut current: TextMap<String> = TextMap::new();
    let ghost all = alias_pairs(existing@);
    let mut i: usize = 0;
    assert(all.take(0) =~= Seq::empty());
    while i < existing.len()
        invariant
            i <= existing@.len(),
            all == alias_pairs(existing@),
            current.wf(),
            current@ == targets(all.take(i as int)),
        decreases existing@.len() - i,
    {
        current.insert(existing[i].from.clone(), existing[i].to.clone());
        assert(all.take(i + 1).drop_last() =~= all.take(i as int));
        i += 1;
    }
    assert(all.take(i as int) =~= all);
    current
}

fn routes_by_name(routed: &[(String, String)]) -> (routes: TextMap<String>)
    ensures
        routes.wf(),
        routes@ == targets(route_pairs(routed@)),
{
    let mut routes: TextMap<String> = TextMap::new();
    let ghost all = route_pairs(routed@);
    let mut i: usize = 0;
    assert(all.take(0) =~= Seq::empty());
    while i < routed.len()
        invariant
            i <= routed@.len(),
            all == route_pairs(routed@),
            routes.wf(),
            routes@ == targets(all.take(i as int)),
        decreases routed@.len() - i,
    {
        routes.insert(routed[i].0.clone(), routed[i].1.clone());
        assert(all.take(i + 1).drop_last() =~= all.take(i as int));
        i += 1;
    }
    assert(all.take(i as int) =~= all);
    routes
}

fn compare_route(current: &TextMap<String>, from: &String, to: &String) -> (entry:
    ChannelModelMappingPreviewEntry)
    requires
        current.wf(),
    ensures
        entry@ == compared(current@, from@, to@),
{
    match current.get(from.as_str()) {
        None => ChannelModelMappingPreviewEntry {
            action: ChannelModelMappingAction::Create,
            from: from.clone(),
            to: to.clone(),
            previous_to: None,
            reason: "route is not present in channel aliases".to_owned(),
        },
        Some(previous) => if same_text(previous.as_str(), to.as_str()) {
            ChannelModelMappingPreviewEntry {
                action: ChannelModelMappingAction::Skip,
                from: from.clone(),
                to: to.clone(),
                previous_to: Some(previous.clone()),
                reason: "channel alias already matches the route".to_owned(),
            }
        } else {
            ChannelModelMappingPreviewEntry {
                action: ChannelModelMappingAction::Conflict,
                from: from.clone(),
                to: to.clone(),
                previous_to: Some(previous.clone()),
                reason: "channel alias points to another upstream model".to_owned(),
            }
        },
    }
}

fn count_action(
    entries: &Vec<ChannelModelMappingPreviewEntry>,
    action: ChannelModelMappingAction,
) -> (count: usize)
    ensures
        count == action_count(preview_rows(entries@), action),
{
    let ghost rows = preview_rows(entries@);
    let mut count: usize = 0;
    let mut i: usize = 0;
    assert(rows.take(0) =~= Seq::empty());
    while i < entries.len()
        invariant
            i <= entries@.len(),
            rows == preview_rows(entries@),
            count <= i,
            count == action_count(rows.take(i as int), action),
        decreases entries@.len() - i,
    {
        assert(rows.take(i + 1).drop_last() =~= rows.take(i as int));
        if entries[i].action == action {
            count += 1;
        }
        i += 1;
    }
    assert(rows.take(i as int) =~= rows);
    count
}

/// Compares the routes that lead to a channel with the channel's aliases. Which
/// model a route leads to, not how models are called, decides. The counts are
/// given as 32-bit numbers.
pub fn build_channel_model_mapping_preview(
    channel_id: ID,
    expected_version: String,
    existing: &[ModelMapping],
    routed: &[(String, String)],
) -> (preview: ChannelModelMappingPreview)
    ensures
        preview.channel_id == channel_id,
        preview.expected_version == expected_version,
        compares_all(
            preview_rows(preview.entries@),
            targets(alias_pairs(existing@)),
            targets(route_pairs(routed@)),
        ),
        preview.create_count == action_count(
            preview_rows(preview.entries@),
            ChannelModelMappingAction::Create,
        ) as i32,
        preview.skip_count == action_count(
            preview_rows(preview.entries@),
            ChannelModelMappingAction::Skip,
        ) as i32,
        preview.conflict_count == action_count(
            preview_rows(preview.entries@),
            ChannelModelMappingAction::Conflict,
        ) as i32,
{
    let current = aliases_by_name(existing);
    let routes = routes_by_name(routed);
    let mut entries: Vec<ChannelModelMappingPreviewEntry> = Vec::new();
    let mut i: usize = 0;
    while i < routes.len()
        invariant
            i <= routes.keys().len(),
            current.wf(),
            routes.wf(),
            entries@.len() == i,
            forall|j: int|
                0 <= j < i ==> routes@.dom().contains(routes.keys()[j]) && (
                #[trigger] entries@[j])@ == compared(
                    current@,
                    routes.keys()[j],
                    routes@[routes.keys()[j]],
                ),
        decreases routes.keys().len() - i,
    {
        let entry = compare_route(&current, routes.key_at(i), routes.value_at(i));
        entries.push(entry);
        i += 1;
    }
    proof {
        let rows = preview_rows(entries@);
        routes.keys_are_the_domain();
        assert forall|j: int| 0 <= j < rows.len() implies (#[trigger] rows[j]).from
            == routes.keys()[j] by {
            assert(rows[j] == entries@[j]@);
        }
        assert forall|a: int, b: int| 0 <= a < b < rows.len() implies precedes(
            (#[trigger] rows[a]).from,
            (#[trigger] rows[b]).from,
        ) by {
            assert(precedes(routes.keys()[a], routes.keys()[b]));
        }
        assert forall|from: Seq<char>| #[trigger] routes@.dom().contains(from) implies exists|i: int|
            0 <= i < rows.len() && (#[trigger] rows[i]).from == from by {
            assert(routes.keys().contains(from));
            let j = choose|j: int| 0 <= j < routes.keys().len() && routes.keys()[j] == from;
            assert(rows[j].from == from);
        }
        assert forall|j: int| 0 <= j < rows.len() implies {
            let row = #[trigger] rows[j];
            &&& routes@.dom().contains(row.from)
            &&& row == compared(current@, row.from, routes@[row.from])
        } by {
            assert(rows[j] == entries@[j]@);
        }
    }
    let create_count = count_action(&entries, ChannelModelMappingAction::Create);
    let skip_count = count_action(&entries, ChannelModelMappingAction::Skip);
    let conflict_count = count_action(&entries, ChannelModelMappingAction::Conflict);
    ChannelModelMappingPreview {
        channel_id,
        expected_version,
        entries,
        create_count: #[verifier::truncate] (create_count as i32),
        skip_count: #[verifier::truncate] (skip_count as i32),
        conflict_count: #[verifier::truncate] (conflict_count as i32),
    }
}

// ---------------------------------------------------------------------------
// Merge
// ---------------------------------------------------------------------------

/// The first pair, from position `from` on, for an alias; the length of the list
/// where there is none.
pub open spec fn first_for(
    pairs: Seq<(Seq<char>, Seq<char>)>,
    alias: Seq<char>,
    from: int,
) -> int
    decreases pairs.len() - from,
{
    if 0 <= from < pairs.len() && pairs[from].0 != alias {
        first_for(pairs, alias, from + 1)
    } else {
        from
    }
}

/// The aliases once a preview row has been applied: a new one is added at the
/// end, and one at odds is pointed to the new target where that is wanted.
pub open spec fn merge_row(
    pairs: Seq<(Seq<char>, Seq<char>)>,
    row: PreviewRow,
    replace_conflicts: bool,
) -> Seq<(Seq<char>, Seq<char>)> {
    let at = first_for(pairs, row.from, 0);
    match row.action {
        ChannelModelMappingAction::Skip => pairs,
        ChannelModelMappingAction::Create => pairs.push((row.from, row.to)),
        ChannelModelMappingAction::Conflict => if replace_conflicts && at < pairs.len() {
            pairs.update(at, (row.from, row.to))
        } else {
            pairs
        },
    }
}

/// The aliases once all rows have been applied, in order.
pub open spec fn merge_rows(
    pairs: Seq<(Seq<char>, Seq<char>)>,
    rows: Seq<PreviewRow>,
    replace_conflicts: bool,
) -> Seq<(Seq<char>, Seq<char>)>
    decreases rows.len(),
{
    if rows.len() == 0 {
        pairs
    } else {
        merge_row(
            merge_rows(pairs, rows.drop_last(), replace_conflicts),
            rows.last(),
            replace_conflicts,
        )
    }
}

fn position_of(mappings: &Vec<ModelMapping>, alias: &str) -> (at: usize)
    ensures
        at == first_for(alias_pairs(mappings@), alias@, 0),
        at <= mappings@.len(),
{
    let mut at: usize = 0;
    while at < mappings.len() && !same_text(mappings[at].from.as_str(), alias)
        invariant
            at <= mappings@.len(),
            first_for(alias_pairs(mappings@), alias@, 0) == first_for(
                alias_pairs(mappings@),
                alias@,
                at as int,
            ),
        decreases mappings@.len() - at,
    {
        at += 1;
    }
    at
}

/// Applies a reviewed preview to a channel's aliases. Aliases that the preview
/// does not speak of stay; conflicting ones are only replaced on demand.
pub fn merge_channel_model_mappings(
    existing: &[ModelMapping],
    preview: &ChannelModelMappingPreview,
    replace_conflicts: bool,
) -> (merged: Vec<ModelMapping>)
    ensures
        alias_pairs(merged@) == merge_rows(
            alias_pairs(existing@),
            preview_rows(preview.entries@),
            replace_conflicts,
        ),
{
    let mut merged: Vec<ModelMapping> = Vec::new();
    let mut k: usize = 0;
    while k < existing.len()
        invariant
            k <= existing@.len(),
            merged@.len() == k,
            forall|j: int|
                0 <= j < k ==> (#[trigger] merged@[j]).from@ == existing@[j].from@ && merged@[j].to@
                    == existing@[j].to@,
        decreases existing@.len() - k,
    {
        merged.push(ModelMapping { from: existing[k].from.clone(), to: existing[k].to.clone() });
        k += 1;
    }
    let ghost pairs = alias_pairs(existing@);
    assert(alias_pairs(merged@) =~= pairs);
    let ghost rows = preview_rows(preview.entries@);
    assert(rows.take(0) =~= Seq::empty());
    let mut i: usize = 0;
    while i < preview.entries.len()
        invariant
            i <= preview.entries@.len(),
            rows == preview_rows(preview.entries@),
            alias_pairs(merged@) == merge_rows(pairs, rows.take(i as int), replace_conflicts),
        decreases preview.entries@.len() - i,
    {
        let entry = &preview.entries[i];
        let ghost before = alias_pairs(merged@);
        assert(rows.take(i + 1).drop_last() =~= rows.take(i as int));
        assert(rows.take(i + 1).last() == entry@);
        match entry.action {
            ChannelModelMappingAction::Skip => {},
            ChannelModelMappingAction::Create => {
                merged.push(ModelMapping { from: entry.from.clone(), to: entry.to.clone() });
                assert(alias_pairs(merged@) =~= before.push((entry.from@, entry.to@)));
            },
            ChannelModelMappingAction::Conflict => {
                if replace_conflicts {
                    let at = position_of(&merged, entry.from.as_str());
                    if at < merged.len() {
                        merged.set(
                            at,
                            ModelMapping { from: entry.from.clone(), to: entry.to.clone() },
                        );
                        assert(alias_pairs(merged@) =~= before.update(
                            at as int,
                            (entry.from@, entry.to@),
                        ));
                    }
                }
            },
        }
        i += 1;
    }
    assert(rows.take(i as int) =~= rows);
    merged
}

// ---------------------------------------------------------------------------
// Laws
// ---------------------------------------------------------------------------

/// Every row of a preview is counted once: what is to be created, skipped and
/// decided on makes up the whole.
pub proof fn preview_counts_add_up(rows: Seq<PreviewRow>)
    ensures
        action_count(rows, ChannelModelMappingAction::Create) + action_count(
            rows,
            ChannelModelMappingAction::Skip,
        ) + action_count(rows, ChannelModelMappingAction::Conflict) == rows.len(),
    decreases rows.len(),
{
    if rows.len() > 0 {
        preview_counts_add_up(rows.drop_last());
    }
}

proof fn first_for_found(pairs: Seq<(Seq<char>, Seq<char>)>, alias: Seq<char>, from: int)
    requires
        0 <= from <= pairs.len(),
    ensures
        ({
            let at = first_for(pairs, alias, from);
            &&& from <= at <= pairs.len()
            &&& at < pairs.len() ==> pairs[at].0 == alias
            &&& forall|i: int| from <= i < at ==> (#[trigger] pairs[i]).0 != alias
        }),
    decreases pairs.len() - from,
{
    if from < pairs.len() && pairs[from].0 != alias {
        first_for_found(pairs, alias, from + 1);
    }
}

/// A merge drops no alias and moves none: what was at a position keeps its name
/// there.
pub proof fn merge_keeps_every_alias(
    pairs: Seq<(Seq<char>, Seq<char>)>,
    rows: Seq<PreviewRow>,
    replace_conflicts: bool,
)
    ensures
        merge_rows(pairs, rows, replace_conflicts).len() >= pairs.len(),
        forall|i: int|
            0 <= i < pairs.len() ==> (#[trigger] merge_rows(pairs, rows, replace_conflicts)[i]).0
                == pairs[i].0,
    decreases rows.len(),
{
    if rows.len() > 0 {
        merge_keeps_every_alias(pairs, rows.drop_last(), replace_conflicts);
        first_for_found(
            merge_rows(pairs, rows.drop_last(), replace_conflicts),
            rows.last().from,
            0,
        );
    }
}

/// Unless conflicts are to be replaced, a merge leaves every alias as it was.
pub proof fn merge_without_replacement_changes_nothing(
    pairs: Seq<(Seq<char>, Seq<char>)>,
    rows: Seq<PreviewRow>,
)
    ensures
        merge_rows(pairs, rows, false).len() >= pairs.len(),
        merge_rows(pairs, rows, false).take(pairs.len() as int) == pairs,
    decreases rows.len(),
{
    if rows.len() > 0 {
        merge_without_replacement_changes_nothing(pairs, rows.drop_last());
        assert(merge_rows(pairs, rows, false).take(pairs.len() as int) =~= merge_rows(
            pairs,
            rows.drop_last(),
            false,
        ).take(pairs.len() as int));
    } else {
        assert(pairs.take(pairs.len() as int) =~= pairs);
    }
}

/// Even where conflicts are replaced, an alias that no conflict names keeps its
/// target.
pub proof fn merge_leaves_unrelated_aliases(
    pairs: Seq<(Seq<char>, Seq<char>)>,
    rows: Seq<PreviewRow>,
    replace_conflicts: bool,
    i: int,
)
    requires
        0 <= i < pairs.len(),
        forall|j: int|
            0 <= j < rows.len() && (#[trigger] rows[j]).action
                == ChannelModelMappingAction::Conflict ==> rows[j].from != pairs[i].0,
    ensures
        i < merge_rows(pairs, rows, replace_conflicts).len(),
        merge_rows(pairs, rows, replace_conflicts)[i] == pairs[i],
    decreases rows.len(),
{
    if rows.len() > 0 {
        let earlier = rows.drop_last();
        assert forall|j: int|
            0 <= j < earlier.len() && (#[trigger] earlier[j]).action
                == ChannelModelMappingAction::Conflict implies earlier[j].from != pairs[i].0 by {
            assert(earlier[j] == rows[j]);
        }
        merge_leaves_unrelated_aliases(pairs, earlier, replace_conflicts, i);
        let before = merge_rows(pairs, earlier, replace_conflicts);
        first_for_found(before, rows.last().from, 0);
        assert(rows[rows.len() - 1] == rows.last());
    }
}

/// Whether each alias stands once.
pub open spec fn aliases_are_unique(pairs: Seq<(Seq<char>, Seq<char>)>) -> bool {
    forall|i: int, j: int|
        0 <= i < j < pairs.len() ==> (#[trigger] pairs[i]).0 != (#[trigger] pairs[j]).0
}

proof fn target_of_unique(pairs: Seq<(Seq<char>, Seq<char>)>, i: int)
    requires
        aliases_are_unique(pairs),
        0 <= i < pairs.len(),
    ensures
        targets(pairs).dom().contains(pairs[i].0),
        targets(pairs)[pairs[i].0] == pairs[i].1,
    decreases pairs.len(),
{
    if i < pairs.len() - 1 {
        let earlier = pairs.drop_last();
        assert forall|a: int, b: int| 0 <= a < b < earlier.len() implies (#[trigger] earlier[a]).0
            != (#[trigger] earlier[b]).0 by {
            assert(pairs[a].0 != pairs[b].0);
        }
        target_of_unique(earlier, i);
        assert(pairs[i].0 != pairs[pairs.len() - 1].0);
    }
}

proof fn target_is_somewhere(pairs: Seq<(Seq<char>, Seq<char>)>, alias: Seq<char>) -> (i: int)
    requires
        targets(pairs).dom().contains(alias),
    ensures
        0 <= i < pairs.len(),
        pairs[i].0 == alias,
    decreases pairs.len(),
{
    if pairs.last().0 == alias {
        pairs.len() - 1
    } else {
        target_is_somewhere(pairs.drop_last(), alias)
    }
}

/// After the first `n` rows of a preview: aliases still stand once, the routes
/// of those rows are in place, and the later rows find what they compared with.
spec fn merged_so_far(
    pairs: Seq<(Seq<char>, Seq<char>)>,
    rows: Seq<PreviewRow>,
    n: int,
    now: Seq<(Seq<char>, Seq<char>)>,
) -> bool {
    &&& aliases_are_unique(now)
    &&& forall|j: int|
        0 <= j < n ==> targets(now).dom().contains((#[trigger] rows[j]).from) && targets(
            now,
        )[rows[j].from] == rows[j].to
    &&& forall|j: int|
        n <= j < rows.len() ==> (targets(now).dom().contains((#[trigger] rows[j]).from)
            <==> targets(pairs).dom().contains(rows[j].from))
    &&& forall|j: int|
        n <= j < rows.len() && targets(pairs).dom().contains((#[trigger] rows[j]).from) ==> targets(
            now,
        )[rows[j].from] == targets(pairs)[rows[j].from]
}

proof fn targets_of_update(pairs: Seq<(Seq<char>, Seq<char>)>, at: int, to: Seq<char>)
    requires
        aliases_are_unique(pairs),
        0 <= at < pairs.len(),
    ensures
        aliases_are_unique(pairs.update(at, (pairs[at].0, to))),
        targets(pairs.update(at, (pairs[at].0, to))) == targets(pairs).insert(pairs[at].0, to),
    decreases pairs.len(),
{
    let new = pairs.update(at, (pairs[at].0, to));
    assert forall|a: int, b: int| 0 <= a < b < new.len() implies (#[trigger] new[a]).0 != (
    #[trigger] new[b]).0 by {
        assert(pairs[a].0 != pairs[b].0);
    }
    let last = pairs.len() - 1;
    let earlier = pairs.drop_last();
    assert forall|a: int, b: int| 0 <= a < b < earlier.len() implies (#[trigger] earlier[a]).0 != (
    #[trigger] earlier[b]).0 by {
        assert(pairs[a].0 != pairs[b].0);
    }
    if at == last {
        assert(new.drop_last() =~= earlier);
        assert(targets(new) =~= targets(pairs).insert(pairs[at].0, to));
    } else {
        targets_of_update(earlier, at, to);
        assert(new.drop_last() =~= earlier.update(at, (earlier[at].0, to)));
        assert(pairs[at].0 != pairs[last].0);
        assert(targets(new) =~= targets(pairs).insert(pairs[at].0, to));
    }
}

proof fn merge_one_more(pairs: Seq<(Seq<char>, Seq<char>)>, rows: Seq<PreviewRow>, n: int, now: Seq<
    (Seq<char>, Seq<char>),
>, routes: Map<Seq<char>, Seq<char>>)
    requires
        compares_all(rows, targets(pairs), routes),
        0 <= n < rows.len(),
        merged_so_far(pairs, rows, n, now),
    ensures
        merged_so_far(pairs, rows, n + 1, merge_row(now, rows[n], true)),
{
    let row = rows[n];
    let next = merge_row(now, row, true);
    assert(row == compared(targets(pairs), row.from, routes[row.from]));
    match row.action {
        ChannelModelMappingAction::Skip => {},
        ChannelModelMappingAction::Create => {
            assert(!targets(now).dom().contains(row.from));
            assert forall|a: int, b: int| 0 <= a < b < next.len() implies (#[trigger] next[a]).0
                != (#[trigger] next[b]).0 by {
                if b == next.len() - 1 {
                    target_of_unique(now, a);
                }
            }
            assert(next.drop_last() =~= now);
            assert(targets(next) == targets(now).insert(row.from, row.to));
        },
        ChannelModelMappingAction::Conflict => {
            assert(targets(now).dom().contains(row.from));
            let i = target_is_somewhere(now, row.from);
            first_for_found(now, row.from, 0);
            let at = first_for(now, row.from, 0);
            targets_of_update(now, at, row.to);
            assert(targets(next) == targets(now).insert(row.from, row.to));
        },
    }
    assert forall|j: int| 0 <= j < rows.len() && j != n implies (#[trigger] rows[j]).from
        != row.from by {
        crate::text::precedes_is_irreflexive(row.from);
        if j < n {
            assert(precedes(rows[j].from, rows[n].from));
        } else {
            assert(precedes(rows[n].from, rows[j].from));
        }
    }
}

proof fn merge_in_steps(
    pairs: Seq<(Seq<char>, Seq<char>)>,
    rows: Seq<PreviewRow>,
    routes: Map<Seq<char>, Seq<char>>,
    n: int,
)
    requires
        aliases_are_unique(pairs),
        compares_all(rows, targets(pairs), routes),
        0 <= n <= rows.len(),
    ensures
        merged_so_far(pairs, rows, n, merge_rows(pairs, rows.take(n), true)),
    decreases n,
{
    if n > 0 {
        merge_in_steps(pairs, rows, routes, n - 1);
        merge_one_more(pairs, rows, n - 1, merge_rows(pairs, rows.take(n - 1), true), routes);
        assert(rows.take(n).drop_last() =~= rows.take(n - 1));
    }
}

/// Where each alias stands once, merging a preview with its conflicts replaced
/// puts every route in place: a second preview would find nothing to do.
pub proof fn full_merge_settles_every_route(
    pairs: Seq<(Seq<char>, Seq<char>)>,
    rows: Seq<PreviewRow>,
    routes: Map<Seq<char>, Seq<char>>,
    from: Seq<char>,
)
    requires
        aliases_are_unique(pairs),
        compares_all(rows, targets(pairs), routes),
        routes.dom().contains(from),
    ensures
        aliases_are_unique(merge_rows(pairs, rows, true)),
        compared(targets(merge_rows(pairs, rows, true)), from, routes[from]).action
            == ChannelModelMappingAction::Skip,
{
    merge_in_steps(pairs, rows, routes, rows.len() as int);
    assert(rows.take(rows.len() as int) =~= rows);
    let j = choose|j: int| 0 <= j < rows.len() && (#[trigger] rows[j]).from == from;
    assert(rows[j] == compared(targets(pairs), from, routes[from]));
}

/// A preview has one form only: two previews of the same aliases and routes have
/// the same rows.
pub proof fn preview_is_unique(
    a: Seq<PreviewRow>,
    b: Seq<PreviewRow>,
    current: Map<Seq<char>, Seq<char>>,
    routes: Map<Seq<char>, Seq<char>>,
)
    requires
        compares_all(a, current, routes),
        compares_all(b, current, routes),
    ensures
        a == b,
{
    let x = Seq::new(a.len(), |i: int| a[i].from);
    let y = Seq::new(b.len(), |i: int| b[i].from);
    assert forall|k: Seq<char>| x.contains(k) <==> y.contains(k) by {
        if x.contains(k) {
            let i = choose|i: int| 0 <= i < x.len() && x[i] == k;
            assert(routes.dom().contains(a[i].from));
            let j = choose|j: int| 0 <= j < b.len() && (#[trigger] b[j]).from == k;
            assert(y[j] == k);
        }
        if y.contains(k) {
            let i = choose|i: int| 0 <= i < y.len() && y[i] == k;
            assert(routes.dom().contains(b[i].from));
            let j = choose|j: int| 0 <= j < a.len() && (#[trigger] a[j]).from == k;
            assert(x[j] == k);
        }
    }
    assert forall|i: int, j: int| 0 <= i < j < x.len() implies precedes(
        #[trigger] x[i],
        #[trigger] x[j],
    ) by {
        assert(precedes(a[i].from, a[j].from));
    }
    assert forall|i: int, j: int| 0 <= i < j < y.len() implies precedes(
        #[trigger] y[i],
        #[trigger] y[j],
    ) by {
        assert(precedes(b[i].from, b[j].from));
    }
    crate::text::increasing_texts_are_determined(x, y);
    assert forall|i: int| 0 <= i < a.len() implies a[i] == b[i] by {
        assert(x[i] == y[i]);
        assert(a[i] == compared(current, a[i].from, routes[a[i].from]));
        assert(b[i] == compared(current, b[i].from, routes[b[i].from]));
    }
    assert(a =~= b);
}

proof fn listed_alias_has_a_target(pairs: Seq<(Seq<char>, Seq<char>)>, i: int)
    requires
        0 <= i < pairs.len(),
    ensures
        targets(pairs).dom().contains(pairs[i].0),
    decreases pairs.len(),
{
    if i < pairs.len() - 1 {
        listed_alias_has_a_target(pairs.drop_last(), i);
    }
}

proof fn update_spares_other_targets(
    pairs: Seq<(Seq<char>, Seq<char>)>,
    at: int,
    to: Seq<char>,
    other: Seq<char>,
)
    requires
        0 <= at < pairs.len(),
        pairs[at].0 != other,
    ensures
        ({
            let new = targets(pairs.update(at, (pairs[at].0, to)));
            &&& new.dom().contains(other) <==> targets(pairs).dom().contains(other)
            &&& new.dom().contains(other) ==> new[other] == targets(pairs)[other]
        }),
    decreases pairs.len(),
{
    let new = pairs.update(at, (pairs[at].0, to));
    let earlier = pairs.drop_last();
    if at == pairs.len() - 1 {
        assert(new.drop_last() =~= earlier);
    } else {
        update_spares_other_targets(earlier, at, to, other);
        assert(new.drop_last() =~= earlier.update(at, (earlier[at].0, to)));
    }
}

/// Whether merging `row` once more into `pairs` would change nothing and add
/// nothing: its alias is there, and it points to the route's target, or the first
/// pair for it does, or conflicts are left alone.
spec fn is_settled(
    pairs: Seq<(Seq<char>, Seq<char>)>,
    row: PreviewRow,
    replace_conflicts: bool,
) -> bool {
    let at = first_for(pairs, row.from, 0);
    &&& targets(pairs).dom().contains(row.from)
    &&& targets(pairs)[row.from] == row.to || !replace_conflicts || (at < pairs.len()
        && pairs[at].1 == row.to)
}

/// Merging a row about one alias leaves every other alias alone.
proof fn merge_row_spares_other_aliases(
    pairs: Seq<(Seq<char>, Seq<char>)>,
    row: PreviewRow,
    replace_conflicts: bool,
    other: Seq<char>,
)
    requires
        row.from != other,
    ensures
        ({
            let next = merge_row(pairs, row, replace_conflicts);
            &&& targets(next).dom().contains(other) <==> targets(pairs).dom().contains(other)
            &&& targets(pairs).dom().contains(other) ==> {
                let at = first_for(pairs, other, 0);
                &&& targets(next)[other] == targets(pairs)[other]
                &&& first_for(next, other, 0) == at
                &&& at < pairs.len() <= next.len()
                &&& next[at] == pairs[at]
            }
        }),
{
    let next = merge_row(pairs, row, replace_conflicts);
    let at = first_for(pairs, row.from, 0);
    first_for_found(pairs, row.from, 0);
    first_for_found(pairs, other, 0);
    first_for_found(next, other, 0);
    if row.action == ChannelModelMappingAction::Create {
        assert(next.drop_last() =~= pairs);
    } else if next != pairs {
        update_spares_other_targets(pairs, at, row.to, other);
    }
    if targets(pairs).dom().contains(other) {
        let i = target_is_somewhere(pairs, other);
        assert(pairs[i].0 == other);
        let a = first_for(pairs, other, 0);
        let b = first_for(next, other, 0);
        assert(a <= i);
        assert(next[a] == pairs[a]);
        assert(b <= a);
        if b < a {
            assert(next[b].0 == pairs[b].0);
        }
    }
}

/// Merging a row settles it, where its alias stands as it did when the row was made.
proof fn merge_row_settles_its_alias(
    pairs: Seq<(Seq<char>, Seq<char>)>,
    current: Map<Seq<char>, Seq<char>>,
    row: PreviewRow,
    replace_conflicts: bool,
)
    requires
        row == compared(current, row.from, row.to),
        targets(pairs).dom().contains(row.from) <==> current.dom().contains(row.from),
        current.dom().contains(row.from) ==> targets(pairs)[row.from] == current[row.from],
    ensures
        is_settled(merge_row(pairs, row, replace_conflicts), row, replace_conflicts),
{
    let next = merge_row(pairs, row, replace_conflicts);
    let at = first_for(pairs, row.from, 0);
    match row.action {
        ChannelModelMappingAction::Skip => {},
        ChannelModelMappingAction::Create => {
            assert(next.drop_last() =~= pairs);
        },
        ChannelModelMappingAction::Conflict => {
            let i = target_is_somewhere(pairs, row.from);
            first_for_found(pairs, row.from, 0);
            assert(at <= i);
            if replace_conflicts {
                first_for_found(next, row.from, 0);
                let b = first_for(next, row.from, 0);
                assert(next[at] == (row.from, row.to));
                assert(b <= at);
                if b < at {
                    assert(next[b] == pairs[b]);
                }
                listed_alias_has_a_target(next, at);
            }
        },
    }
}

proof fn merged_rows_are_settled(
    pairs: Seq<(Seq<char>, Seq<char>)>,
    rows: Seq<PreviewRow>,
    routes: Map<Seq<char>, Seq<char>>,
    replace_conflicts: bool,
    n: int,
)
    requires
        compares_all(rows, targets(pairs), routes),
        0 <= n <= rows.len(),
    ensures
        ({
            let now = merge_rows(pairs, rows.take(n), replace_conflicts);
            &&& forall|j: int|
                0 <= j < n ==> is_settled(now, #[trigger] rows[j], replace_conflicts)
            &&& forall|j: int|
                n <= j < rows.len() ==> (targets(now).dom().contains((#[trigger] rows[j]).from)
                    <==> targets(pairs).dom().contains(rows[j].from))
            &&& forall|j: int|
                n <= j < rows.len() && targets(pairs).dom().contains((#[trigger] rows[j]).from)
                    ==> targets(now)[rows[j].from] == targets(pairs)[rows[j].from]
        }),
    decreases n,
{
    if n == 0 {
        assert(merge_rows(pairs, rows.take(0), replace_conflicts) == pairs);
    } else {
        merged_rows_are_settled(pairs, rows, routes, replace_conflicts, n - 1);
        assert(rows.take(n).drop_last() =~= rows.take(n - 1));
        let before = merge_rows(pairs, rows.take(n - 1), replace_conflicts);
        let row = rows[n - 1];
        let now = merge_row(before, row, replace_conflicts);
        assert(now == merge_rows(pairs, rows.take(n), replace_conflicts));
        assert(row == compared(targets(pairs), row.from, routes[row.from]));
        merge_row_settles_its_alias(before, targets(pairs), row, replace_conflicts);
        assert forall|j: int| 0 <= j < rows.len() && j != n - 1 implies (#[trigger] rows[j]).from
            != row.from by {
            crate::text::precedes_is_irreflexive(row.from);
            if j < n - 1 {
                assert(precedes(rows[j].from, rows[n - 1].from));
            } else {
                assert(precedes(rows[n - 1].from, rows[j].from));
            }
        }
        assert forall|j: int| 0 <= j < n implies is_settled(
            now,
            #[trigger] rows[j],
            replace_conflicts,
        ) by {
            if j < n - 1 {
                assert(is_settled(before, rows[j], replace_conflicts));
                merge_row_spares_other_aliases(before, row, replace_conflicts, rows[j].from);
            }
        }
        assert forall|j: int| n <= j < rows.len() implies (targets(now).dom().contains(
            (#[trigger] rows[j]).from,
        ) <==> targets(pairs).dom().contains(rows[j].from)) by {
            merge_row_spares_other_aliases(before, row, replace_conflicts, rows[j].from);
        }
        assert forall|j: int|
            n <= j < rows.len() && targets(pairs).dom().contains(
                (#[trigger] rows[j]).from,
            ) implies targets(now)[rows[j].from] == targets(pairs)[rows[j].from] by {
            merge_row_spares_other_aliases(before, row, replace_conflicts, rows[j].from);
        }
    }
}

proof fn idle_rows_change_nothing(
    pairs: Seq<(Seq<char>, Seq<char>)>,
    rows: Seq<PreviewRow>,
    replace_conflicts: bool,
)
    requires
        forall|k: int|
            0 <= k < rows.len() ==> merge_row(pairs, #[trigger] rows[k], replace_conflicts) == pairs
                && rows[k].action != ChannelModelMappingAction::Create,
    ensures
        merge_rows(pairs, rows, replace_conflicts) == pairs,
        action_count(rows, ChannelModelMappingAction::Create) == 0,
    decreases rows.len(),
{
    if rows.len() > 0 {
        let earlier = rows.drop_last();
        assert forall|k: int| 0 <= k < earlier.len() implies merge_row(
            pairs,
            #[trigger] earlier[k],
            replace_conflicts,
        ) == pairs && earlier[k].action != ChannelModelMappingAction::Create by {
            assert(earlier[k] == rows[k]);
        }
        idle_rows_change_nothing(pairs, earlier, replace_conflicts);
        assert(rows[rows.len() - 1] == rows.last());
    }
}

/// Applying the same routes a second time changes nothing, whether conflicts are
/// replaced or not and however often an alias stands: the second preview creates
/// nothing, and merging it leaves the aliases as the first merge left them.
pub proof fn second_merge_changes_nothing(
    pairs: Seq<(Seq<char>, Seq<char>)>,
    routes: Map<Seq<char>, Seq<char>>,
    first: Seq<PreviewRow>,
    second: Seq<PreviewRow>,
    replace_conflicts: bool,
)
    requires
        compares_all(first, targets(pairs), routes),
        compares_all(second, targets(merge_rows(pairs, first, replace_conflicts)), routes),
    ensures
        merge_rows(merge_rows(pairs, first, replace_conflicts), second, replace_conflicts)
            == merge_rows(pairs, first, replace_conflicts),
        action_count(second, ChannelModelMappingAction::Create) == 0,
{
    let merged = merge_rows(pairs, first, replace_conflicts);
    merged_rows_are_settled(pairs, first, routes, replace_conflicts, first.len() as int);
    assert(first.take(first.len() as int) =~= first);
    assert forall|k: int| 0 <= k < second.len() implies merge_row(
        merged,
        #[trigger] second[k],
        replace_conflicts,
    ) == merged && second[k].action != ChannelModelMappingAction::Create by {
        let row = second[k];
        assert(routes.dom().contains(row.from));
        assert(row == compared(targets(merged), row.from, routes[row.from]));
        let j = choose|j: int| 0 <= j < first.len() && (#[trigger] first[j]).from == row.from;
        assert(first[j] == compared(targets(pairs), first[j].from, routes[first[j].from]));
        assert(is_settled(merged, first[j], replace_conflicts));
        first_for_found(merged, row.from, 0);
        let at = first_for(merged, row.from, 0);
        if row.action == ChannelModelMappingAction::Conflict && replace_conflicts && at
            < merged.len() {
            assert(merged[at] == (row.from, row.to));
            assert(merged.update(at, (row.from, row.to)) =~= merged);
        }
    }
    idle_rows_change_nothing(merged, second, replace_conflicts);
}

// ---------------------------------------------------------------------------
// What previews and merges say of aliases and routes
// ---------------------------------------------------------------------------

/// Of several pairs for one name the last one counts, and a name without a pair has no
/// target.
pub proof fn the_last_pair_counts(pairs: Seq<(Seq<char>, Seq<char>)>, name: Seq<char>)
    ensures
        forall|i: int|
            0 <= i < pairs.len() && (#[trigger] pairs[i]).0 == name && (forall|j: int|
                i < j < pairs.len() ==> (#[trigger] pairs[j]).0 != name) ==> targets(
                pairs,
            ).dom().contains(name) && targets(pairs)[name] == pairs[i].1,
        targets(pairs).dom().contains(name) <==> exists|i: int|
            0 <= i < pairs.len() && (#[trigger] pairs[i]).0 == name,
    decreases pairs.len(),
{
    if pairs.len() > 0 {
        let earlier = pairs.drop_last();
        let last = pairs.len() - 1;
        the_last_pair_counts(earlier, name);
        assert forall|i: int|
            0 <= i < pairs.len() && (#[trigger] pairs[i]).0 == name && (forall|j: int|
                i < j < pairs.len() ==> (#[trigger] pairs[j]).0 != name) implies targets(
            pairs,
        ).dom().contains(name) && targets(pairs)[name] == pairs[i].1 by {
            if i < last {
                assert(pairs[last].0 != name);
                assert(earlier[i] == pairs[i]);
                assert forall|j: int| i < j < earlier.len() implies (#[trigger] earlier[j]).0
                    != name by {
                    assert(earlier[j] == pairs[j]);
                }
            }
        }
        if exists|i: int| 0 <= i < pairs.len() && (#[trigger] pairs[i]).0 == name {
            let i = choose|i: int| 0 <= i < pairs.len() && (#[trigger] pairs[i]).0 == name;
            if i < last {
                assert(earlier[i].0 == name);
            }
        }
        if targets(pairs).dom().contains(name) {
            if pairs[last].0 != name {
                let i = choose|i: int| 0 <= i < earlier.len() && (#[trigger] earlier[i]).0 == name;
                assert(pairs[i].0 == name);
            }
        }
    }
}

/// Whether `i` is the last position of an alias in a list.
pub open spec fn last_alias(existing: Seq<ModelMapping>, name: Seq<char>, i: int) -> bool {
    &&& 0 <= i < existing.len()
    &&& existing[i].from@ == name
    &&& forall|j: int| i < j < existing.len() ==> (#[trigger] existing[j]).from@ != name
}

/// Whether `i` is the last position of a name in a list of routes.
pub open spec fn last_route(routed: Seq<(String, String)>, name: Seq<char>, i: int) -> bool {
    &&& 0 <= i < routed.len()
    &&& routed[i].0@ == name
    &&& forall|j: int| i < j < routed.len() ==> (#[trigger] routed[j]).0@ != name
}

proof fn aliases_by_position(existing: Seq<ModelMapping>, name: Seq<char>, i: int)
    ensures
        last_alias(existing, name, i) ==> targets(alias_pairs(existing)).dom().contains(name)
            && targets(alias_pairs(existing))[name] == existing[i].to@,
        targets(alias_pairs(existing)).dom().contains(name) <==> exists|j: int|
            0 <= j < existing.len() && (#[trigger] existing[j]).from@ == name,
{
    let pairs = alias_pairs(existing);
    the_last_pair_counts(pairs, name);
    if last_alias(existing, name, i) {
        assert(pairs[i].0 == name);
        assert forall|j: int| i < j < pairs.len() implies (#[trigger] pairs[j]).0 != name by {
            assert(existing[j].from@ != name);
        }
    }
    if exists|j: int| 0 <= j < existing.len() && (#[trigger] existing[j]).from@ == name {
        let j = choose|j: int| 0 <= j < existing.len() && (#[trigger] existing[j]).from@ == name;
        assert(pairs[j].0 == name);
    }
    if targets(pairs).dom().contains(name) {
        let j = choose|j: int| 0 <= j < pairs.len() && (#[trigger] pairs[j]).0 == name;
        assert(existing[j].from@ == name);
    }
}

proof fn routes_by_position(routed: Seq<(String, String)>, name: Seq<char>, i: int)
    ensures
        last_route(routed, name, i) ==> targets(route_pairs(routed)).dom().contains(name)
            && targets(route_pairs(routed))[name] == routed[i].1@,
        targets(route_pairs(routed)).dom().contains(name) <==> exists|j: int|
            0 <= j < routed.len() && (#[trigger] routed[j]).0@ == name,
{
    let pairs = route_pairs(routed);
    the_last_pair_counts(pairs, name);
    if last_route(routed, name, i) {
        assert(pairs[i].0 == name);
        assert forall|j: int| i < j < pairs.len() implies (#[trigger] pairs[j]).0 != name by {
            assert(routed[j].0@ != name);
        }
    }
    if exists|j: int| 0 <= j < routed.len() && (#[trigger] routed[j]).0@ == name {
        let j = choose|j: int| 0 <= j < routed.len() && (#[trigger] routed[j]).0@ == name;
        assert(pairs[j].0 == name);
    }
    if targets(pairs).dom().contains(name) {
        let j = choose|j: int| 0 <= j < pairs.len() && (#[trigger] pairs[j]).0 == name;
        assert(routed[j].0@ == name);
    }
}

/// A preview has an entry for every routed name and for no other, in the order of the
/// names. The target of an entry is that of the last route for its name.
pub proof fn previews_have_an_entry_per_route(
    entries: Seq<ChannelModelMappingPreviewEntry>,
    existing: Seq<ModelMapping>,
    routed: Seq<(String, String)>,
    i: int,
    j: int,
    r: int,
)
    requires
        compares_all(
            preview_rows(entries),
            targets(alias_pairs(existing)),
            targets(route_pairs(routed)),
        ),
    ensures
        0 <= r < routed.len() ==> exists|k: int|
            0 <= k < entries.len() && (#[trigger] entries[k]).from@ == routed[r].0@,
        0 <= i < entries.len() ==> exists|k: int|
            0 <= k < routed.len() && (#[trigger] routed[k]).0@ == entries[i].from@,
        0 <= i < entries.len() && last_route(routed, entries[i].from@, r) ==> entries[i].to@
            == routed[r].1@,
        0 <= i < j < entries.len() ==> precedes(entries[i].from@, entries[j].from@),
{
    let rows = preview_rows(entries);
    if 0 <= r < routed.len() {
        routes_by_position(routed, routed[r].0@, r);
        let k = choose|k: int| 0 <= k < rows.len() && (#[trigger] rows[k]).from == routed[r].0@;
        assert(entries[k].from@ == routed[r].0@);
    }
    if 0 <= i < entries.len() {
        assert(rows[i].from == entries[i].from@);
        routes_by_position(routed, entries[i].from@, r);
        if i < j < entries.len() {
            assert(rows[j].from == entries[j].from@);
        }
    }
}

/// An entry proposes to create an alias exactly where the channel has none of that name.
/// Where the last alias of that name has the route's target already, it is skipped;
/// otherwise it is a conflict. Either way the entry shows the target at hand.
pub proof fn previews_tell_new_aliases_from_conflicts(
    entries: Seq<ChannelModelMappingPreviewEntry>,
    existing: Seq<ModelMapping>,
    routed: Seq<(String, String)>,
    i: int,
    m: int,
)
    requires
        compares_all(
            preview_rows(entries),
            targets(alias_pairs(existing)),
            targets(route_pairs(routed)),
        ),
        0 <= i < entries.len(),
    ensures
        entries[i].action == ChannelModelMappingAction::Create <==> forall|j: int|
            0 <= j < existing.len() ==> (#[trigger] existing[j]).from@ != entries[i].from@,
        entries[i].action == ChannelModelMappingAction::Create <==> entries[i].previous_to is None,
        last_alias(existing, entries[i].from@, m) ==> {
            &&& entries[i].action == ChannelModelMappingAction::Skip <==> existing[m].to@
                == entries[i].to@
            &&& entries[i].action == ChannelModelMappingAction::Conflict <==> existing[m].to@
                != entries[i].to@
            &&& entries[i].previous_to is Some
            &&& entries[i].previous_to->0@ == existing[m].to@
        },
        entries[i].reason@ == match entries[i].action {
            ChannelModelMappingAction::Create => "route is not present in channel aliases"@,
            ChannelModelMappingAction::Skip => "channel alias already matches the route"@,
            ChannelModelMappingAction::Conflict => "channel alias points to another upstream model"@,
        },
{
    let rows = preview_rows(entries);
    assert(rows[i] == entries[i]@);
    aliases_by_position(existing, entries[i].from@, m);
}

/// The counts of a preview are the numbers of entries that propose each action.
pub proof fn counts_are_numbers_of_entries(
    rows: Seq<PreviewRow>,
    action: ChannelModelMappingAction,
)
    ensures
        action_count(rows, action) == rows.filter(|row: PreviewRow| row.action == action).len(),
    decreases rows.len(),
{
    let proposes = |row: PreviewRow| row.action == action;
    reveal(Seq::filter);
    if rows.len() > 0 {
        counts_are_numbers_of_entries(rows.drop_last(), action);
        assert(rows.filter(proposes) == if proposes(rows.last()) {
            rows.drop_last().filter(proposes).push(rows.last())
        } else {
            rows.drop_last().filter(proposes)
        });
    }
}

/// Whether two lists hold the same aliases at the same positions.
pub open spec fn same_aliases(a: Seq<ModelMapping>, b: Seq<ModelMapping>) -> bool {
    &&& a.len() == b.len()
    &&& forall|i: int|
        0 <= i < a.len() ==> (#[trigger] a[i]).from@ == b[i].from@ && a[i].to@ == b[i].to@
}

/// A merge of an empty preview leaves the aliases as they are.
pub proof fn nothing_to_merge_changes_nothing(
    existing: Seq<ModelMapping>,
    merged: Seq<ModelMapping>,
    replace_conflicts: bool,
)
    requires
        alias_pairs(merged) == merge_rows(
            alias_pairs(existing),
            preview_rows(Seq::empty()),
            replace_conflicts,
        ),
    ensures
        same_aliases(existing, merged),
{
    assert(alias_pairs(existing) == alias_pairs(merged));
    assert(alias_pairs(existing).len() == alias_pairs(merged).len());
    assert forall|i: int| 0 <= i < existing.len() implies (#[trigger] existing[i]).from@
        == merged[i].from@ && existing[i].to@ == merged[i].to@ by {
        assert(alias_pairs(existing)[i] == alias_pairs(merged)[i]);
    }
}

/// One more entry in a preview adds its alias at the end, with its target, where it is to
/// be created, whatever conflicts mean; points the first alias of its name to its target
/// where it is a conflict and conflicts are replaced; and changes nothing else.
pub proof fn one_more_entry_merges_itself_only(
    existing: Seq<ModelMapping>,
    entries: Seq<ChannelModelMappingPreviewEntry>,
    replace_conflicts: bool,
    before: Seq<ModelMapping>,
    after: Seq<ModelMapping>,
)
    requires
        entries.len() > 0,
        alias_pairs(before) == merge_rows(
            alias_pairs(existing),
            preview_rows(entries.drop_last()),
            replace_conflicts,
        ),
        alias_pairs(after) == merge_rows(
            alias_pairs(existing),
            preview_rows(entries),
            replace_conflicts,
        ),
    ensures
        entries.last().action == ChannelModelMappingAction::Create ==> {
            &&& after.len() == before.len() + 1
            &&& same_aliases(before, after.drop_last())
            &&& after.last().from@ == entries.last().from@
            &&& after.last().to@ == entries.last().to@
        },
        entries.last().action == ChannelModelMappingAction::Skip ==> same_aliases(before, after),
        entries.last().action == ChannelModelMappingAction::Conflict && !replace_conflicts
            ==> same_aliases(before, after),
        entries.last().action == ChannelModelMappingAction::Conflict && replace_conflicts ==> {
            &&& after.len() == before.len()
            &&& forall|i: int|
                0 <= i < before.len() ==> {
                    &&& (#[trigger] after[i]).from@ == before[i].from@
                    &&& after[i].to@ == if before[i].from@ == entries.last().from@ && forall|j: int|
                        0 <= j < i ==> (#[trigger] before[j]).from@ != before[i].from@ {
                        entries.last().to@
                    } else {
                        before[i].to@
                    }
                }
        },
{
    let rows = preview_rows(entries);
    let row = entries.last()@;
    assert(rows.drop_last() =~= preview_rows(entries.drop_last()));
    assert(rows.last() == row);
    let old_pairs = alias_pairs(before);
    let new_pairs = alias_pairs(after);
    assert(new_pairs == merge_row(old_pairs, row, replace_conflicts));
    assert(new_pairs.len() == after.len() && old_pairs.len() == before.len());
    assert forall|i: int| 0 <= i < after.len() implies new_pairs[i] == (
        (#[trigger] after[i]).from@,
        after[i].to@,
    ) by {}
    assert forall|i: int| 0 <= i < before.len() implies old_pairs[i] == (
        (#[trigger] before[i]).from@,
        before[i].to@,
    ) by {}
    let at = first_for(old_pairs, row.from, 0);
    first_for_found(old_pairs, row.from, 0);
    if row.action == ChannelModelMappingAction::Create {
        let kept = after.drop_last();
        assert forall|i: int| 0 <= i < before.len() implies (#[trigger] before[i]).from@
            == kept[i].from@ && before[i].to@ == kept[i].to@ by {
            assert(new_pairs[i] == old_pairs[i]);
            assert(after[i] == kept[i]);
        }
        assert(new_pairs[after.len() - 1] == (row.from, row.to));
    } else if row.action == ChannelModelMappingAction::Conflict && replace_conflicts {
        assert forall|i: int| 0 <= i < before.len() implies {
            &&& (#[trigger] after[i]).from@ == before[i].from@
            &&& after[i].to@ == if before[i].from@ == row.from && forall|j: int|
                0 <= j < i ==> (#[trigger] before[j]).from@ != before[i].from@ {
                row.to
            } else {
                before[i].to@
            }
        } by {
            assert(new_pairs[i] == (after[i].from@, after[i].to@));
            assert(old_pairs[i] == (before[i].from@, before[i].to@));
            if i == at {
                assert forall|j: int| 0 <= j < i implies (#[trigger] before[j]).from@
                    != before[i].from@ by {
                    assert(old_pairs[j].0 != row.from);
                }
            } else if at < i {
                assert(old_pairs[at].0 == row.from);
                assert(before[at].from@ == row.from);
            }
        }
    } else {
        assert forall|i: int| 0 <= i < before.len() implies (#[trigger] before[i]).from@
            == after[i].from@ && before[i].to@ == after[i].to@ by {
            assert(new_pairs[i] == old_pairs[i]);
        }
    }
}

/// Which target a row's alias has once the row has been merged.
spec fn settled_target(row: PreviewRow, replace_conflicts: bool) -> Seq<char> {
    if row.action == ChannelModelMappingAction::Conflict && !replace_conflicts {
        row.previous_to->0
    } else {
        row.to
    }
}

proof fn merged_targets_stand(
    pairs: Seq<(Seq<char>, Seq<char>)>,
    rows: Seq<PreviewRow>,
    routes: Map<Seq<char>, Seq<char>>,
    replace_conflicts: bool,
    n: int,
)
    requires
        compares_all(rows, targets(pairs), routes),
        0 <= n <= rows.len(),
    ensures
        forall|j: int|
            0 <= j < n && ((#[trigger] rows[j]).action != ChannelModelMappingAction::Conflict
                || !replace_conflicts) ==> {
                let now = targets(merge_rows(pairs, rows.take(n), replace_conflicts));
                &&& now.dom().contains(rows[j].from)
                &&& now[rows[j].from] == settled_target(rows[j], replace_conflicts)
            },
    decreases n,
{
    if n > 0 {
        merged_targets_stand(pairs, rows, routes, replace_conflicts, n - 1);
        merged_rows_are_settled(pairs, rows, routes, replace_conflicts, n - 1);
        assert(rows.take(n).drop_last() =~= rows.take(n - 1));
        let before = merge_rows(pairs, rows.take(n - 1), replace_conflicts);
        let row = rows[n - 1];
        let now = merge_row(before, row, replace_conflicts);
        assert(now == merge_rows(pairs, rows.take(n), replace_conflicts));
        assert(row == compared(targets(pairs), row.from, routes[row.from]));
        if row.action == ChannelModelMappingAction::Create {
            assert(now.drop_last() =~= before);
        }
        assert forall|j: int|
            0 <= j < n && ((#[trigger] rows[j]).action != ChannelModelMappingAction::Conflict
                || !replace_conflicts) implies {
            &&& targets(now).dom().contains(rows[j].from)
            &&& targets(now)[rows[j].from] == settled_target(rows[j], replace_conflicts)
        } by {
            if j < n - 1 {
                crate::text::precedes_is_irreflexive(row.from);
                assert(precedes(rows[j].from, rows[n - 1].from));
                merge_row_spares_other_aliases(before, row, replace_conflicts, rows[j].from);
            }
        }
    }
}

/// After a merge, with or without replacement of conflicts, every alias that the preview
/// was to create has the target of its entry; every alias that it was to skip still has
/// it; and one at odds keeps its target unless conflicts are replaced. The preview must
/// be one of the given aliases.
pub proof fn merges_create_what_the_preview_says(
    existing: Seq<ModelMapping>,
    entries: Seq<ChannelModelMappingPreviewEntry>,
    routed: Seq<(String, String)>,
    merged: Seq<ModelMapping>,
    replace_conflicts: bool,
    i: int,
)
    requires
        compares_all(
            preview_rows(entries),
            targets(alias_pairs(existing)),
            targets(route_pairs(routed)),
        ),
        alias_pairs(merged) == merge_rows(
            alias_pairs(existing),
            preview_rows(entries),
            replace_conflicts,
        ),
        0 <= i < entries.len(),
    ensures
        targets(alias_pairs(merged)).dom().contains(entries[i].from@),
        entries[i].action == ChannelModelMappingAction::Create ==> targets(
            alias_pairs(merged),
        )[entries[i].from@] == entries[i].to@,
        entries[i].action == ChannelModelMappingAction::Skip ==> targets(
            alias_pairs(merged),
        )[entries[i].from@] == entries[i].to@,
        entries[i].action == ChannelModelMappingAction::Conflict && !replace_conflicts
            ==> entries[i].previous_to is Some && targets(alias_pairs(merged))[entries[i].from@]
            == entries[i].previous_to->0@,
        entries[i].action == ChannelModelMappingAction::Conflict && replace_conflicts
            && aliases_are_unique(alias_pairs(existing)) ==> targets(
            alias_pairs(merged),
        )[entries[i].from@] == entries[i].to@,
{
    let rows = preview_rows(entries);
    let routes = targets(route_pairs(routed));
    let pairs = alias_pairs(existing);
    let n = rows.len() as int;
    assert(rows.take(n) =~= rows);
    merged_targets_stand(pairs, rows, routes, replace_conflicts, n);
    merged_rows_are_settled(pairs, rows, routes, replace_conflicts, n);
    assert(rows[i] == entries[i]@);
    assert(rows[i] == compared(targets(pairs), rows[i].from, routes[rows[i].from]));
    assert(is_settled(merge_rows(pairs, rows, replace_conflicts), rows[i], replace_conflicts));
    if replace_conflicts && aliases_are_unique(pairs) {
        merge_in_steps(pairs, rows, routes, n);
    }
}

/// A merge leaves the target of every alias alone that the preview does not name.
pub proof fn merges_spare_unnamed_aliases(
    existing: Seq<ModelMapping>,
    entries: Seq<ChannelModelMappingPreviewEntry>,
    merged: Seq<ModelMapping>,
    replace_conflicts: bool,
    name: Seq<char>,
)
    requires
        alias_pairs(merged) == merge_rows(
            alias_pairs(existing),
            preview_rows(entries),
            replace_conflicts,
        ),
        forall|i: int| 0 <= i < entries.len() ==> (#[trigger] entries[i]).from@ != name,
    ensures
        targets(alias_pairs(merged)).dom().contains(name) <==> targets(
            alias_pairs(existing),
        ).dom().contains(name),
        targets(alias_pairs(merged)).dom().contains(name) ==> targets(alias_pairs(merged))[name]
            == targets(alias_pairs(existing))[name],
{
    let rows = preview_rows(entries);
    assert forall|i: int| 0 <= i < rows.len() implies (#[trigger] rows[i]).from != name by {
        assert(entries[i].from@ != name);
    }
    unnamed_targets_stand(alias_pairs(existing), rows, replace_conflicts, name);
}

proof fn unnamed_targets_stand(
    pairs: Seq<(Seq<char>, Seq<char>)>,
    rows: Seq<PreviewRow>,
    replace_conflicts: bool,
    name: Seq<char>,
)
    requires
        forall|i: int| 0 <= i < rows.len() ==> (#[trigger] rows[i]).from != name,
    ensures
        ({
            let now = targets(merge_rows(pairs, rows, replace_conflicts));
            &&& now.dom().contains(name) <==> targets(pairs).dom().contains(name)
            &&& now.dom().contains(name) ==> now[name] == targets(pairs)[name]
        }),
    decreases rows.len(),
{
    if rows.len() > 0 {
        let earlier = rows.drop_last();
        assert forall|i: int| 0 <= i < earlier.len() implies (#[trigger] earlier[i]).from
            != name by {
            assert(earlier[i] == rows[i]);
        }
        unnamed_targets_stand(pairs, earlier, replace_conflicts, name);
        assert(rows[rows.len() - 1].from != name);
        merge_row_spares_other_aliases(
            merge_rows(pairs, earlier, replace_conflicts),
            rows.last(),
            replace_conflicts,
            name,
        );
    }
}

/// What each `CommercializationError` reads like.
pub proof fn commercialization_errors_read_like_this(error: CommercializationError)
    ensures
        error is Unavailable ==> error.text() == "commercialization service is unavailable"@,
        error matches CommercializationError::NotFound(what) ==> error.text() == "commercialization object not found: "@ + what@,
        error matches CommercializationError::Invalid(what) ==> error.text() == "invalid commercialization input: "@ + what@,
        error matches CommercializationError::Storage(what) ==> error.text() == "commercialization operation failed: "@ + what@,
{
}

} // verus!
