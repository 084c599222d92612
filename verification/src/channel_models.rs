//! The request models that a channel answers to, derived from its supported
//! models, its prefixes and its aliases.
use vstd::prelude::*;

use crate::channel::{Channel, ModelMapping};
use crate::text::{has_text, joined3, lowered, precedes, same_text, strip_prefix, texts, to_lower};
use crate::text_map::TextMap;

verus! {

/// How a request model came to be accepted.
#[derive(Debug, Clone, Copy, PartialEq, Eq, Structural)]
pub enum ModelEntrySource {
    /// The channel supports the model under this very name.
    Direct,
    /// A configured prefix was cut from a supported model.
    AutoTrim,
    /// A configured alias names a supported model.
    Mapping,
    /// The extra prefix was put before a supported model.
    Prefix,
}

impl ModelEntrySource {
    /// Which source wins when several claim one request model: the higher.
    pub open spec fn rank(self) -> nat {
        match self {
            ModelEntrySource::Direct => 4,
            ModelEntrySource::AutoTrim => 3,
            ModelEntrySource::Mapping => 2,
            ModelEntrySource::Prefix => 1,
        }
    }

    /// Which source wins when several claim one request model: the higher.
    pub fn priority(self) -> (priority: u8)
        ensures
            priority == self.rank(),
    {
        match self {
            ModelEntrySource::Direct => 4,
            ModelEntrySource::AutoTrim => 3,
            ModelEntrySource::Mapping => 2,
            ModelEntrySource::Prefix => 1,
        }
    }

    /// The source's name.
    pub open spec fn text(self) -> Seq<char> {
        match self {
            ModelEntrySource::Direct => "direct"@,
            ModelEntrySource::AutoTrim => "auto_trim"@,
            ModelEntrySource::Mapping => "mapping"@,
            ModelEntrySource::Prefix => "prefix"@,
        }
    }

    /// The source's name.
    pub fn as_str(self) -> (name: &'static str)
        ensures
            name@ == self.text(),
    {
        match self {
            ModelEntrySource::Direct => "direct",
            ModelEntrySource::AutoTrim => "auto_trim",
            ModelEntrySource::Mapping => "mapping",
            ModelEntrySource::Prefix => "prefix",
        }
    }
}

/// What a request model stands for: the model sent upstream and the source of
/// the entry.
pub struct ModelEntry {
    pub actual: Seq<char>,
    pub source: ModelEntrySource,
}

/// Entries by request model.
pub type ModelTable = Map<Seq<char>, ModelEntry>;

/// The working form of an entry.
pub struct DerivedModelEntry {
    pub actual_model: String,
    pub source: ModelEntrySource,
}

impl View for DerivedModelEntry {
    type V = ModelEntry;

    open spec fn view(&self) -> ModelEntry {
        ModelEntry { actual: self.actual_model@, source: self.source }
    }
}

/// One request model that a channel accepts.
#[derive(Debug, Clone, PartialEq, Eq)]
pub struct ChannelModelEntry {
    pub request_model: String,
    pub actual_model: String,
    pub source: String,
}

// ---------------------------------------------------------------------------
// The table
// ---------------------------------------------------------------------------

/// `entry` is offered for request model `key`: it is taken where the key is free
/// or held by a source of lower rank.
pub open spec fn offer(table: ModelTable, key: Seq<char>, entry: ModelEntry) -> ModelTable {
    if table.dom().contains(key) && entry.source.rank() <= table[key].source.rank() {
        table
    } else {
        table.insert(key, entry)
    }
}

/// Each supported model is offered under its own name.
pub open spec fn offer_direct(table: ModelTable, models: Seq<Seq<char>>) -> ModelTable
    decreases models.len(),
{
    if models.len() == 0 {
        table
    } else {
        let model = models.last();
        offer(
            offer_direct(table, models.drop_last()),
            model,
            ModelEntry { actual: model, source: ModelEntrySource::Direct },
        )
    }
}

/// Each supported model is offered as `prefix/model`.
pub open spec fn offer_prefixed(
    table: ModelTable,
    models: Seq<Seq<char>>,
    prefix: Seq<char>,
) -> ModelTable
    decreases models.len(),
{
    if models.len() == 0 {
        table
    } else {
        let model = models.last();
        offer(
            offer_prefixed(table, models.drop_last(), prefix),
            prefix + "/"@ + model,
            ModelEntry { actual: model, source: ModelEntrySource::Prefix },
        )
    }
}

/// Each supported model that starts with `lead` is offered without it.
pub open spec fn offer_trimmed(
    table: ModelTable,
    models: Seq<Seq<char>>,
    lead: Seq<char>,
) -> ModelTable
    decreases models.len(),
{
    if models.len() == 0 {
        table
    } else {
        let model = models.last();
        let earlier = offer_trimmed(table, models.drop_last(), lead);
        match crate::text::after_prefix(model, lead) {
            Some(rest) => offer(
                earlier,
                rest,
                ModelEntry { actual: model, source: ModelEntrySource::AutoTrim },
            ),
            None => earlier,
        }
    }
}

/// The same for every prefix that is not empty, each followed by a slash.
pub open spec fn offer_all_trimmed(
    table: ModelTable,
    models: Seq<Seq<char>>,
    prefixes: Seq<Seq<char>>,
) -> ModelTable
    decreases prefixes.len(),
{
    if prefixes.len() == 0 {
        table
    } else {
        let earlier = offer_all_trimmed(table, models, prefixes.drop_last());
        if prefixes.last().len() == 0 {
            earlier
        } else {
            offer_trimmed(earlier, models, prefixes.last() + "/"@)
        }
    }
}

/// The entries that `keep` picks.
pub open spec fn kept(table: ModelTable, keep: spec_fn(ModelEntry) -> bool) -> ModelTable {
    Map::new(|k: Seq<char>| table.dom().contains(k) && keep(table[k]), |k: Seq<char>| table[k])
}

/// What stays when `model` is to be reached by alias only.
pub open spec fn alias_only(model: Seq<char>) -> spec_fn(ModelEntry) -> bool {
    |e: ModelEntry| e.source == ModelEntrySource::Mapping || e.actual != model
}

/// What stays when supported models are not to be reached by their own names.
pub open spec fn not_direct() -> spec_fn(ModelEntry) -> bool {
    |e: ModelEntry| e.source != ModelEntrySource::Direct
}

/// Each alias of a supported model is offered, in order; with `hiding` the other
/// ways to reach that model are dropped right after.
pub open spec fn offer_aliases(
    table: ModelTable,
    models: Seq<Seq<char>>,
    aliases: Seq<(Seq<char>, Seq<char>)>,
    hiding: bool,
) -> ModelTable
    decreases aliases.len(),
{
    if aliases.len() == 0 {
        table
    } else {
        let earlier = offer_aliases(table, models, aliases.drop_last(), hiding);
        let (from, to) = aliases.last();
        if !models.contains(to) {
            earlier
        } else {
            let offered = offer(
                earlier,
                from,
                ModelEntry { actual: to, source: ModelEntrySource::Mapping },
            );
            if hiding {
                kept(offered, alias_only(to))
            } else {
                offered
            }
        }
    }
}

/// `key` is the request model whose entry survives under the lower-case key
/// `low`: of those that fall together the one of highest rank, and of these the
/// first in order.
pub open spec fn survives(table: ModelTable, low: Seq<char>, key: Seq<char>) -> bool {
    &&& table.dom().contains(key)
    &&& lowered(key) == low
    &&& forall|other: Seq<char>|
        #[trigger] table.dom().contains(other) && lowered(other) == low ==> {
            ||| table[other].source.rank() < table[key].source.rank()
            ||| table[other].source.rank() == table[key].source.rank() && !precedes(other, key)
        }
}

/// The table with every request model in lower case.
pub open spec fn lowercase_table(table: ModelTable) -> ModelTable {
    Map::new(
        |low: Seq<char>|
            exists|key: Seq<char>| #[trigger] table.dom().contains(key) && lowered(key) == low,
        |low: Seq<char>| table[choose|key: Seq<char>| survives(table, low, key)],
    )
}

/// The extra prefix of a channel, empty where none is set.
pub open spec fn extra_prefix(channel: Channel) -> Seq<char> {
    match channel.settings {
        Some(settings) => match settings.extra_model_prefix {
            Some(prefix) => prefix@,
            None => Seq::empty(),
        },
        None => Seq::empty(),
    }
}

/// The prefixes that a channel cuts from its supported models.
pub open spec fn trimmed_prefixes(channel: Channel) -> Seq<Seq<char>> {
    match channel.settings {
        Some(settings) => match settings.auto_trimed_model_prefixes {
            Some(prefixes) => texts(prefixes@),
            None => Seq::empty(),
        },
        None => Seq::empty(),
    }
}

/// Aliases as pairs of texts.
pub open spec fn alias_pairs(mappings: Seq<ModelMapping>) -> Seq<(Seq<char>, Seq<char>)> {
    Seq::new(mappings.len(), |i: int| (mappings[i].from@, mappings[i].to@))
}

/// The aliases of a channel.
pub open spec fn channel_aliases(channel: Channel) -> Seq<(Seq<char>, Seq<char>)> {
    match channel.settings {
        Some(settings) => match settings.model_mappings {
            Some(mappings) => alias_pairs(mappings@),
            None => Seq::empty(),
        },
        None => Seq::empty(),
    }
}

/// Whether an aliased model is reached by its alias only.
pub open spec fn hides_mapped(channel: Channel) -> bool {
    channel.settings is Some && channel.settings->0.hide_mapped_models == Some(true)
}

/// Whether supported models are hidden under their own names.
pub open spec fn hides_original(channel: Channel) -> bool {
    channel.settings is Some && channel.settings->0.hide_original_models == Some(true)
}

/// Whether request models are put into lower case.
pub open spec fn lowers_models(channel: Channel) -> bool {
    channel.settings is Some && channel.settings->0.lowercase_model_id == Some(true)
}

/// The models that a channel supports.
pub open spec fn supported(channel: Channel) -> Seq<Seq<char>> {
    texts(channel.supported_models@)
}

/// Everything offered by name, prefix and cut prefix.
pub open spec fn named_table(channel: Channel) -> ModelTable {
    let models = supported(channel);
    let direct = offer_direct(Map::empty(), models);
    let prefixed = if extra_prefix(channel).len() == 0 {
        direct
    } else {
        offer_prefixed(direct, models, extra_prefix(channel))
    };
    offer_all_trimmed(prefixed, models, trimmed_prefixes(channel))
}

/// The same with aliases, and without what is hidden.
pub open spec fn visible_table(channel: Channel) -> ModelTable {
    let aliased = offer_aliases(
        named_table(channel),
        supported(channel),
        channel_aliases(channel),
        hides_mapped(channel),
    );
    if hides_original(channel) {
        kept(aliased, not_direct())
    } else {
        aliased
    }
}

/// The request models that a channel accepts, and what each stands for.
pub open spec fn model_table(channel: Channel) -> ModelTable {
    if lowers_models(channel) {
        lowercase_table(visible_table(channel))
    } else {
        visible_table(channel)
    }
}

/// `rows` lists `table` in the order of its request models, each once.
pub open spec fn lists_table(rows: Seq<ChannelModelEntry>, table: ModelTable) -> bool {
    &&& forall|i: int, j: int|
        0 <= i < j < rows.len() ==> precedes(
            (#[trigger] rows[i]).request_model@,
            (#[trigger] rows[j]).request_model@,
        )
    &&& forall|i: int|
        0 <= i < rows.len() ==> {
            let row = #[trigger] rows[i];
            &&& table.dom().contains(row.request_model@)
            &&& row.actual_model@ == table[row.request_model@].actual
            &&& row.source@ == table[row.request_model@].source.text()
        }
    &&& forall|k: Seq<char>| #[trigger]
        table.dom().contains(k) ==> exists|i: int|
            0 <= i < rows.len() && (#[trigger] rows[i]).request_model@ == k
}

// ---------------------------------------------------------------------------
// Deriving it
// ---------------------------------------------------------------------------

/// Offers an entry for a request model: it is taken where the model is free or
/// held by a source of lower rank.
pub fn insert_model_entry(
    entries: &mut TextMap<DerivedModelEntry>,
    request_model: String,
    actual_model: String,
    source: ModelEntrySource,
)
    requires
        old(entries).wf(),
    ensures
        final(entries).wf(),
        final(entries)@ == offer(
            old(entries)@,
            request_model@,
            (ModelEntry { actual: actual_model@, source: source }),
        ),
{
    let taken = match entries.get(request_model.as_str()) {
        Some(current) => source.priority() > current.source.priority(),
        None => true,
    };
    if taken {
        entries.insert(request_model, DerivedModelEntry { actual_model, source });
    }
}

fn offer_direct_models(entries: &mut TextMap<DerivedModelEntry>, models: &Vec<String>)
    requires
        old(entries).wf(),
    ensures
        final(entries).wf(),
        final(entries)@ == offer_direct(old(entries)@, texts(models@)),
{
    let mut i: usize = 0;
    let ghost all = texts(models@);
    assert(all.take(0) =~= Seq::empty());
    while i < models.len()
        invariant
            i <= models@.len(),
            all == texts(models@),
            entries.wf(),
            entries@ == offer_direct(old(entries)@, all.take(i as int)),
        decreases models@.len() - i,
    {
        insert_model_entry(
            entries,
            models[i].clone(),
            models[i].clone(),
            ModelEntrySource::Direct,
        );
        assert(all.take(i + 1).drop_last() =~= all.take(i as int));
        i += 1;
    }
    assert(all.take(i as int) =~= all);
}

fn offer_prefixed_models(
    entries: &mut TextMap<DerivedModelEntry>,
    models: &Vec<String>,
    prefix: &str,
)
    requires
        old(entries).wf(),
    ensures
        final(entries).wf(),
        final(entries)@ == offer_prefixed(old(entries)@, texts(models@), prefix@),
{
    let mut i: usize = 0;
    let ghost all = texts(models@);
    assert(all.take(0) =~= Seq::empty());
    while i < models.len()
        invariant
            i <= models@.len(),
            all == texts(models@),
            entries.wf(),
            entries@ == offer_prefixed(old(entries)@, all.take(i as int), prefix@),
        decreases models@.len() - i,
    {
        let request_model = joined3(prefix, "/", models[i].as_str());
        insert_model_entry(entries, request_model, models[i].clone(), ModelEntrySource::Prefix);
        assert(all.take(i + 1).drop_last() =~= all.take(i as int));
        i += 1;
    }
    assert(all.take(i as int) =~= all);
}

fn offer_trimmed_models(entries: &mut TextMap<DerivedModelEntry>, models: &Vec<String>, lead: &str)
    requires
        old(entries).wf(),
    ensures
        final(entries).wf(),
        final(entries)@ == offer_trimmed(old(entries)@, texts(models@), lead@),
{
    let mut i: usize = 0;
    let ghost all = texts(models@);
    assert(all.take(0) =~= Seq::empty());
    while i < models.len()
        invariant
            i <= models@.len(),
            all == texts(models@),
            entries.wf(),
            entries@ == offer_trimmed(old(entries)@, all.take(i as int), lead@),
        decreases models@.len() - i,
    {
        if let Some(rest) = strip_prefix(models[i].as_str(), lead) {
            insert_model_entry(entries, rest, models[i].clone(), ModelEntrySource::AutoTrim);
        }
        assert(all.take(i + 1).drop_last() =~= all.take(i as int));
        i += 1;
    }
    assert(all.take(i as int) =~= all);
}

fn offer_all_trimmed_models(
    entries: &mut TextMap<DerivedModelEntry>,
    models: &Vec<String>,
    prefixes: &Vec<String>,
)
    requires
        old(entries).wf(),
    ensures
        final(entries).wf(),
        final(entries)@ == offer_all_trimmed(old(entries)@, texts(models@), texts(prefixes@)),
{
    let mut i: usize = 0;
    let ghost all = texts(prefixes@);
    assert(all.take(0) =~= Seq::empty());
    while i < prefixes.len()
        invariant
            i <= prefixes@.len(),
            all == texts(prefixes@),
            entries.wf(),
            entries@ == offer_all_trimmed(old(entries)@, texts(models@), all.take(i as int)),
        decreases prefixes@.len() - i,
    {
        if !prefixes[i].as_str().is_empty() {
            let lead = crate::text::joined(prefixes[i].as_str(), "/");
            offer_trimmed_models(entries, models, lead.as_str());
        }
        assert(all.take(i + 1).drop_last() =~= all.take(i as int));
        i += 1;
    }
    assert(all.take(i as int) =~= all);
}

/// What a removal pass over the first `i` keys has left of `before`.
spec fn pruned(
    before: ModelTable,
    now: TextMap<DerivedModelEntry>,
    i: int,
    keep: spec_fn(ModelEntry) -> bool,
) -> bool {
    &&& forall|k: Seq<char>| #[trigger]
        now@.dom().contains(k) ==> before.dom().contains(k) && now@[k] == before[k]
    &&& forall|k: Seq<char>| #[trigger]
        before.dom().contains(k) && keep(before[k]) ==> now@.dom().contains(k)
    &&& forall|j: int| 0 <= j < i ==> keep(now@[#[trigger] now.keys()[j]])
}

proof fn pruned_is_kept(
    before: ModelTable,
    now: TextMap<DerivedModelEntry>,
    keep: spec_fn(ModelEntry) -> bool,
)
    requires
        pruned(before, now, now.keys().len() as int, keep),
    ensures
        now@ == kept(before, keep),
{
    now.keys_are_the_domain();
    assert forall|k: Seq<char>| now@.dom().contains(k) <==> kept(before, keep).dom().contains(k) by {
        if now@.dom().contains(k) {
            assert(now.keys().contains(k));
            let j = choose|j: int| 0 <= j < now.keys().len() && now.keys()[j] == k;
            assert(keep(now@[now.keys()[j]]));
        }
    }
    assert(now@ =~= kept(before, keep));
}

fn keep_alias_only(entries: &mut TextMap<DerivedModelEntry>, model: &str)
    requires
        old(entries).wf(),
    ensures
        final(entries).wf(),
        final(entries)@ == kept(old(entries)@, alias_only(model@)),
{
    let mut i: usize = 0;
    while i < entries.len()
        invariant
            entries.wf(),
            i <= entries.keys().len(),
            pruned(old(entries)@, *entries, i as int, alias_only(model@)),
        decreases entries.keys().len() - i,
    {
        let keep = {
            let entry = entries.value_at(i);
            entry.source == ModelEntrySource::Mapping || !same_text(
                entry.actual_model.as_str(),
                model,
            )
        };
        if keep {
            i += 1;
        } else {
            let ghost before = *entries;
            entries.remove_at(i);
            assert forall|j: int| 0 <= j < i implies alias_only(model@)(
                entries@[#[trigger] entries.keys()[j]],
            ) by {
                assert(entries.keys()[j] == before.keys()[j]);
                assert(precedes(before.keys()[j], before.keys()[i as int]));
                crate::text::precedes_is_irreflexive(before.keys()[j]);
            }
        }
    }
    proof {
        pruned_is_kept(old(entries)@, *entries, alias_only(model@));
    }
}

fn drop_direct(entries: &mut TextMap<DerivedModelEntry>)
    requires
        old(entries).wf(),
    ensures
        final(entries).wf(),
        final(entries)@ == kept(old(entries)@, not_direct()),
{
    let mut i: usize = 0;
    while i < entries.len()
        invariant
            entries.wf(),
            i <= entries.keys().len(),
            pruned(old(entries)@, *entries, i as int, not_direct()),
        decreases entries.keys().len() - i,
    {
        let keep = {
            let entry = entries.value_at(i);
            entry.source != ModelEntrySource::Direct
        };
        if keep {
            i += 1;
        } else {
            let ghost before = *entries;
            entries.remove_at(i);
            assert forall|j: int| 0 <= j < i implies not_direct()(
                entries@[#[trigger] entries.keys()[j]],
            ) by {
                assert(entries.keys()[j] == before.keys()[j]);
                assert(precedes(before.keys()[j], before.keys()[i as int]));
                crate::text::precedes_is_irreflexive(before.keys()[j]);
            }
        }
    }
    proof {
        pruned_is_kept(old(entries)@, *entries, not_direct());
    }
}

fn offer_alias_models(
    entries: &mut TextMap<DerivedModelEntry>,
    models: &Vec<String>,
    mappings: &Vec<ModelMapping>,
    hiding: bool,
)
    requires
        old(entries).wf(),
    ensures
        final(entries).wf(),
        final(entries)@ == offer_aliases(
            old(entries)@,
            texts(models@),
            alias_pairs(mappings@),
            hiding,
        ),
{
    let mut i: usize = 0;
    let ghost all = alias_pairs(mappings@);
    assert(all.take(0) =~= Seq::empty());
    while i < mappings.len()
        invariant
            i <= mappings@.len(),
            all == alias_pairs(mappings@),
            entries.wf(),
            entries@ == offer_aliases(old(entries)@, texts(models@), all.take(i as int), hiding),
        decreases mappings@.len() - i,
    {
        let mapping = &mappings[i];
        if has_text(models, mapping.to.as_str()) {
            insert_model_entry(
                entries,
                mapping.from.clone(),
                mapping.to.clone(),
                ModelEntrySource::Mapping,
            );
            if hiding {
                keep_alias_only(entries, mapping.to.as_str());
            }
        }
        assert(all.take(i + 1).drop_last() =~= all.take(i as int));
        assert(all.take(i + 1).last() == (mapping.from@, mapping.to@));
        i += 1;
    }
    assert(all.take(i as int) =~= all);
}

/// Position `w` of the walk holds the survivor for `low` among the first `n`.
spec fn survivor_at(table: ModelTable, keys: Seq<Seq<char>>, n: int, low: Seq<char>, w: int) -> bool {
    &&& 0 <= w < n
    &&& lowered(keys[w]) == low
    &&& forall|j: int|
        0 <= j < n && lowered(#[trigger] keys[j]) == low ==> {
            ||| table[keys[j]].source.rank() < table[keys[w]].source.rank()
            ||| table[keys[j]].source.rank() == table[keys[w]].source.rank() && w <= j
        }
}

/// What `lower` holds once the first `n` keys have been offered in lower case.
spec fn lowered_so_far(
    table: ModelTable,
    keys: Seq<Seq<char>>,
    n: int,
    lower: ModelTable,
) -> bool {
    &&& forall|j: int| 0 <= j < n ==> lower.dom().contains(lowered(#[trigger] keys[j]))
    &&& forall|low: Seq<char>| #[trigger]
        lower.dom().contains(low) ==> exists|w: int| #[trigger]
            survivor_at(table, keys, n, low, w) && lower[low] == table[keys[w]]
}

proof fn lowered_one_more(table: ModelTable, keys: Seq<Seq<char>>, n: int, lower: ModelTable)
    requires
        0 <= n < keys.len(),
        lowered_so_far(table, keys, n, lower),
    ensures
        lowered_so_far(table, keys, n + 1, offer(lower, lowered(keys[n]), table[keys[n]])),
{
    let key = lowered(keys[n]);
    let next = offer(lower, key, table[keys[n]]);
    assert forall|low: Seq<char>| #[trigger] next.dom().contains(low) implies exists|w: int| #[trigger]
        survivor_at(table, keys, n + 1, low, w) && next[low] == table[keys[w]] by {
        if lower.dom().contains(low) {
            let w = choose|w: int| #[trigger]
                survivor_at(table, keys, n, low, w) && lower[low] == table[keys[w]];
            if low != key || table[keys[n]].source.rank() <= lower[low].source.rank() {
                assert(survivor_at(table, keys, n + 1, low, w));
            } else {
                assert(survivor_at(table, keys, n + 1, low, n));
            }
        } else {
            assert(low == key);
            assert forall|j: int| 0 <= j < n + 1 && lowered(#[trigger] keys[j]) == low implies j
                == n by {
                if j < n {
                    assert(lower.dom().contains(lowered(keys[j])));
                }
            }
            assert(survivor_at(table, keys, n + 1, low, n));
        }
    }
}

proof fn lowered_all(table: ModelTable, keys: Seq<Seq<char>>, lower: ModelTable)
    requires
        lowered_so_far(table, keys, keys.len() as int, lower),
        forall|k: Seq<char>| table.dom().contains(k) <==> #[trigger] keys.contains(k),
        forall|i: int, j: int|
            0 <= i < j < keys.len() ==> precedes(#[trigger] keys[i], #[trigger] keys[j]),
    ensures
        lower == lowercase_table(table),
{
    let n = keys.len() as int;
    assert forall|low: Seq<char>| lower.dom().contains(low) <==> lowercase_table(
        table,
    ).dom().contains(low) by {
        if lower.dom().contains(low) {
            let w = choose|w: int| #[trigger]
                survivor_at(table, keys, n, low, w) && lower[low] == table[keys[w]];
            assert(keys.contains(keys[w]));
        }
        if lowercase_table(table).dom().contains(low) {
            let key = choose|key: Seq<char>| #[trigger]
                table.dom().contains(key) && lowered(key) == low;
            assert(keys.contains(key));
            let j = choose|j: int| 0 <= j < n && keys[j] == key;
            assert(lower.dom().contains(lowered(keys[j])));
        }
    }
    assert forall|low: Seq<char>| lower.dom().contains(low) implies lower[low] == lowercase_table(
        table,
    )[low] by {
        let w = choose|w: int| #[trigger]
            survivor_at(table, keys, n, low, w) && lower[low] == table[keys[w]];
        assert(keys.contains(keys[w]));
        assert forall|other: Seq<char>| #[trigger] table.dom().contains(other) && lowered(other)
            == low implies {
            ||| table[other].source.rank() < table[keys[w]].source.rank()
            ||| table[other].source.rank() == table[keys[w]].source.rank() && !precedes(
                other,
                keys[w],
            )
        } by {
            assert(keys.contains(other));
            let j = choose|j: int| 0 <= j < n && keys[j] == other;
            assert(lowered(keys[j]) == low);
            crate::text::precedes_is_irreflexive(keys[w]);
            if w < j && precedes(other, keys[w]) {
                crate::text::precedes_is_transitive(keys[w], keys[j], keys[w]);
            }
        }
        assert(survives(table, low, keys[w]));
        let chosen = choose|key: Seq<char>| survives(table, low, key);
        assert(survives(table, low, chosen));
        if chosen != keys[w] {
            crate::text::precedes_is_total(chosen, keys[w]);
        }
    }
    assert(lower =~= lowercase_table(table));
}

fn lowercase_entries(entries: &TextMap<DerivedModelEntry>) -> (lower: TextMap<DerivedModelEntry>)
    requires
        entries.wf(),
    ensures
        lower.wf(),
        lower@ == lowercase_table(entries@),
{
    let mut lower: TextMap<DerivedModelEntry> = TextMap::new();
    let mut i: usize = 0;
    while i < entries.len()
        invariant
            entries.wf(),
            lower.wf(),
            i <= entries.keys().len(),
            lowered_so_far(entries@, entries.keys(), i as int, lower@),
        decreases entries.keys().len() - i,
    {
        let request_model = to_lower(entries.key_at(i).as_str());
        let entry = entries.value_at(i);
        proof {
            lowered_one_more(entries@, entries.keys(), i as int, lower@);
        }
        insert_model_entry(&mut lower, request_model, entry.actual_model.clone(), entry.source);
        i += 1;
    }
    proof {
        entries.keys_are_the_domain();
        lowered_all(entries@, entries.keys(), lower@);
    }
    lower
}

fn rows_of(entries: &TextMap<DerivedModelEntry>) -> (rows: Vec<ChannelModelEntry>)
    requires
        entries.wf(),
    ensures
        lists_table(rows@, entries@),
{
    let mut rows: Vec<ChannelModelEntry> = Vec::new();
    let mut i: usize = 0;
    while i < entries.len()
        invariant
            entries.wf(),
            i <= entries.keys().len(),
            rows@.len() == i,
            forall|j: int|
                0 <= j < i ==> {
                    let row = #[trigger] rows@[j];
                    &&& row.request_model@ == entries.keys()[j]
                    &&& entries@.dom().contains(entries.keys()[j])
                    &&& row.actual_model@ == entries@[entries.keys()[j]].actual
                    &&& row.source@ == entries@[entries.keys()[j]].source.text()
                },
        decreases entries.keys().len() - i,
    {
        let entry = entries.value_at(i);
        rows.push(
            ChannelModelEntry {
                request_model: entries.key_at(i).clone(),
                actual_model: entry.actual_model.clone(),
                source: entry.source.as_str().to_owned(),
            },
        );
        i += 1;
    }
    proof {
        entries.keys_are_the_domain();
        assert forall|k: Seq<char>| #[trigger] entries@.dom().contains(k) implies exists|i: int|
            0 <= i < rows@.len() && (#[trigger] rows@[i]).request_model@ == k by {
            assert(entries.keys().contains(k));
            let j = choose|j: int| 0 <= j < entries.keys().len() && entries.keys()[j] == k;
            assert(rows@[j].request_model@ == k);
        }
        assert forall|a: int, b: int| 0 <= a < b < rows@.len() implies precedes(
            (#[trigger] rows@[a]).request_model@,
            (#[trigger] rows@[b]).request_model@,
        ) by {
            assert(precedes(entries.keys()[a], entries.keys()[b]));
        }
    }
    rows
}

/// All request models accepted by a channel, in order: direct, prefixed, with a
/// prefix cut, and by alias.
pub fn channel_model_entries(channel: &Channel) -> (rows: Vec<ChannelModelEntry>)
    ensures
        lists_table(rows@, model_table(*channel)),
{
    let mut entries: TextMap<DerivedModelEntry> = TextMap::new();
    let models = &channel.supported_models;
    offer_direct_models(&mut entries, models);
    if let Some(settings) = &channel.settings {
        if let Some(prefix) = &settings.extra_model_prefix {
            if !prefix.as_str().is_empty() {
                offer_prefixed_models(&mut entries, models, prefix.as_str());
            }
        }
        if let Some(prefixes) = &settings.auto_trimed_model_prefixes {
            offer_all_trimmed_models(&mut entries, models, prefixes);
        }
        assert(entries@ == named_table(*channel));
        if let Some(mappings) = &settings.model_mappings {
            let hiding = match settings.hide_mapped_models {
                Some(hiding) => hiding,
                None => false,
            };
            offer_alias_models(&mut entries, models, mappings, hiding);
        }
        if let Some(true) = settings.hide_original_models {
            drop_direct(&mut entries);
        }
        assert(entries@ == visible_table(*channel));
        if let Some(true) = settings.lowercase_model_id {
            entries = lowercase_entries(&entries);
        }
    }
    assert(entries@ == model_table(*channel));
    rows_of(&entries)
}

impl Channel {
    /// All request models accepted by the channel.
    pub fn all_model_entries(&self) -> (rows: Vec<ChannelModelEntry>)
        ensures
            lists_table(rows@, model_table(*self)),
    {
        channel_model_entries(self)
    }
}

// ---------------------------------------------------------------------------
// Laws
// ---------------------------------------------------------------------------

spec fn leads_to(table: ModelTable, models: Seq<Seq<char>>) -> bool {
    forall|k: Seq<char>| #[trigger] table.dom().contains(k) ==> models.contains(table[k].actual)
}

proof fn named_offers_lead_to(
    table: ModelTable,
    models: Seq<Seq<char>>,
    lead: Seq<char>,
    all: Seq<Seq<char>>,
)
    requires
        leads_to(table, all),
        forall|i: int| 0 <= i < models.len() ==> all.contains(#[trigger] models[i]),
    ensures
        leads_to(offer_direct(table, models), all),
        leads_to(offer_prefixed(table, models, lead), all),
        leads_to(offer_trimmed(table, models, lead), all),
    decreases models.len(),
{
    if models.len() > 0 {
        assert forall|i: int| 0 <= i < models.len() - 1 implies all.contains(
            #[trigger] models.drop_last()[i],
        ) by {
            assert(models.drop_last()[i] == models[i]);
        }
        named_offers_lead_to(table, models.drop_last(), lead, all);
        assert(all.contains(models[models.len() - 1]));
    }
}

proof fn trimmed_offers_lead_to(
    table: ModelTable,
    models: Seq<Seq<char>>,
    prefixes: Seq<Seq<char>>,
)
    requires
        leads_to(table, models),
    ensures
        leads_to(offer_all_trimmed(table, models, prefixes), models),
    decreases prefixes.len(),
{
    if prefixes.len() > 0 {
        trimmed_offers_lead_to(table, models, prefixes.drop_last());
        named_offers_lead_to(
            offer_all_trimmed(table, models, prefixes.drop_last()),
            models,
            prefixes.last() + "/"@,
            models,
        );
    }
}

proof fn alias_offers_lead_to(
    table: ModelTable,
    models: Seq<Seq<char>>,
    aliases: Seq<(Seq<char>, Seq<char>)>,
    hiding: bool,
)
    requires
        leads_to(table, models),
    ensures
        leads_to(offer_aliases(table, models, aliases, hiding), models),
    decreases aliases.len(),
{
    if aliases.len() > 0 {
        alias_offers_lead_to(table, models, aliases.drop_last(), hiding);
    }
}

/// Each entry of the lower-case table is an entry of the table itself, under a
/// key that lowers to it.
proof fn lowercase_comes_from(table: ModelTable, keys: Seq<Seq<char>>, low: Seq<char>)
    requires
        lowercase_table(table).dom().contains(low),
        forall|k: Seq<char>| #[trigger] table.dom().contains(k) ==> keys.contains(k),
    ensures
        exists|key: Seq<char>|
            survives(table, low, key) && lowercase_table(table)[low] == table[key],
{
    let start = choose|key: Seq<char>| #[trigger] table.dom().contains(key) && lowered(key) == low;
    let best = best_key(table, keys, low, start);
    best_key_survives(table, keys, low, start);
    assert(survives(table, low, best));
}

/// The survivor for `low` among `start` and `keys`.
spec fn best_key(
    table: ModelTable,
    keys: Seq<Seq<char>>,
    low: Seq<char>,
    start: Seq<char>,
) -> Seq<char>
    decreases keys.len(),
{
    if keys.len() == 0 {
        start
    } else {
        let best = best_key(table, keys.drop_last(), low, start);
        let key = keys.last();
        if table.dom().contains(key) && lowered(key) == low && (table[key].source.rank()
            > table[best].source.rank() || (table[key].source.rank() == table[best].source.rank()
            && precedes(key, best))) {
            key
        } else {
            best
        }
    }
}

spec fn not_beaten(table: ModelTable, other: Seq<char>, key: Seq<char>) -> bool {
    ||| table[other].source.rank() < table[key].source.rank()
    ||| table[other].source.rank() == table[key].source.rank() && !precedes(other, key)
}

proof fn best_key_beats(table: ModelTable, keys: Seq<Seq<char>>, low: Seq<char>, start: Seq<char>)
    requires
        table.dom().contains(start),
        lowered(start) == low,
    ensures
        ({
            let best = best_key(table, keys, low, start);
            &&& table.dom().contains(best)
            &&& lowered(best) == low
            &&& not_beaten(table, start, best)
            &&& forall|i: int|
                0 <= i < keys.len() && table.dom().contains(#[trigger] keys[i]) && lowered(keys[i])
                    == low ==> not_beaten(table, keys[i], best)
        }),
    decreases keys.len(),
{
    crate::text::precedes_is_irreflexive(start);
    if keys.len() > 0 {
        let earlier = keys.drop_last();
        best_key_beats(table, earlier, low, start);
        let old_best = best_key(table, earlier, low, start);
        let best = best_key(table, keys, low, start);
        crate::text::precedes_is_irreflexive(keys.last());
        assert forall|other: Seq<char>| not_beaten(table, other, old_best) implies #[trigger] not_beaten(
            table,
            other,
            best,
        ) by {
            if best != old_best && precedes(other, best) && table[best].source.rank()
                == table[old_best].source.rank() && table[other].source.rank()
                == table[best].source.rank() {
                crate::text::precedes_is_transitive(other, best, old_best);
            }
        }
        assert forall|i: int|
            0 <= i < keys.len() && table.dom().contains(#[trigger] keys[i]) && lowered(keys[i])
                == low implies not_beaten(table, keys[i], best) by {
            if i < keys.len() - 1 {
                assert(keys[i] == earlier[i]);
                assert(not_beaten(table, earlier[i], old_best));
            } else if best == old_best && best != keys.last() {
                assert(!(table[keys.last()].source.rank() > table[best].source.rank()));
            }
        }
    }
}

proof fn best_key_survives(table: ModelTable, keys: Seq<Seq<char>>, low: Seq<char>, start: Seq<char>)
    requires
        table.dom().contains(start),
        lowered(start) == low,
        forall|k: Seq<char>| #[trigger] table.dom().contains(k) ==> keys.contains(k),
    ensures
        survives(table, low, best_key(table, keys, low, start)),
{
    best_key_beats(table, keys, low, start);
    let best = best_key(table, keys, low, start);
    assert forall|other: Seq<char>| #[trigger] table.dom().contains(other) && lowered(other)
        == low implies not_beaten(table, other, best) by {
        assert(keys.contains(other));
        let i = choose|i: int| 0 <= i < keys.len() && keys[i] == other;
        assert(table.dom().contains(keys[i]));
    }
}

spec fn has_keys(table: ModelTable, keys: Seq<Seq<char>>) -> bool {
    forall|k: Seq<char>| #[trigger] table.dom().contains(k) ==> keys.contains(k)
}

proof fn offer_has_keys(table: ModelTable, keys: Seq<Seq<char>>, key: Seq<char>, entry: ModelEntry)
    requires
        has_keys(table, keys),
    ensures
        has_keys(offer(table, key, entry), keys.push(key)),
{
    let next = offer(table, key, entry);
    assert forall|k: Seq<char>| #[trigger] next.dom().contains(k) implies keys.push(key).contains(
        k,
    ) by {
        if k == key {
            assert(keys.push(key)[keys.len() as int] == k);
        } else {
            assert(table.dom().contains(k));
            let i = choose|i: int| 0 <= i < keys.len() && keys[i] == k;
            assert(keys.push(key)[i] == k);
        }
    }
}

proof fn named_offers_have_keys(
    table: ModelTable,
    keys: Seq<Seq<char>>,
    models: Seq<Seq<char>>,
    lead: Seq<char>,
) -> (more: (Seq<Seq<char>>, Seq<Seq<char>>, Seq<Seq<char>>))
    requires
        has_keys(table, keys),
    ensures
        has_keys(offer_direct(table, models), more.0),
        has_keys(offer_prefixed(table, models, lead), more.1),
        has_keys(offer_trimmed(table, models, lead), more.2),
    decreases models.len(),
{
    if models.len() == 0 {
        (keys, keys, keys)
    } else {
        let earlier = models.drop_last();
        let model = models.last();
        let known = named_offers_have_keys(table, keys, earlier, lead);
        offer_has_keys(
            offer_direct(table, earlier),
            known.0,
            model,
            ModelEntry { actual: model, source: ModelEntrySource::Direct },
        );
        offer_has_keys(
            offer_prefixed(table, earlier, lead),
            known.1,
            lead + "/"@ + model,
            ModelEntry { actual: model, source: ModelEntrySource::Prefix },
        );
        let trimmed = match crate::text::after_prefix(model, lead) {
            Some(rest) => {
                offer_has_keys(
                    offer_trimmed(table, earlier, lead),
                    known.2,
                    rest,
                    ModelEntry { actual: model, source: ModelEntrySource::AutoTrim },
                );
                known.2.push(rest)
            },
            None => known.2,
        };
        (known.0.push(model), known.1.push(lead + "/"@ + model), trimmed)
    }
}

proof fn trimmed_offers_have_keys(
    table: ModelTable,
    keys: Seq<Seq<char>>,
    models: Seq<Seq<char>>,
    prefixes: Seq<Seq<char>>,
) -> (more: Seq<Seq<char>>)
    requires
        has_keys(table, keys),
    ensures
        has_keys(offer_all_trimmed(table, models, prefixes), more),
    decreases prefixes.len(),
{
    if prefixes.len() == 0 {
        keys
    } else {
        let earlier = offer_all_trimmed(table, models, prefixes.drop_last());
        let known = trimmed_offers_have_keys(table, keys, models, prefixes.drop_last());
        if prefixes.last().len() == 0 {
            known
        } else {
            named_offers_have_keys(earlier, known, models, prefixes.last() + "/"@).2
        }
    }
}

proof fn alias_offers_have_keys(
    table: ModelTable,
    keys: Seq<Seq<char>>,
    models: Seq<Seq<char>>,
    aliases: Seq<(Seq<char>, Seq<char>)>,
    hiding: bool,
) -> (more: Seq<Seq<char>>)
    requires
        has_keys(table, keys),
    ensures
        has_keys(offer_aliases(table, models, aliases, hiding), more),
    decreases aliases.len(),
{
    if aliases.len() == 0 {
        keys
    } else {
        let earlier = offer_aliases(table, models, aliases.drop_last(), hiding);
        let known = alias_offers_have_keys(table, keys, models, aliases.drop_last(), hiding);
        let (from, to) = aliases.last();
        if models.contains(to) {
            offer_has_keys(
                earlier,
                known,
                from,
                ModelEntry { actual: to, source: ModelEntrySource::Mapping },
            );
            known.push(from)
        } else {
            known
        }
    }
}

proof fn visible_table_has_keys(channel: Channel) -> (keys: Seq<Seq<char>>)
    ensures
        has_keys(visible_table(channel), keys),
{
    let models = supported(channel);
    let lead = extra_prefix(channel);
    let empty = Map::<Seq<char>, ModelEntry>::empty();
    let direct = named_offers_have_keys(empty, Seq::empty(), models, lead).0;
    let prefixed = if lead.len() == 0 {
        direct
    } else {
        named_offers_have_keys(offer_direct(empty, models), direct, models, lead).1
    };
    let prefixed_table = if lead.len() == 0 {
        offer_direct(empty, models)
    } else {
        offer_prefixed(offer_direct(empty, models), models, lead)
    };
    let named = trimmed_offers_have_keys(
        prefixed_table,
        prefixed,
        models,
        trimmed_prefixes(channel),
    );
    alias_offers_have_keys(
        named_table(channel),
        named,
        models,
        channel_aliases(channel),
        hides_mapped(channel),
    )
}

/// Whatever a table says of its entries, the lower-case table says of its own:
/// an entry of `model_table` is an entry of `visible_table`.
proof fn model_entry_is_visible(channel: Channel, k: Seq<char>) -> (key: Seq<char>)
    requires
        model_table(channel).dom().contains(k),
    ensures
        visible_table(channel).dom().contains(key),
        model_table(channel)[k] == visible_table(channel)[key],
        lowers_models(channel) ==> lowered(key) == k,
        !lowers_models(channel) ==> key == k,
{
    if lowers_models(channel) {
        let table = visible_table(channel);
        let keys = visible_table_has_keys(channel);
        lowercase_comes_from(table, keys, k);
        choose|key: Seq<char>| survives(table, k, key) && lowercase_table(table)[k] == table[key]
    } else {
        k
    }
}

/// Every request model that a channel accepts stands for one of the models that
/// the channel supports.
pub proof fn entries_stand_for_supported_models(channel: Channel)
    ensures
        forall|k: Seq<char>| #[trigger]
            model_table(channel).dom().contains(k) ==> supported(channel).contains(
                model_table(channel)[k].actual,
            ),
{
    let models = supported(channel);
    let lead = extra_prefix(channel);
    let empty = Map::<Seq<char>, ModelEntry>::empty();
    assert forall|i: int| 0 <= i < models.len() implies models.contains(#[trigger] models[i]) by {}
    named_offers_lead_to(empty, models, lead, models);
    named_offers_lead_to(offer_direct(empty, models), models, lead, models);
    let prefixed = if lead.len() == 0 {
        offer_direct(empty, models)
    } else {
        offer_prefixed(offer_direct(empty, models), models, lead)
    };
    trimmed_offers_lead_to(prefixed, models, trimmed_prefixes(channel));
    alias_offers_lead_to(
        named_table(channel),
        models,
        channel_aliases(channel),
        hides_mapped(channel),
    );
    assert forall|k: Seq<char>| #[trigger] model_table(channel).dom().contains(
        k,
    ) implies models.contains(model_table(channel)[k].actual) by {
        let key = model_entry_is_visible(channel, k);
    }
}

/// A channel that hides its original models accepts none of them by its own
/// name as such.
pub proof fn hidden_originals_do_not_show(channel: Channel)
    requires
        hides_original(channel),
    ensures
        forall|k: Seq<char>| #[trigger]
            model_table(channel).dom().contains(k) ==> model_table(channel)[k].source
                != ModelEntrySource::Direct,
{
    assert forall|k: Seq<char>| #[trigger] model_table(channel).dom().contains(
        k,
    ) implies model_table(channel)[k].source != ModelEntrySource::Direct by {
        let key = model_entry_is_visible(channel, k);
    }
}

/// A channel that puts request models into lower case accepts lower-case ones
/// only.
pub proof fn lowercase_channels_accept_lowercase(channel: Channel)
    requires
        lowers_models(channel),
    ensures
        forall|k: Seq<char>| #[trigger] model_table(channel).dom().contains(k) ==> lowered(k) == k,
{
    assert forall|k: Seq<char>| #[trigger] model_table(channel).dom().contains(k) implies lowered(k)
        == k by {
        let key = model_entry_is_visible(channel, k);
        crate::text::lower_is_idempotent(key);
    }
}

proof fn aliases_hide(
    table: ModelTable,
    models: Seq<Seq<char>>,
    aliases: Seq<(Seq<char>, Seq<char>)>,
    i: int,
    k: Seq<char>,
)
    requires
        0 <= i < aliases.len(),
        models.contains(aliases[i].1),
        offer_aliases(table, models, aliases, true).dom().contains(k),
        offer_aliases(table, models, aliases, true)[k].actual == aliases[i].1,
    ensures
        offer_aliases(table, models, aliases, true)[k].source == ModelEntrySource::Mapping,
    decreases aliases.len(),
{
    let earlier = offer_aliases(table, models, aliases.drop_last(), true);
    let (from, to) = aliases.last();
    if i < aliases.len() - 1 && earlier.dom().contains(k) && earlier[k].actual == aliases[i].1 {
        assert(aliases.drop_last()[i] == aliases[i]);
        aliases_hide(table, models, aliases.drop_last(), i, k);
    }
}

/// Where a channel shows aliased models by alias only, whatever stands for the
/// target of an alias is itself an alias.
pub proof fn mapped_models_show_by_alias_only(channel: Channel, i: int, k: Seq<char>)
    requires
        hides_mapped(channel),
        0 <= i < channel_aliases(channel).len(),
        supported(channel).contains(channel_aliases(channel)[i].1),
        model_table(channel).dom().contains(k),
        model_table(channel)[k].actual == channel_aliases(channel)[i].1,
    ensures
        model_table(channel)[k].source == ModelEntrySource::Mapping,
{
    let key = model_entry_is_visible(channel, k);
    aliases_hide(named_table(channel), supported(channel), channel_aliases(channel), i, key);
}

spec fn holds_direct(table: ModelTable, model: Seq<char>) -> bool {
    &&& table.dom().contains(model)
    &&& table[model] == (ModelEntry { actual: model, source: ModelEntrySource::Direct })
}

proof fn direct_is_offered(table: ModelTable, models: Seq<Seq<char>>, i: int)
    requires
        0 <= i < models.len(),
        forall|k: Seq<char>| #[trigger]
            table.dom().contains(k) && table[k].source == ModelEntrySource::Direct
                ==> table[k].actual == k,
    ensures
        holds_direct(offer_direct(table, models), models[i]),
        forall|k: Seq<char>| #[trigger]
            offer_direct(table, models).dom().contains(k) && offer_direct(table, models)[k].source
                == ModelEntrySource::Direct ==> offer_direct(table, models)[k].actual == k,
    decreases models.len(),
{
    if i < models.len() - 1 {
        direct_is_offered(table, models.drop_last(), i);
        assert(models.drop_last()[i] == models[i]);
    } else if models.len() > 1 {
        direct_is_offered(table, models.drop_last(), 0);
    } else {
        assert(offer_direct(table, models.drop_last()) == table);
    }
}

proof fn named_offers_keep_direct(
    table: ModelTable,
    models: Seq<Seq<char>>,
    lead: Seq<char>,
    model: Seq<char>,
)
    requires
        holds_direct(table, model),
    ensures
        holds_direct(offer_prefixed(table, models, lead), model),
        holds_direct(offer_trimmed(table, models, lead), model),
    decreases models.len(),
{
    if models.len() > 0 {
        named_offers_keep_direct(table, models.drop_last(), lead, model);
    }
}

proof fn trimmed_offers_keep_direct(
    table: ModelTable,
    models: Seq<Seq<char>>,
    prefixes: Seq<Seq<char>>,
    model: Seq<char>,
)
    requires
        holds_direct(table, model),
    ensures
        holds_direct(offer_all_trimmed(table, models, prefixes), model),
    decreases prefixes.len(),
{
    if prefixes.len() > 0 {
        trimmed_offers_keep_direct(table, models, prefixes.drop_last(), model);
        named_offers_keep_direct(
            offer_all_trimmed(table, models, prefixes.drop_last()),
            models,
            prefixes.last() + "/"@,
            model,
        );
    }
}

proof fn alias_offers_keep_direct(
    table: ModelTable,
    models: Seq<Seq<char>>,
    aliases: Seq<(Seq<char>, Seq<char>)>,
    model: Seq<char>,
)
    requires
        holds_direct(table, model),
    ensures
        holds_direct(offer_aliases(table, models, aliases, false), model),
    decreases aliases.len(),
{
    if aliases.len() > 0 {
        alias_offers_keep_direct(table, models, aliases.drop_last(), model);
    }
}

/// Unless the settings hide it or change its case, each supported model is
/// accepted under its own name and stands for itself, whatever prefixes and
/// aliases claim.
pub proof fn supported_models_stand_for_themselves(channel: Channel, i: int)
    requires
        0 <= i < supported(channel).len(),
        !hides_mapped(channel),
        !hides_original(channel),
        !lowers_models(channel),
    ensures
        model_table(channel).dom().contains(supported(channel)[i]),
        model_table(channel)[supported(channel)[i]] == (ModelEntry {
            actual: supported(channel)[i],
            source: ModelEntrySource::Direct,
        }),
{
    let models = supported(channel);
    let model = models[i];
    let empty = Map::<Seq<char>, ModelEntry>::empty();
    direct_is_offered(empty, models, i);
    let direct = offer_direct(empty, models);
    let lead = extra_prefix(channel);
    let prefixes = trimmed_prefixes(channel);
    named_offers_keep_direct(direct, models, lead, model);
    let prefixed = if lead.len() == 0 {
        direct
    } else {
        offer_prefixed(direct, models, lead)
    };
    trimmed_offers_keep_direct(prefixed, models, prefixes, model);
    alias_offers_keep_direct(named_table(channel), models, channel_aliases(channel), model);
}

/// An offer never gives a request model to a source of lower rank, and never
/// takes one away.
pub proof fn offers_never_lower_a_rank(table: ModelTable, key: Seq<char>, entry: ModelEntry)
    ensures
        forall|k: Seq<char>| #[trigger]
            table.dom().contains(k) ==> offer(table, key, entry).dom().contains(k) && offer(
                table,
                key,
                entry,
            )[k].source.rank() >= table[k].source.rank(),
{
}

/// A table has one listing only: the rows of two listings read the same.
pub proof fn listing_is_unique(
    a: Seq<ChannelModelEntry>,
    b: Seq<ChannelModelEntry>,
    table: ModelTable,
)
    requires
        lists_table(a, table),
        lists_table(b, table),
    ensures
        a.len() == b.len(),
        forall|i: int|
            0 <= i < a.len() ==> {
                &&& (#[trigger] a[i]).request_model@ == b[i].request_model@
                &&& a[i].actual_model@ == b[i].actual_model@
                &&& a[i].source@ == b[i].source@
            },
{
    let x = Seq::new(a.len(), |i: int| a[i].request_model@);
    let y = Seq::new(b.len(), |i: int| b[i].request_model@);
    assert forall|k: Seq<char>| x.contains(k) <==> y.contains(k) by {
        if x.contains(k) {
            let i = choose|i: int| 0 <= i < x.len() && x[i] == k;
            assert(table.dom().contains(a[i].request_model@));
            let j = choose|j: int| 0 <= j < b.len() && (#[trigger] b[j]).request_model@ == k;
            assert(y[j] == k);
        }
        if y.contains(k) {
            let i = choose|i: int| 0 <= i < y.len() && y[i] == k;
            assert(table.dom().contains(b[i].request_model@));
            let j = choose|j: int| 0 <= j < a.len() && (#[trigger] a[j]).request_model@ == k;
            assert(x[j] == k);
        }
    }
    assert forall|i: int, j: int| 0 <= i < j < x.len() implies precedes(
        #[trigger] x[i],
        #[trigger] x[j],
    ) by {
        assert(precedes(a[i].request_model@, a[j].request_model@));
    }
    assert forall|i: int, j: int| 0 <= i < j < y.len() implies precedes(
        #[trigger] y[i],
        #[trigger] y[j],
    ) by {
        assert(precedes(b[i].request_model@, b[j].request_model@));
    }
    crate::text::increasing_texts_are_determined(x, y);
    assert forall|i: int| 0 <= i < a.len() implies {
        &&& (#[trigger] a[i]).request_model@ == b[i].request_model@
        &&& a[i].actual_model@ == b[i].actual_model@
        &&& a[i].source@ == b[i].source@
    } by {
        assert(x[i] == y[i]);
        assert(b[i].request_model@ == a[i].request_model@);
    }
}

/// Whether two lists hold the same models, whatever their order and however often
/// each stands.
pub open spec fn same_models(a: Seq<Seq<char>>, b: Seq<Seq<char>>) -> bool {
    forall|model: Seq<char>| #[trigger] a.contains(model) <==> b.contains(model)
}

/// `table` after `entry(key)` has been offered for every key that `has` picks.
spec fn offered_at(
    table: ModelTable,
    has: spec_fn(Seq<char>) -> bool,
    entry: spec_fn(Seq<char>) -> ModelEntry,
) -> ModelTable {
    Map::new(
        |k: Seq<char>| table.dom().contains(k) || has(k),
        |k: Seq<char>|
            if has(k) {
                offer(table, k, entry(k))[k]
            } else {
                table[k]
            },
    )
}

/// Which keys are offered when each model is offered under `lead + model`.
spec fn under_lead(models: Seq<Seq<char>>, lead: Seq<char>) -> spec_fn(Seq<char>) -> bool {
    |k: Seq<char>|
        crate::text::after_prefix(k, lead) is Some && models.contains(
            crate::text::after_prefix(k, lead)->0,
        )
}

/// Which keys are offered when `lead` is cut from the models that start with it.
spec fn without_lead(models: Seq<Seq<char>>, lead: Seq<char>) -> spec_fn(Seq<char>) -> bool {
    |k: Seq<char>| models.contains(lead + k)
}

proof fn push_adds_one_model(models: Seq<Seq<char>>, k: Seq<char>)
    requires
        models.len() > 0,
    ensures
        models.contains(k) <==> models.drop_last().contains(k) || k == models.last(),
{
    let earlier = models.drop_last();
    if models.contains(k) {
        let i = choose|i: int| 0 <= i < models.len() && models[i] == k;
        if i < models.len() - 1 {
            assert(earlier[i] == k);
        }
    }
    if earlier.contains(k) {
        let i = choose|i: int| 0 <= i < earlier.len() && earlier[i] == k;
        assert(models[i] == k);
    }
    assert(models[models.len() - 1] == models.last());
}

/// Offering once more what may have been offered already adds at most its key.
proof fn one_more_offer(
    table: ModelTable,
    has: spec_fn(Seq<char>) -> bool,
    more: spec_fn(Seq<char>) -> bool,
    entry: spec_fn(Seq<char>) -> ModelEntry,
    key: Seq<char>,
)
    requires
        forall|k: Seq<char>| #[trigger] more(k) <==> has(k) || k == key,
    ensures
        offer(offered_at(table, has, entry), key, entry(key)) == offered_at(table, more, entry),
{
    assert(more(key));
    assert(offer(offered_at(table, has, entry), key, entry(key)) =~= offered_at(
        table,
        more,
        entry,
    ));
}

spec fn direct_entry() -> spec_fn(Seq<char>) -> ModelEntry {
    |k: Seq<char>| ModelEntry { actual: k, source: ModelEntrySource::Direct }
}

spec fn prefix_entry(lead: Seq<char>) -> spec_fn(Seq<char>) -> ModelEntry {
    |k: Seq<char>|
        ModelEntry {
            actual: crate::text::after_prefix(k, lead)->0,
            source: ModelEntrySource::Prefix,
        }
}

spec fn trim_entry(lead: Seq<char>) -> spec_fn(Seq<char>) -> ModelEntry {
    |k: Seq<char>| ModelEntry { actual: lead + k, source: ModelEntrySource::AutoTrim }
}

proof fn direct_offers_in_one(table: ModelTable, models: Seq<Seq<char>>)
    ensures
        offer_direct(table, models) == offered_at(
            table,
            |k: Seq<char>| models.contains(k),
            direct_entry(),
        ),
    decreases models.len(),
{
    let more = |k: Seq<char>| models.contains(k);
    if models.len() == 0 {
        assert(offered_at(table, more, direct_entry()) =~= table);
    } else {
        let earlier = models.drop_last();
        let has = |k: Seq<char>| earlier.contains(k);
        direct_offers_in_one(table, earlier);
        assert forall|k: Seq<char>| #[trigger] more(k) <==> has(k) || k == models.last() by {
            push_adds_one_model(models, k);
        }
        one_more_offer(table, has, more, direct_entry(), models.last());
    }
}

proof fn prefixed_offers_in_one(table: ModelTable, models: Seq<Seq<char>>, prefix: Seq<char>)
    ensures
        offer_prefixed(table, models, prefix) == offered_at(
            table,
            under_lead(models, prefix + "/"@),
            prefix_entry(prefix + "/"@),
        ),
    decreases models.len(),
{
    let lead = prefix + "/"@;
    let more = under_lead(models, lead);
    let entry = prefix_entry(lead);
    if models.len() == 0 {
        assert(offered_at(table, more, entry) =~= table);
    } else {
        let earlier = models.drop_last();
        let model = models.last();
        let has = under_lead(earlier, lead);
        let key = lead + model;
        prefixed_offers_in_one(table, earlier, prefix);
        assert(crate::text::after_prefix(key, lead) == Some(model)) by {
            assert(key.take(lead.len() as int) =~= lead);
            assert(key.skip(lead.len() as int) =~= model);
        }
        assert forall|k: Seq<char>| #[trigger] more(k) <==> has(k) || k == key by {
            if let Some(rest) = crate::text::after_prefix(k, lead) {
                push_adds_one_model(models, rest);
                assert(k =~= lead + rest);
            }
        }
        one_more_offer(table, has, more, entry, key);
    }
}

proof fn trimmed_offers_in_one(table: ModelTable, models: Seq<Seq<char>>, lead: Seq<char>)
    ensures
        offer_trimmed(table, models, lead) == offered_at(
            table,
            without_lead(models, lead),
            trim_entry(lead),
        ),
    decreases models.len(),
{
    let more = without_lead(models, lead);
    let entry = trim_entry(lead);
    if models.len() == 0 {
        assert(offered_at(table, more, entry) =~= table);
    } else {
        let earlier = models.drop_last();
        let model = models.last();
        let has = without_lead(earlier, lead);
        trimmed_offers_in_one(table, earlier, lead);
        match crate::text::after_prefix(model, lead) {
            Some(rest) => {
                assert(model =~= lead + rest);
                assert forall|k: Seq<char>| #[trigger] more(k) <==> has(k) || k == rest by {
                    push_adds_one_model(models, lead + k);
                    if lead + k == model {
                        assert((lead + k).skip(lead.len() as int) =~= k);
                        assert((lead + rest).skip(lead.len() as int) =~= rest);
                    }
                }
                one_more_offer(table, has, more, entry, rest);
            },
            None => {
                assert forall|k: Seq<char>| #[trigger] more(k) == has(k) by {
                    push_adds_one_model(models, lead + k);
                    if lead + k == model {
                        assert((lead + k).take(lead.len() as int) =~= lead);
                    }
                }
                assert(offered_at(table, more, entry) =~= offered_at(table, has, entry));
            },
        }
    }
}

proof fn all_trimmed_offers_agree(
    table: ModelTable,
    a: Seq<Seq<char>>,
    b: Seq<Seq<char>>,
    prefixes: Seq<Seq<char>>,
)
    requires
        same_models(a, b),
    ensures
        offer_all_trimmed(table, a, prefixes) == offer_all_trimmed(table, b, prefixes),
    decreases prefixes.len(),
{
    if prefixes.len() > 0 {
        all_trimmed_offers_agree(table, a, b, prefixes.drop_last());
        let earlier = offer_all_trimmed(table, a, prefixes.drop_last());
        let lead = prefixes.last() + "/"@;
        trimmed_offers_in_one(earlier, a, lead);
        trimmed_offers_in_one(earlier, b, lead);
        assert(without_lead(a, lead) =~= without_lead(b, lead));
    }
}

proof fn alias_offers_agree(
    table: ModelTable,
    a: Seq<Seq<char>>,
    b: Seq<Seq<char>>,
    aliases: Seq<(Seq<char>, Seq<char>)>,
    hiding: bool,
)
    requires
        same_models(a, b),
    ensures
        offer_aliases(table, a, aliases, hiding) == offer_aliases(table, b, aliases, hiding),
    decreases aliases.len(),
{
    if aliases.len() > 0 {
        alias_offers_agree(table, a, b, aliases.drop_last(), hiding);
        assert(a.contains(aliases.last().1) <==> b.contains(aliases.last().1));
    }
}

/// Neither the order of the supported models nor a repetition among them makes a
/// difference: channels with the same settings that support the same models accept
/// the same request models.
pub proof fn order_of_supported_models_is_immaterial(a: Channel, b: Channel)
    requires
        a.settings == b.settings,
        same_models(supported(a), supported(b)),
    ensures
        model_table(a) == model_table(b),
{
    let x = supported(a);
    let y = supported(b);
    let none: ModelTable = Map::empty();
    direct_offers_in_one(none, x);
    direct_offers_in_one(none, y);
    assert((|k: Seq<char>| x.contains(k)) =~= (|k: Seq<char>| y.contains(k)));
    let direct = offer_direct(none, x);
    let prefix = extra_prefix(a);
    prefixed_offers_in_one(direct, x, prefix);
    prefixed_offers_in_one(direct, y, prefix);
    assert(under_lead(x, prefix + "/"@) =~= under_lead(y, prefix + "/"@));
    let prefixed = if prefix.len() == 0 {
        direct
    } else {
        offer_prefixed(direct, x, prefix)
    };
    all_trimmed_offers_agree(prefixed, x, y, trimmed_prefixes(a));
    alias_offers_agree(named_table(a), x, y, channel_aliases(a), hides_mapped(a));
}

/// The listings of such channels read the same, row by row.
pub proof fn listings_ignore_the_order_of_supported_models(
    a: Channel,
    b: Channel,
    rows: Seq<ChannelModelEntry>,
    others: Seq<ChannelModelEntry>,
)
    requires
        a.settings == b.settings,
        same_models(supported(a), supported(b)),
        lists_table(rows, model_table(a)),
        lists_table(others, model_table(b)),
    ensures
        rows.len() == others.len(),
        forall|i: int|
            0 <= i < rows.len() ==> {
                &&& (#[trigger] rows[i]).request_model@ == others[i].request_model@
                &&& rows[i].actual_model@ == others[i].actual_model@
                &&& rows[i].source@ == others[i].source@
            },
{
    order_of_supported_models_is_immaterial(a, b);
    listing_is_unique(rows, others, model_table(a));
}

// ---------------------------------------------------------------------------
// What the rows say of the settings
// ---------------------------------------------------------------------------

/// Whether a channel supports a model.
pub open spec fn supports(channel: Channel, model: Seq<char>) -> bool {
    exists|i: int|
        0 <= i < channel.supported_models@.len() && (#[trigger] channel.supported_models@[i])@
            == model
}

/// Whether a listing has this very row.
pub open spec fn shows(
    rows: Seq<ChannelModelEntry>,
    request: Seq<char>,
    actual: Seq<char>,
    source: Seq<char>,
) -> bool {
    exists|i: int| #[trigger] is_row(rows, i, request, actual, source)
}

/// Whether the row at `i` of a listing reads like this.
pub open spec fn is_row(
    rows: Seq<ChannelModelEntry>,
    i: int,
    request: Seq<char>,
    actual: Seq<char>,
    source: Seq<char>,
) -> bool {
    &&& 0 <= i < rows.len()
    &&& rows[i].request_model@ == request
    &&& rows[i].actual_model@ == actual
    &&& rows[i].source@ == source
}

/// Whether `request` becomes a supported model when the cut prefix at `j` and a slash
/// are put back before it.
pub open spec fn cut_by(channel: Channel, j: int, request: Seq<char>) -> bool {
    &&& channel.settings is Some
    &&& channel.settings->0.auto_trimed_model_prefixes is Some
    &&& 0 <= j < channel.settings->0.auto_trimed_model_prefixes->0@.len()
    &&& channel.settings->0.auto_trimed_model_prefixes->0@[j]@.len() > 0
    &&& supports(
        channel,
        channel.settings->0.auto_trimed_model_prefixes->0@[j]@ + "/"@ + request,
    )
}

/// Whether `request` is a supported model with the extra prefix and a slash before it.
pub open spec fn led_to(channel: Channel, request: Seq<char>, model: Seq<char>) -> bool {
    &&& channel.settings is Some
    &&& channel.settings->0.extra_model_prefix is Some
    &&& channel.settings->0.extra_model_prefix->0@.len() > 0
    &&& request == channel.settings->0.extra_model_prefix->0@ + "/"@ + model
    &&& supports(channel, model)
}

/// Which of two claims to a request model wins, by the names of their sources: the
/// higher.
pub open spec fn strength(source: Seq<char>) -> int {
    if source == "direct"@ {
        4
    } else if source == "auto_trim"@ {
        3
    } else if source == "mapping"@ {
        2
    } else {
        1
    }
}

proof fn sources_have_names_of_their_own()
    ensures
        "direct"@ != "auto_trim"@,
        "direct"@ != "mapping"@,
        "direct"@ != "prefix"@,
        "auto_trim"@ != "mapping"@,
        "auto_trim"@ != "prefix"@,
        "mapping"@ != "prefix"@,
{
    reveal_strlit("direct");
    reveal_strlit("auto_trim");
    reveal_strlit("mapping");
    reveal_strlit("prefix");
    assert("direct"@[0] == 'd');
    assert("auto_trim"@[0] == 'a');
    assert("mapping"@[0] == 'm');
    assert("prefix"@[0] == 'p');
}

proof fn rows_read_the_table(
    rows: Seq<ChannelModelEntry>,
    table: ModelTable,
    request: Seq<char>,
    actual: Seq<char>,
    source: Seq<char>,
)
    requires
        lists_table(rows, table),
    ensures
        shows(rows, request, actual, source) <==> {
            &&& table.dom().contains(request)
            &&& table[request].actual == actual
            &&& table[request].source.text() == source
        },
        table.dom().contains(request) ==> exists|i: int|
            0 <= i < rows.len() && (#[trigger] rows[i]).request_model@ == request,
{
    if table.dom().contains(request) {
        let i = choose|i: int| 0 <= i < rows.len() && (#[trigger] rows[i]).request_model@ == request;
        assert(rows[i].actual_model@ == table[request].actual);
        if table[request].actual == actual && table[request].source.text() == source {
            assert(is_row(rows, i, request, actual, source));
        }
    }
}

proof fn supported_is_listed(channel: Channel, model: Seq<char>)
    ensures
        supported(channel).contains(model) <==> supports(channel, model),
{
    let models = channel.supported_models@;
    if supported(channel).contains(model) {
        let i = choose|i: int| 0 <= i < supported(channel).len() && supported(channel)[i] == model;
        assert(models[i]@ == model);
    }
    if supports(channel, model) {
        let i = choose|i: int| 0 <= i < models.len() && (#[trigger] models[i])@ == model;
        assert(supported(channel)[i] == model);
    }
}

/// A channel whose settings hide its original models lists none of them as direct,
/// whatever its aliases, its prefixes and its other settings are.
pub proof fn hidden_originals_are_never_direct(
    channel: Channel,
    rows: Seq<ChannelModelEntry>,
    i: int,
)
    requires
        lists_table(rows, model_table(channel)),
        channel.settings is Some,
        channel.settings->0.hide_original_models == Some(true),
        0 <= i < rows.len(),
    ensures
        rows[i].source@ != "direct"@,
{
    hidden_originals_do_not_show(channel);
    sources_have_names_of_their_own();
    assert(model_table(channel).dom().contains(rows[i].request_model@));
}

/// Hiding the original models takes away the direct rows and nothing else.
pub proof fn hiding_originals_drops_direct_rows_only(
    before: Channel,
    after: Channel,
    rows: Seq<ChannelModelEntry>,
    fewer: Seq<ChannelModelEntry>,
    request: Seq<char>,
    actual: Seq<char>,
    source: Seq<char>,
)
    requires
        lists_table(rows, model_table(before)),
        lists_table(fewer, model_table(after)),
        after.supported_models@ == before.supported_models@,
        before.settings is Some,
        after.settings is Some,
        after.settings->0.extra_model_prefix == before.settings->0.extra_model_prefix,
        after.settings->0.auto_trimed_model_prefixes
            == before.settings->0.auto_trimed_model_prefixes,
        after.settings->0.model_mappings == before.settings->0.model_mappings,
        after.settings->0.hide_mapped_models == before.settings->0.hide_mapped_models,
        before.settings->0.lowercase_model_id != Some(true),
        after.settings->0.lowercase_model_id != Some(true),
        before.settings->0.hide_original_models != Some(true),
        after.settings->0.hide_original_models == Some(true),
    ensures
        shows(fewer, request, actual, source) <==> {
            &&& shows(rows, request, actual, source)
            &&& source != "direct"@
        },
{
    assert(named_table(after) == named_table(before));
    sources_have_names_of_their_own();
    rows_read_the_table(rows, model_table(before), request, actual, source);
    rows_read_the_table(fewer, model_table(after), request, actual, source);
}

/// One more alias makes its name stand for its target, unless the target is not
/// supported or the name is taken by anything but the extra prefix. Where aliased models
/// are hidden, whatever else stood for the target goes. All other rows stay.
pub proof fn one_more_alias_changes_its_own_rows_only(
    before: Channel,
    after: Channel,
    rows: Seq<ChannelModelEntry>,
    more: Seq<ChannelModelEntry>,
    request: Seq<char>,
    actual: Seq<char>,
    source: Seq<char>,
)
    requires
        lists_table(rows, model_table(before)),
        lists_table(more, model_table(after)),
        after.supported_models@ == before.supported_models@,
        before.settings is Some,
        after.settings is Some,
        after.settings->0.extra_model_prefix == before.settings->0.extra_model_prefix,
        after.settings->0.auto_trimed_model_prefixes
            == before.settings->0.auto_trimed_model_prefixes,
        after.settings->0.hide_mapped_models == before.settings->0.hide_mapped_models,
        before.settings->0.lowercase_model_id != Some(true),
        after.settings->0.lowercase_model_id != Some(true),
        before.settings->0.hide_original_models != Some(true),
        after.settings->0.hide_original_models != Some(true),
        after.settings->0.model_mappings is Some,
        after.settings->0.model_mappings->0@.len() > 0,
        match before.settings->0.model_mappings {
            Some(aliases) => aliases@ == after.settings->0.model_mappings->0@.drop_last(),
            None => after.settings->0.model_mappings->0@.len() == 1,
        },
    ensures
        ({
            let alias = after.settings->0.model_mappings->0@.last();
            let hiding = after.settings->0.hide_mapped_models == Some(true);
            let taken = exists|i: int|
                0 <= i < rows.len() && (#[trigger] rows[i]).request_model@ == alias.from@
                    && rows[i].source@ != "prefix"@;
            shows(more, request, actual, source) <==> if !supports(before, alias.to@) {
                shows(rows, request, actual, source)
            } else if hiding && source != "mapping"@ && actual == alias.to@ {
                false
            } else if request == alias.from@ && !taken {
                actual == alias.to@ && source == "mapping"@
            } else {
                shows(rows, request, actual, source)
            }
        }),
{
    let aliases = channel_aliases(after);
    let alias = after.settings->0.model_mappings->0@.last();
    assert(named_table(after) == named_table(before));
    assert(aliases.drop_last() =~= channel_aliases(before));
    assert(aliases.last() == (alias.from@, alias.to@));
    sources_have_names_of_their_own();
    supported_is_listed(before, alias.to@);
    assert(supported(after) == supported(before));
    let old_table = model_table(before);
    let new_table = model_table(after);
    rows_read_the_table(rows, old_table, request, actual, source);
    rows_read_the_table(more, new_table, request, actual, source);
    rows_read_the_table(rows, old_table, alias.from@, actual, source);
    let taken = exists|i: int|
        0 <= i < rows.len() && (#[trigger] rows[i]).request_model@ == alias.from@
            && rows[i].source@ != "prefix"@;
    assert(taken <==> old_table.dom().contains(alias.from@) && old_table[alias.from@].source
        != ModelEntrySource::Prefix);
}

/// A channel that puts request models into lower case accepts the lower-case form of
/// every request model that the same channel accepts without that setting.
pub proof fn lowercase_loses_no_model(
    before: Channel,
    after: Channel,
    rows: Seq<ChannelModelEntry>,
    lower: Seq<ChannelModelEntry>,
    i: int,
)
    requires
        lists_table(rows, model_table(before)),
        lists_table(lower, model_table(after)),
        after.supported_models@ == before.supported_models@,
        before.settings is Some,
        after.settings is Some,
        after.settings->0.extra_model_prefix == before.settings->0.extra_model_prefix,
        after.settings->0.auto_trimed_model_prefixes
            == before.settings->0.auto_trimed_model_prefixes,
        after.settings->0.model_mappings == before.settings->0.model_mappings,
        after.settings->0.hide_mapped_models == before.settings->0.hide_mapped_models,
        after.settings->0.hide_original_models == before.settings->0.hide_original_models,
        before.settings->0.lowercase_model_id != Some(true),
        after.settings->0.lowercase_model_id == Some(true),
        0 <= i < rows.len(),
    ensures
        exists|j: int|
            0 <= j < lower.len() && (#[trigger] lower[j]).request_model@ == lowered(
                rows[i].request_model@,
            ),
{
    assert(named_table(after) == named_table(before));
    assert(visible_table(after) == model_table(before));
    let key = rows[i].request_model@;
    assert(visible_table(after).dom().contains(key));
    assert(model_table(after).dom().contains(lowered(key)));
}

/// And it accepts nothing else: each of its rows is one of the same channel without that
/// setting, with the request model in lower case. Of several that fall together the
/// strongest source wins, and of equal ones the first in order.
pub proof fn lowercase_keeps_the_strongest(
    before: Channel,
    after: Channel,
    rows: Seq<ChannelModelEntry>,
    lower: Seq<ChannelModelEntry>,
    j: int,
) -> (i: int)
    requires
        lists_table(rows, model_table(before)),
        lists_table(lower, model_table(after)),
        after.supported_models@ == before.supported_models@,
        before.settings is Some,
        after.settings is Some,
        after.settings->0.extra_model_prefix == before.settings->0.extra_model_prefix,
        after.settings->0.auto_trimed_model_prefixes
            == before.settings->0.auto_trimed_model_prefixes,
        after.settings->0.model_mappings == before.settings->0.model_mappings,
        after.settings->0.hide_mapped_models == before.settings->0.hide_mapped_models,
        after.settings->0.hide_original_models == before.settings->0.hide_original_models,
        before.settings->0.lowercase_model_id != Some(true),
        after.settings->0.lowercase_model_id == Some(true),
        0 <= j < lower.len(),
    ensures
        0 <= i < rows.len(),
        lowered(rows[i].request_model@) == lower[j].request_model@,
        rows[i].actual_model@ == lower[j].actual_model@,
        rows[i].source@ == lower[j].source@,
        forall|k: int|
            0 <= k < rows.len() && lowered((#[trigger] rows[k]).request_model@)
                == lower[j].request_model@ ==> {
                ||| strength(rows[k].source@) < strength(rows[i].source@)
                ||| strength(rows[k].source@) == strength(rows[i].source@) && i <= k
            },
{
    assert(named_table(after) == named_table(before));
    sources_have_names_of_their_own();
    let table = visible_table(after);
    assert(table == model_table(before));
    let keys = visible_table_has_keys(after);
    let low = lower[j].request_model@;
    assert(model_table(after).dom().contains(low));
    lowercase_comes_from(table, keys, low);
    let key = choose|key: Seq<char>|
        survives(table, low, key) && lowercase_table(table)[low] == table[key];
    let i = choose|i: int| 0 <= i < rows.len() && (#[trigger] rows[i]).request_model@ == key;
    assert(rows[i].source@ == table[key].source.text());
    assert forall|k: int|
        0 <= k < rows.len() && lowered((#[trigger] rows[k]).request_model@) == low implies {
        ||| strength(rows[k].source@) < strength(rows[i].source@)
        ||| strength(rows[k].source@) == strength(rows[i].source@) && i <= k
    } by {
        let other = rows[k].request_model@;
        assert(table.dom().contains(other));
        assert(rows[k].source@ == table[other].source.text());
        if k < i {
            assert(precedes(rows[k].request_model@, rows[i].request_model@));
        }
    }
    i
}

/// The supported model that `k` stands for by the first of `prefixes` that fits.
spec fn cut_of(models: Seq<Seq<char>>, prefixes: Seq<Seq<char>>, k: Seq<char>) -> Option<Seq<char>>
    decreases prefixes.len(),
{
    if prefixes.len() == 0 {
        None
    } else {
        match cut_of(models, prefixes.drop_last(), k) {
            Some(model) => Some(model),
            None => if prefixes.last().len() > 0 && models.contains(prefixes.last() + "/"@ + k) {
                Some(prefixes.last() + "/"@ + k)
            } else {
                None
            },
        }
    }
}

/// What `offer_all_trimmed` leaves at one key.
proof fn all_trimmed_at(
    table: ModelTable,
    models: Seq<Seq<char>>,
    prefixes: Seq<Seq<char>>,
    k: Seq<char>,
)
    requires
        table.dom().contains(k) ==> table[k].source != ModelEntrySource::AutoTrim,
    ensures
        ({
            let after = offer_all_trimmed(table, models, prefixes);
            let cut = cut_of(models, prefixes, k);
            if (table.dom().contains(k) && table[k].source == ModelEntrySource::Direct) || cut
                is None {
                &&& after.dom().contains(k) <==> table.dom().contains(k)
                &&& table.dom().contains(k) ==> after[k] == table[k]
            } else {
                &&& after.dom().contains(k)
                &&& after[k] == (ModelEntry {
                    actual: cut->0,
                    source: ModelEntrySource::AutoTrim,
                })
            }
        }),
    decreases prefixes.len(),
{
    if prefixes.len() > 0 {
        let earlier = offer_all_trimmed(table, models, prefixes.drop_last());
        let lead = prefixes.last() + "/"@;
        all_trimmed_at(table, models, prefixes.drop_last(), k);
        if prefixes.last().len() > 0 {
            trimmed_offers_in_one(earlier, models, lead);
            assert(without_lead(models, lead)(k) == models.contains(lead + k));
        }
    }
}

/// Whether the prefix at `j` is not empty and fits.
spec fn fits(models: Seq<Seq<char>>, prefixes: Seq<Seq<char>>, k: Seq<char>, j: int) -> bool {
    &&& 0 <= j < prefixes.len()
    &&& prefixes[j].len() > 0
    &&& models.contains(prefixes[j] + "/"@ + k)
}

proof fn cut_of_is_the_first(
    models: Seq<Seq<char>>,
    prefixes: Seq<Seq<char>>,
    k: Seq<char>,
)
    ensures
        match cut_of(models, prefixes, k) {
            Some(model) => exists|j: int| #[trigger]
                fits(models, prefixes, k, j) && model == prefixes[j] + "/"@ + k && forall|i: int|
                    0 <= i < j ==> !#[trigger] fits(models, prefixes, k, i),
            None => forall|j: int| !#[trigger] fits(models, prefixes, k, j),
        },
    decreases prefixes.len(),
{
    if prefixes.len() > 0 {
        let sooner = prefixes.drop_last();
        let n = sooner.len() as int;
        cut_of_is_the_first(models, sooner, k);
        assert forall|j: int| j < n implies #[trigger] fits(models, prefixes, k, j) == fits(
            models,
            sooner,
            k,
            j,
        ) by {
            if 0 <= j {
                assert(sooner[j] == prefixes[j]);
            }
        }
        match cut_of(models, sooner, k) {
            Some(model) => {
                let j = choose|j: int| #[trigger]
                    fits(models, sooner, k, j) && model == sooner[j] + "/"@ + k && forall|i: int|
                        0 <= i < j ==> !#[trigger] fits(models, sooner, k, i);
                assert(fits(models, prefixes, k, j));
            },
            None => {
                assert(fits(models, prefixes, k, n) == (prefixes.last().len() > 0
                    && models.contains(prefixes.last() + "/"@ + k)));
            },
        }
    }
}

/// A channel without aliases that hides nothing and changes no case lists each model it
/// supports as direct; what a cut prefix leaves of a supported model as `auto_trim`, by
/// the first prefix that fits; a supported model under the extra prefix as `prefix`; and
/// nothing else. In that order, the earlier ones win.
pub proof fn channels_without_aliases_list_models_and_prefixes(
    channel: Channel,
    rows: Seq<ChannelModelEntry>,
    request: Seq<char>,
)
    requires
        lists_table(rows, model_table(channel)),
        channel.settings matches Some(settings) ==> {
            &&& settings.model_mappings is None || settings.model_mappings->0@.len() == 0
            &&& settings.hide_original_models != Some(true)
            &&& settings.lowercase_model_id != Some(true)
        },
    ensures
        supports(channel, request) ==> shows(rows, request, request, "direct"@),
        forall|j: int| #[trigger]
            cut_by(channel, j, request) && (forall|i: int|
                0 <= i < j ==> !#[trigger] cut_by(channel, i, request)) && !supports(
                channel,
                request,
            ) ==> shows(
                rows,
                request,
                channel.settings->0.auto_trimed_model_prefixes->0@[j]@ + "/"@ + request,
                "auto_trim"@,
            ),
        forall|model: Seq<char>| #[trigger]
            led_to(channel, request, model) && (forall|j: int|
                !#[trigger] cut_by(channel, j, request)) && !supports(channel, request) ==> shows(
                rows,
                request,
                model,
                "prefix"@,
            ),
        (exists|i: int| 0 <= i < rows.len() && (#[trigger] rows[i]).request_model@ == request) ==> {
            ||| supports(channel, request)
            ||| exists|j: int| #[trigger] cut_by(channel, j, request)
            ||| exists|model: Seq<char>| #[trigger] led_to(channel, request, model)
        },
{
    let models = supported(channel);
    let lead = extra_prefix(channel);
    let empty = Map::<Seq<char>, ModelEntry>::empty();
    let direct = offer_direct(empty, models);
    let prefixed = if lead.len() == 0 {
        direct
    } else {
        offer_prefixed(direct, models, lead)
    };
    let prefixes = trimmed_prefixes(channel);
    let table = model_table(channel);
    assert(table == named_table(channel));
    direct_offers_in_one(empty, models);
    prefixed_offers_in_one(direct, models, lead);
    supported_is_listed(channel, request);
    all_trimmed_at(prefixed, models, prefixes, request);
    cut_of_is_the_first(models, prefixes, request);
    assert forall|j: int| #[trigger] cut_by(channel, j, request) == fits(
        models,
        prefixes,
        request,
        j,
    ) by {
        if 0 <= j < prefixes.len() {
            supported_is_listed(channel, prefixes[j] + "/"@ + request);
        }
    }
    assert forall|model: Seq<char>| #[trigger] led_to(channel, request, model) == (lead.len() > 0
        && crate::text::after_prefix(request, lead + "/"@) == Some(model) && models.contains(
        model,
    )) by {
        supported_is_listed(channel, model);
        crate::text::cutting_a_prefix_undoes_adding_it(request, lead + "/"@, model);
    }
    rows_read_the_table(rows, table, request, request, "direct"@);
    assert forall|j: int| #[trigger]
        cut_by(channel, j, request) && (forall|i: int|
            0 <= i < j ==> !#[trigger] cut_by(channel, i, request)) && !supports(
            channel,
            request,
        ) implies shows(
        rows,
        request,
        channel.settings->0.auto_trimed_model_prefixes->0@[j]@ + "/"@ + request,
        "auto_trim"@,
    ) by {
        assert(fits(models, prefixes, request, j));
        let first = choose|first: int| #[trigger]
            fits(models, prefixes, request, first) && cut_of(models, prefixes, request)->0
                == prefixes[first] + "/"@ + request && forall|i: int|
                0 <= i < first ==> !#[trigger] fits(models, prefixes, request, i);
        assert(cut_by(channel, first, request));
        rows_read_the_table(rows, table, request, prefixes[j] + "/"@ + request, "auto_trim"@);
    }
    assert forall|model: Seq<char>| #[trigger]
        led_to(channel, request, model) && (forall|j: int|
            !#[trigger] cut_by(channel, j, request)) && !supports(
            channel,
            request,
        ) implies shows(rows, request, model, "prefix"@) by {
        assert forall|j: int| !#[trigger] fits(models, prefixes, request, j) by {
            assert(!cut_by(channel, j, request));
        }
        rows_read_the_table(rows, table, request, model, "prefix"@);
    }
    if exists|i: int| 0 <= i < rows.len() && (#[trigger] rows[i]).request_model@ == request {
        assert(table.dom().contains(request));
        if !supports(channel, request) && !exists|j: int| #[trigger] cut_by(channel, j, request) {
            assert forall|j: int| !#[trigger] fits(models, prefixes, request, j) by {
                assert(!cut_by(channel, j, request));
            }
            assert(prefixed.dom().contains(request));
            assert(led_to(
                channel,
                request,
                crate::text::after_prefix(request, lead + "/"@)->0,
            ));
        }
    }
}

/// The rows of a listing stand in the order of their request models, each once.
pub proof fn rows_stand_in_order(
    channel: Channel,
    rows: Seq<ChannelModelEntry>,
    i: int,
    j: int,
)
    requires
        lists_table(rows, model_table(channel)),
        0 <= i < j < rows.len(),
    ensures
        precedes(rows[i].request_model@, rows[j].request_model@),
        rows[i].request_model@ != rows[j].request_model@,
{
    crate::text::precedes_is_irreflexive(rows[i].request_model@);
}

/// A source's rank follows its name: direct before a cut prefix, that before an alias,
/// and that before the extra prefix.
pub proof fn sources_rank_by_name(source: ModelEntrySource)
    ensures
        source.rank() == strength(source.text()),
        source == ModelEntrySource::Direct <==> source.text() == "direct"@,
        source == ModelEntrySource::AutoTrim <==> source.text() == "auto_trim"@,
        source == ModelEntrySource::Mapping <==> source.text() == "mapping"@,
        source == ModelEntrySource::Prefix <==> source.text() == "prefix"@,
{
    sources_have_names_of_their_own();
}

} // verus!
