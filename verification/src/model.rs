//! A reference host: what the store and the sensemaker cell are taken to do
//! with each call. The endpoints never see more of their host than its
//! replies, so what a whole round trip comes to can only be said against
//! such a model. Here it is the plainest one: entries stay where they were
//! written, links are listed in the order in which they were made, and under
//! each path and tag the latest entry wins.
//!
//! What the model cannot know it takes from an `Oracle`: the addresses that
//! hashing gives, and the values that the interpreter gives. The laws below
//! hold for every oracle.

use crate::content::ContentView;
use crate::host::{EntryView, HostCallView, HostReplyView, LinkBaseView, RecordView};
use crate::path::{address_path, composed, law_distinct_addresses_have_distinct_paths};
use crate::response::{EffectView, OutcomeView, ResponseView};
use crate::sensemaker::{FlatValue, RequestView, SensemakerEntryView, SmTag};
use crate::session::{step, Awaited, SessionView};
use crate::zome::single_call;
use vstd::prelude::*;

verus! {

/// What the host answers where an address or a path holds nothing, or an
/// expression cannot be evaluated.
pub const REFUSED: &'static str = "refused";

/// A link as a value.
pub struct LinkView {
    pub base: LinkBaseView,
    pub target: Seq<u8>,
    pub tag: Seq<char>,
}

/// What the model takes from hashing and from the interpreter.
pub struct Oracle {
    /// The address of an entry with this content.
    pub address: spec_fn(ContentView) -> Seq<u8>,
    /// The address of the record of the write with this number.
    pub header: spec_fn(nat) -> Seq<u8>,
    /// The address of a sensemaker entry.
    pub entry_address: spec_fn(SensemakerEntryView) -> Seq<u8>,
    /// The value of an expression; `None` where it cannot be parsed or
    /// evaluated.
    pub value: spec_fn(Seq<char>) -> Option<FlatValue>,
    /// The value that a transition expression gives for a value and an
    /// action.
    pub transition: spec_fn(Seq<char>, FlatValue, Seq<char>) -> Option<FlatValue>,
    /// The value of an expression applied to the values of two records.
    pub application: spec_fn(Seq<char>, Seq<u8>, Seq<u8>) -> Option<FlatValue>,
}

/// Everything the host and the sensemaker cell keep.
pub struct World {
    /// The entries, by address.
    pub entries: Map<Seq<u8>, ContentView>,
    /// The links, in the order in which they were made.
    pub links: Seq<LinkView>,
    /// The latest sensemaker entry under each path and tag, with its address
    /// and the address of its record.
    pub kept: Map<(Seq<char>, SmTag), RecordView>,
    /// How many writes were made.
    pub writes: nat,
}

/// The targets of the links from `base` under `tag`, in the order in which
/// the links were made.
pub open spec fn targets_of(links: Seq<LinkView>, base: LinkBaseView, tag: Seq<char>) -> Seq<
    Seq<u8>,
>
    decreases links.len(),
{
    if links.len() == 0 {
        Seq::empty()
    } else if links.last().base == base && links.last().tag == tag {
        targets_of(links.drop_last(), base, tag).push(links.last().target)
    } else {
        targets_of(links.drop_last(), base, tag)
    }
}

/// What is kept under a path and tag, if anything.
pub open spec fn lookup(world: World, path: Seq<char>, tag: SmTag) -> Option<RecordView> {
    if world.kept.contains_key((path, tag)) {
        Some(world.kept[(path, tag)])
    } else {
        None
    }
}

/// The expression kept under a path and tag.
pub open spec fn kept_expr(world: World, path: Seq<char>, tag: SmTag) -> Seq<char> {
    let record = world.kept[(path, tag)];
    record.2.expr
}

/// The value kept under a path and tag.
pub open spec fn kept_value(world: World, path: Seq<char>, tag: SmTag) -> FlatValue {
    let record = world.kept[(path, tag)];
    record.2.output_flat_value
}

/// A record without the address of its record.
pub open spec fn without_header(found: Option<RecordView>) -> Option<EntryView> {
    match found {
        Some(record) => Some((record.0, record.2)),
        None => None,
    }
}

/// The world after `entry` was written under a path and tag: it is the
/// latest there, and everything else is as before.
pub open spec fn keep(
    oracle: Oracle,
    world: World,
    path: Seq<char>,
    tag: SmTag,
    entry: SensemakerEntryView,
) -> World {
    World {
        kept: world.kept.insert(
            (path, tag),
            ((oracle.entry_address)(entry), (oracle.header)(world.writes), entry),
        ),
        writes: world.writes + 1,
        ..world
    }
}

/// The cell starts to keep a value under `path`, seeded from the initial
/// expression of `namespace`. It fails where the namespace has none, and
/// leaves a value that is kept already as it is.
pub open spec fn initialize(oracle: Oracle, world: World, namespace: Seq<char>, path: Seq<char>) -> (
    World,
    HostReplyView,
) {
    if world.kept.contains_key((path, SmTag::Data)) {
        (world, HostReplyView::Acknowledged)
    } else if world.kept.contains_key((namespace, SmTag::Init)) {
        (
            keep(oracle, world, path, SmTag::Data, world.kept[(namespace, SmTag::Init)].2),
            HostReplyView::Acknowledged,
        )
    } else {
        (world, HostReplyView::Failed(REFUSED@))
    }
}

/// The cell applies `action` to the value kept under `path`, by the
/// transition expression of `namespace`. It fails where either is missing or
/// the transition gives no value.
pub open spec fn advance(
    oracle: Oracle,
    world: World,
    namespace: Seq<char>,
    path: Seq<char>,
    action: Seq<char>,
) -> (World, HostReplyView) {
    if world.kept.contains_key((namespace, SmTag::Comp)) && world.kept.contains_key(
        (path, SmTag::Data),
    ) {
        let comp = world.kept[(namespace, SmTag::Comp)].2;
        let data = world.kept[(path, SmTag::Data)].2;
        match (oracle.transition)(comp.expr, data.output_flat_value, action) {
            Some(value) => (
                keep(
                    oracle,
                    world,
                    path,
                    SmTag::Data,
                    SensemakerEntryView { expr: comp.expr, output_flat_value: value },
                ),
                HostReplyView::Acknowledged,
            ),
            None => (world, HostReplyView::Failed(REFUSED@)),
        }
    } else {
        (world, HostReplyView::Failed(REFUSED@))
    }
}

/// What the sensemaker cell does with a call, and what it answers.
pub open spec fn serve(oracle: Oracle, world: World, request: RequestView) -> (
    World,
    HostReplyView,
) {
    match request {
        RequestView::GetEntryByPath { path, tag } => (
            world,
            HostReplyView::Entry(without_header(lookup(world, path, tag))),
        ),
        RequestView::GetEntryByPathWithHh { path, tag } => (
            world,
            HostReplyView::Record(lookup(world, path, tag)),
        ),
        RequestView::SetEntryParseRlExpr { path, tag, expr } => match (oracle.value)(expr) {
            Some(value) => (
                keep(
                    oracle,
                    world,
                    path,
                    tag,
                    SensemakerEntryView { expr, output_flat_value: value },
                ),
                HostReplyView::Acknowledged,
            ),
            None => (world, HostReplyView::Failed(REFUSED@)),
        },
        RequestView::InitializeSmData { path, target } => initialize(
            oracle,
            world,
            path,
            address_path(path, target),
        ),
        RequestView::InitializeSmDataPath { path, address } => initialize(
            oracle,
            world,
            path,
            composed(path, address),
        ),
        RequestView::StepSm { path, target, action } => advance(
            oracle,
            world,
            path,
            address_path(path, target),
            action,
        ),
        RequestView::StepSmPath { path, address, action } => advance(
            oracle,
            world,
            path,
            composed(path, address),
            action,
        ),
    }
}

/// What the host does with a call, and what it answers.
pub open spec fn answer(oracle: Oracle, world: World, call: HostCallView) -> (World, HostReplyView) {
    match call {
        HostCallView::Persist(content) => (
            World {
                entries: world.entries.insert((oracle.address)(content), content),
                writes: world.writes + 1,
                ..world
            },
            HostReplyView::Persisted {
                entry: (oracle.address)(content),
                header: (oracle.header)(world.writes),
            },
        ),
        HostCallView::Link { base, target, tag } => (
            World {
                links: world.links.push(LinkView { base, target, tag }),
                writes: world.writes + 1,
                ..world
            },
            HostReplyView::Linked,
        ),
        HostCallView::Enumerate { base, tag } => (
            world,
            HostReplyView::Targets(targets_of(world.links, base, tag)),
        ),
        HostCallView::Fetch(entry) => (
            world,
            if world.entries.contains_key(entry) {
                HostReplyView::Fetched(world.entries[entry])
            } else {
                HostReplyView::Failed(REFUSED@)
            },
        ),
        HostCallView::Sensemaker(request) => serve(oracle, world, request),
        HostCallView::Apply { expr, content_score, agent_score } => (
            world,
            match (oracle.application)(expr, content_score, agent_score) {
                Some(value) => HostReplyView::Value(value),
                None => HostReplyView::Failed(REFUSED@),
            },
        ),
    }
}

/// An endpoint run against the reference host for at most `fuel` calls: the
/// world it leaves, and its outcome if it returned in time.
pub open spec fn drive(oracle: Oracle, world: World, at: (SessionView, EffectView), fuel: nat) -> (
    World,
    Option<OutcomeView>,
)
    decreases fuel,
{
    match at.1 {
        EffectView::Return(outcome) => (world, Some(outcome)),
        EffectView::Call(call) => if fuel == 0 {
            (world, None)
        } else {
            let answered = answer(oracle, world, call);
            drive(oracle, answered.0, step(at.0, answered.1), (fuel - 1) as nat)
        },
    }
}

/// The outcome of an endpoint that returned `response`.
pub open spec fn done(response: ResponseView) -> OutcomeView {
    Ok(response)
}

/// Whether an endpoint returned a response.
pub open spec fn has_succeeded(outcome: Option<OutcomeView>) -> bool {
    outcome matches Some(Ok(_))
}

/// Whether an endpoint returned an error.
pub open spec fn has_failed(outcome: Option<OutcomeView>) -> bool {
    outcome matches Some(Err(_))
}

/// An endpoint of one call, run against the reference host.
pub open spec fn ask(oracle: Oracle, world: World, awaited: Awaited, request: RequestView) -> (
    World,
    Option<OutcomeView>,
) {
    drive(oracle, world, single_call(awaited, request), 1)
}

/// An endpoint of one call returns after that call: with what the reply
/// becomes, in the world that the cell left.
pub proof fn lemma_ask(oracle: Oracle, world: World, awaited: Awaited, request: RequestView)
    ensures
        ask(oracle, world, awaited, request).0 == serve(oracle, world, request).0,
        ask(oracle, world, awaited, request).1 == Some(
            crate::session::settle(awaited, serve(oracle, world, request).1),
        ),
{
    reveal_with_fuel(drive, 2);
}

/// Set, then get: once an expression was set under a path and tag, reading
/// the path and tag gives an entry with that expression. This holds for the
/// initial and the transition expression alike, wherever the cell can parse
/// the expression.
pub proof fn law_set_then_get(
    oracle: Oracle,
    world: World,
    path: Seq<char>,
    tag: SmTag,
    expr: Seq<char>,
)
    requires
        (oracle.value)(expr) is Some,
    ensures
        ({
            let set = ask(
                oracle,
                world,
                Awaited::Flag,
                RequestView::SetEntryParseRlExpr { path, tag, expr },
            );
            let got = ask(
                oracle,
                set.0,
                Awaited::Entry,
                RequestView::GetEntryByPath { path, tag },
            );
            &&& set.1 == Some(done(ResponseView::Flag(true)))
            &&& got.1 matches Some(Ok(ResponseView::Entry(Some(found))))
            &&& found.1.expr == expr
        }),
{
    let set_request = RequestView::SetEntryParseRlExpr { path, tag, expr };
    lemma_ask(oracle, world, Awaited::Flag, set_request);
    let set = ask(oracle, world, Awaited::Flag, set_request);
    lemma_ask(oracle, set.0, Awaited::Entry, RequestView::GetEntryByPath { path, tag });
}

/// Step, then query: once an action was applied to the value of an entry,
/// reading the entry's value gives what the namespace's transition expression
/// makes of the old value and the action, whether it is read with the address
/// of its record or without.
pub proof fn law_step_then_query(
    oracle: Oracle,
    world: World,
    namespace: Seq<char>,
    target: Seq<u8>,
    action: Seq<char>,
)
    requires
        lookup(world, namespace, SmTag::Comp) is Some,
        lookup(world, address_path(namespace, target), SmTag::Data) is Some,
        (oracle.transition)(
            kept_expr(world, namespace, SmTag::Comp),
            kept_value(world, address_path(namespace, target), SmTag::Data),
            action,
        ) is Some,
    ensures
        ({
            let stepped = ask(
                oracle,
                world,
                Awaited::Unit,
                RequestView::StepSm { path: namespace, target, action },
            );
            let got = ask(
                oracle,
                stepped.0,
                Awaited::Record,
                RequestView::GetEntryByPathWithHh {
                    path: address_path(namespace, target),
                    tag: SmTag::Data,
                },
            );
            let read = ask(
                oracle,
                stepped.0,
                Awaited::Entry,
                RequestView::GetEntryByPath {
                    path: address_path(namespace, target),
                    tag: SmTag::Data,
                },
            );
            &&& stepped.1 == Some(done(ResponseView::Unit))
            &&& got.1 matches Some(Ok(ResponseView::Record(Some(found))))
            &&& Some(found.2.output_flat_value) == (oracle.transition)(
                kept_expr(world, namespace, SmTag::Comp),
                kept_value(world, address_path(namespace, target), SmTag::Data),
                action,
            )
            &&& read.1 == Some(done(ResponseView::Entry(Some((found.0, found.2)))))
        }),
{
    let step_request = RequestView::StepSm { path: namespace, target, action };
    lemma_ask(oracle, world, Awaited::Unit, step_request);
    let stepped = ask(oracle, world, Awaited::Unit, step_request);
    lemma_ask(
        oracle,
        stepped.0,
        Awaited::Record,
        RequestView::GetEntryByPathWithHh {
            path: address_path(namespace, target),
            tag: SmTag::Data,
        },
    );
    lemma_ask(
        oracle,
        stepped.0,
        Awaited::Entry,
        RequestView::GetEntryByPath { path: address_path(namespace, target), tag: SmTag::Data },
    );
}

/// Two entries, two values: whatever is done to the value of one entry, by
/// initializing it or by stepping it, the value kept for any other entry is
/// as before, under the same namespace or another.
pub proof fn law_values_are_independent(
    oracle: Oracle,
    world: World,
    namespace: Seq<char>,
    target: Seq<u8>,
    action: Seq<char>,
    other_namespace: Seq<char>,
    other_target: Seq<u8>,
)
    requires
        target != other_target,
    ensures
        address_path(namespace, target) != address_path(other_namespace, other_target),
        lookup(
            ask(
                oracle,
                world,
                Awaited::Unit,
                RequestView::StepSm { path: namespace, target, action },
            ).0,
            address_path(other_namespace, other_target),
            SmTag::Data,
        ) == lookup(world, address_path(other_namespace, other_target), SmTag::Data),
        lookup(
            ask(
                oracle,
                world,
                Awaited::Unit,
                RequestView::InitializeSmData { path: namespace, target },
            ).0,
            address_path(other_namespace, other_target),
            SmTag::Data,
        ) == lookup(world, address_path(other_namespace, other_target), SmTag::Data),
{
    law_distinct_addresses_have_distinct_paths(namespace, target, other_namespace, other_target);
    lemma_ask(
        oracle,
        world,
        Awaited::Unit,
        RequestView::StepSm { path: namespace, target, action },
    );
    lemma_ask(oracle, world, Awaited::Unit, RequestView::InitializeSmData { path: namespace, target });
}

/// Initialize once: where a value is kept for an entry, initializing the
/// entry again is acknowledged and changes nothing, so the value that steps
/// have led to is not reset. Where none is kept and the namespace has an
/// initial expression, the entry's value becomes that expression's.
pub proof fn law_initialize_once(
    oracle: Oracle,
    world: World,
    namespace: Seq<char>,
    target: Seq<u8>,
)
    ensures
        ({
            let path = address_path(namespace, target);
            let initialized = ask(
                oracle,
                world,
                Awaited::Unit,
                RequestView::InitializeSmData { path: namespace, target },
            );
            let again = ask(
                oracle,
                initialized.0,
                Awaited::Unit,
                RequestView::InitializeSmData { path: namespace, target },
            );
            &&& lookup(world, path, SmTag::Data) is Some ==> initialized == (
                world,
                Some(done(ResponseView::Unit)),
            )
            &&& lookup(world, path, SmTag::Data) is None && lookup(world, namespace, SmTag::Init)
                is Some ==> {
                &&& initialized.1 == Some(done(ResponseView::Unit))
                &&& lookup(initialized.0, path, SmTag::Data) is Some
                &&& kept_expr(initialized.0, path, SmTag::Data) == kept_expr(
                    world,
                    namespace,
                    SmTag::Init,
                )
                &&& kept_value(initialized.0, path, SmTag::Data) == kept_value(
                    world,
                    namespace,
                    SmTag::Init,
                )
            }
            &&& lookup(world, path, SmTag::Data) is None && lookup(world, namespace, SmTag::Init)
                is None ==> initialized.0 == world && has_failed(initialized.1)
            &&& has_succeeded(initialized.1) ==> again == (
                initialized.0,
                Some(done(ResponseView::Unit)),
            )
        }),
{
    let request = RequestView::InitializeSmData { path: namespace, target };
    lemma_ask(oracle, world, Awaited::Unit, request);
    let initialized = ask(oracle, world, Awaited::Unit, request);
    lemma_ask(oracle, initialized.0, Awaited::Unit, request);
}

} // verus!
