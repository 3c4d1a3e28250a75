//! Upload, then list: what a listing returns for the entries that uploads
//! have written, when both run against the reference host.

use crate::content::{AnnotationView, BlobView, ContentView, AGENT_PATH, ANNOTATIONZ_PATH, ANN_TAG,
    MEMEZ_PATH, MEME_ANCHOR, MEME_TAG, PAPERZ_PATH, PAPER_ANCHOR, PAPER_TAG};
use crate::host::{HostCallView, HostReplyView, LinkBaseView};
use crate::memez::{meme_upload, memez_listing};
use crate::model::{advance, answer, drive, has_succeeded, initialize, kept_expr, kept_value, lookup,
    targets_of, LinkView, Oracle, World, REFUSED};
use crate::paperz::{annotation_upload, annotations_listing, paper_upload, paperz_listing};
use crate::path::address_path;
use crate::path::{composed, law_distinct_addresses_have_distinct_paths};
use crate::response::{EffectView, ListedAnnotationView, ListedPaperView, OutcomeView, ResponseView,
    ScoredMemeView, ZomeErrorView};
use crate::sensemaker::{score_of, FlatValue, RequestView, SmTag};
use crate::session::{list_annotations, list_memez, list_paperz, score_call, step, MemeStageView,
    SessionView, UploadView, STEP_ONE};
use vstd::prelude::*;

verus! {

/// Whether `paperz` are the papers at the first `count` of `targets`, each
/// with its address, in order.
pub open spec fn lists_papers(
    world: World,
    targets: Seq<Seq<u8>>,
    count: int,
    paperz: Seq<ListedPaperView>,
) -> bool {
    &&& paperz.len() == count
    &&& forall|i: int|
        0 <= i < count ==> {
            &&& (#[trigger] paperz[i]).0 == targets[i]
            &&& world.entries.contains_key(targets[i])
            &&& world.entries[targets[i]] == ContentView::Paper(paperz[i].1)
        }
}

/// Whether a paper is kept at `target`.
pub open spec fn is_paper_at(world: World, target: Seq<u8>) -> bool {
    world.entries.contains_key(target) && world.entries[target] is Paper
}

/// Whether a paper is kept at each of `targets` from the position `from` on.
pub open spec fn all_papers_from(world: World, targets: Seq<Seq<u8>>, from: int) -> bool {
    forall|i: int| from <= i < targets.len() ==> is_paper_at(world, #[trigger] targets[i])
}

/// Whether each meme at `targets` from the position `from` on can be scored.
pub open spec fn all_scored_from(
    oracle: Oracle,
    world: World,
    expr: Seq<char>,
    agent: Seq<u8>,
    targets: Seq<Seq<u8>>,
    from: int,
) -> bool {
    forall|i: int|
        from <= i < targets.len() ==> can_be_scored(oracle, world, expr, agent, #[trigger] targets[i])
}

/// A listing of papers under way against the reference host, with no paper
/// lost so far, returns the papers at all the targets, or fails; one that has
/// lost a paper fails. It succeeds where a paper is kept at every target
/// left.
proof fn lemma_listing_paperz(
    oracle: Oracle,
    world: World,
    targets: Seq<Seq<u8>>,
    next: int,
    paperz: Seq<ListedPaperView>,
    failure: Option<ZomeErrorView>,
    fuel: nat,
)
    requires
        0 <= next <= targets.len(),
        failure is None ==> lists_papers(world, targets, next, paperz),
    ensures
        ({
            let listed = drive(oracle, world, list_paperz(targets, next, paperz, failure), fuel);
            &&& listed.0 == world
            &&& listed.1 matches Some(Ok(response)) ==> {
                &&& failure is None
                &&& response matches ResponseView::Paperz(all)
                &&& lists_papers(world, targets, targets.len() as int, all)
            }
            &&& failure is None && all_papers_from(world, targets, next) && fuel >= targets.len()
                - next ==> listed.1 matches Some(Ok(_))
        }),
    decreases fuel,
{
    if next < targets.len() && fuel > 0 {
        let session = SessionView::ListingPaperz { targets, next, paperz, failure };
        let call = HostCallView::Fetch(targets[next]);
        let answered = answer(oracle, world, call);
        assert(answered.0 == world);
        assert(all_papers_from(world, targets, next) ==> is_paper_at(world, targets[next])
            && all_papers_from(world, targets, next + 1));
        let reply = answered.1;
        match reply {
            HostReplyView::Fetched(ContentView::Paper(paper)) => {
                let longer = paperz.push((targets[next], paper));
                assert(step(session, reply) == list_paperz(targets, next + 1, longer, failure));
                if failure is None {
                    assert(lists_papers(world, targets, next + 1, longer));
                }
                lemma_listing_paperz(
                    oracle,
                    world,
                    targets,
                    next + 1,
                    longer,
                    failure,
                    (fuel - 1) as nat,
                );
            },
            _ => {
                let lost = Some(crate::session::item_error(true, false, reply));
                assert(step(session, reply) == list_paperz(targets, next + 1, paperz, lost));
                lemma_listing_paperz(
                    oracle,
                    world,
                    targets,
                    next + 1,
                    paperz,
                    lost,
                    (fuel - 1) as nat,
                );
            },
        }
    }
}

/// A successful listing of papers, run against the reference host, returns
/// exactly the papers that are linked from the papers' anchor: one for each
/// link, in the order of the links, each with the content kept at its
/// address. Given calls enough, the listing succeeds exactly where a paper is
/// kept at the target of every link. The listing changes nothing.
pub proof fn law_listing_returns_the_linked_papers(oracle: Oracle, world: World, fuel: nat)
    ensures
        ({
            let listed = drive(
                oracle,
                world,
                paperz_listing(),
                fuel,
            );
            let targets = targets_of(world.links, LinkBaseView::Anchor(PAPER_ANCHOR@), PAPER_TAG@);
            &&& listed.0 == world
            &&& listed.1 matches Some(Ok(response)) ==> {
                &&& response matches ResponseView::Paperz(all)
                &&& lists_papers(world, targets, targets.len() as int, all)
            }
            &&& fuel > targets.len() ==> (listed.1 matches Some(Ok(_)) <==> all_papers_from(
                world,
                targets,
                0,
            ))
        }),
{
    if fuel > 0 {
        let targets = targets_of(world.links, LinkBaseView::Anchor(PAPER_ANCHOR@), PAPER_TAG@);
        lemma_listing_paperz(oracle, world, targets, 0, Seq::empty(), None, (fuel - 1) as nat);
        let listed = drive(
            oracle,
            world,
            list_paperz(targets, 0, Seq::empty(), None),
            (fuel - 1) as nat,
        );
        match listed.1 {
            Some(Ok(ResponseView::Paperz(all))) => {
                assert forall|i: int| 0 <= i < targets.len() implies is_paper_at(
                    world,
                    #[trigger] targets[i],
                ) by {
                    assert(all[i].0 == targets[i]);
                }
            },
            _ => {},
        }
    }
}

/// The record kept for the score of the entry or agent with the raw address
/// `raw` under `namespace`.
pub open spec fn score_record(world: World, namespace: Seq<char>, raw: Seq<u8>) -> Option<
    crate::host::RecordView,
> {
    lookup(world, address_path(namespace, raw), SmTag::Data)
}

/// The address of the record that wrote a sensemaker entry.
pub open spec fn header_of(record: crate::host::RecordView) -> Seq<u8> {
    record.1
}

/// The value of `expr` applied to the score of the meme at `target` and to
/// the score of `agent`, as the oracle gives it.
pub open spec fn applied(
    oracle: Oracle,
    world: World,
    expr: Seq<char>,
    agent: Seq<u8>,
    target: Seq<u8>,
) -> Option<FlatValue> {
    (oracle.application)(
        expr,
        header_of(score_record(world, MEMEZ_PATH@, target)->0),
        header_of(score_record(world, AGENT_PATH@, agent)->0),
    )
}

/// Whether the meme at `target` can be listed with a score: it is kept and is
/// a meme, a score is kept for it and for the agent, and the expression
/// applies to the two.
pub open spec fn can_be_scored(
    oracle: Oracle,
    world: World,
    expr: Seq<char>,
    agent: Seq<u8>,
    target: Seq<u8>,
) -> bool {
    &&& world.entries.contains_key(target)
    &&& world.entries[target] is Meme
    &&& score_record(world, MEMEZ_PATH@, target) is Some
    &&& score_record(world, AGENT_PATH@, agent) is Some
    &&& applied(oracle, world, expr, agent, target) is Some
}

/// Whether `memez` are the memes at the first `count` of `targets`, each with
/// its address and its score, in order.
pub open spec fn lists_memes(
    oracle: Oracle,
    world: World,
    expr: Seq<char>,
    agent: Seq<u8>,
    targets: Seq<Seq<u8>>,
    count: int,
    memez: Seq<ScoredMemeView>,
) -> bool {
    &&& memez.len() == count
    &&& forall|i: int|
        0 <= i < count ==> {
            &&& (#[trigger] memez[i]).0 == targets[i]
            &&& can_be_scored(oracle, world, expr, agent, targets[i])
            &&& world.entries[targets[i]] == ContentView::Meme(memez[i].1)
            &&& memez[i].2 == score_of(applied(oracle, world, expr, agent, targets[i])->0)
        }
}

/// A listing of memes under way against the reference host, with no meme
/// lost so far, returns the memes at all the targets with their scores, or
/// fails; one that has lost a meme fails. It succeeds where every meme left
/// can be scored.
proof fn lemma_listing_memez(
    oracle: Oracle,
    world: World,
    expr: Seq<char>,
    agent: Seq<u8>,
    targets: Seq<Seq<u8>>,
    next: int,
    memez: Seq<ScoredMemeView>,
    failure: Option<ZomeErrorView>,
    fuel: nat,
)
    requires
        0 <= next <= targets.len(),
        failure is None ==> lists_memes(oracle, world, expr, agent, targets, next, memez),
    ensures
        ({
            let listed = drive(
                oracle,
                world,
                list_memez(expr, agent, targets, next, memez, failure),
                fuel,
            );
            &&& listed.0 == world
            &&& listed.1 matches Some(Ok(response)) ==> {
                &&& failure is None
                &&& response matches ResponseView::Memez(all)
                &&& lists_memes(oracle, world, expr, agent, targets, targets.len() as int, all)
            }
            &&& failure is None && all_scored_from(oracle, world, expr, agent, targets, next)
                && fuel >= 4 * (targets.len() - next) ==> listed.1 matches Some(Ok(_))
        }),
    decreases fuel,
{
    if next < targets.len() && fuel > 0 {
        let target = targets[next];
        assert(all_scored_from(oracle, world, expr, agent, targets, next) ==> can_be_scored(
            oracle,
            world,
            expr,
            agent,
            target,
        ) && all_scored_from(oracle, world, expr, agent, targets, next + 1));
        let fetching = SessionView::ListingMemez {
            expr,
            agent,
            targets,
            next,
            stage: MemeStageView::Fetching,
            memez,
            failure,
        };
        let fetched = answer(oracle, world, HostCallView::Fetch(target)).1;
        let whole = drive(
            oracle,
            world,
            list_memez(expr, agent, targets, next, memez, failure),
            fuel,
        );
        assert(whole == drive(oracle, world, step(fetching, fetched), (fuel - 1) as nat));
        match fetched {
            HostReplyView::Fetched(ContentView::Meme(meme)) => {
                let scoring = SessionView::ListingMemez {
                    expr,
                    agent,
                    targets,
                    next,
                    stage: MemeStageView::ScoringContent { meme },
                    memez,
                    failure,
                };
                let content_call = score_call(MEMEZ_PATH@, target);
                assert(step(fetching, fetched) == (scoring, EffectView::Call(content_call)));
                if fuel > 1 {
                    let content = answer(oracle, world, content_call).1;
                    assert(whole == drive(
                        oracle,
                        world,
                        step(scoring, content),
                        (fuel - 2) as nat,
                    ));
                    match content {
                        HostReplyView::Record(Some(content_record)) => {
                            let content_score = header_of(content_record);
                            let asking = SessionView::ListingMemez {
                                expr,
                                agent,
                                targets,
                                next,
                                stage: MemeStageView::ScoringAgent { meme, content_score },
                                memez,
                                failure,
                            };
                            let agent_call = score_call(AGENT_PATH@, agent);
                            assert(step(scoring, content) == (
                                asking,
                                EffectView::Call(agent_call),
                            ));
                            if fuel > 2 {
                                let asked = answer(oracle, world, agent_call).1;
                                assert(whole == drive(
                                    oracle,
                                    world,
                                    step(asking, asked),
                                    (fuel - 3) as nat,
                                ));
                                match asked {
                                    HostReplyView::Record(Some(agent_record)) => {
                                        let agent_score = header_of(agent_record);
                                        let applying = SessionView::ListingMemez {
                                            expr,
                                            agent,
                                            targets,
                                            next,
                                            stage: MemeStageView::Applying { meme },
                                            memez,
                                            failure,
                                        };
                                        let apply_call = HostCallView::Apply {
                                            expr,
                                            content_score,
                                            agent_score,
                                        };
                                        assert(step(asking, asked) == (
                                            applying,
                                            EffectView::Call(apply_call),
                                        ));
                                        if fuel > 3 {
                                            let valued = answer(oracle, world, apply_call).1;
                                            assert(whole == drive(
                                                oracle,
                                                world,
                                                step(applying, valued),
                                                (fuel - 4) as nat,
                                            ));
                                            match valued {
                                                HostReplyView::Value(value) => {
                                                    let longer = memez.push(
                                                        (target, meme, score_of(value)),
                                                    );
                                                    assert(step(applying, valued) == list_memez(
                                                        expr,
                                                        agent,
                                                        targets,
                                                        next + 1,
                                                        longer,
                                                        failure,
                                                    ));
                                                    if failure is None {
                                                        assert(can_be_scored(
                                                            oracle,
                                                            world,
                                                            expr,
                                                            agent,
                                                            target,
                                                        ));
                                                        assert(lists_memes(
                                                            oracle,
                                                            world,
                                                            expr,
                                                            agent,
                                                            targets,
                                                            next + 1,
                                                            longer,
                                                        ));
                                                    }
                                                    lemma_listing_memez(
                                                        oracle,
                                                        world,
                                                        expr,
                                                        agent,
                                                        targets,
                                                        next + 1,
                                                        longer,
                                                        failure,
                                                        (fuel - 4) as nat,
                                                    );
                                                },
                                                _ => {
                                                    lemma_listing_memez(
                                                        oracle,
                                                        world,
                                                        expr,
                                                        agent,
                                                        targets,
                                                        next + 1,
                                                        memez,
                                                        Some(
                                                            crate::session::item_error(
                                                                false,
                                                                false,
                                                                valued,
                                                            ),
                                                        ),
                                                        (fuel - 4) as nat,
                                                    );
                                                },
                                            }
                                        }
                                    },
                                    _ => {
                                        lemma_listing_memez(
                                            oracle,
                                            world,
                                            expr,
                                            agent,
                                            targets,
                                            next + 1,
                                            memez,
                                            Some(crate::session::item_error(false, true, asked)),
                                            (fuel - 3) as nat,
                                        );
                                    },
                                }
                            }
                        },
                        _ => {
                            lemma_listing_memez(
                                oracle,
                                world,
                                expr,
                                agent,
                                targets,
                                next + 1,
                                memez,
                                Some(crate::session::item_error(false, true, content)),
                                (fuel - 2) as nat,
                            );
                        },
                    }
                }
            },
            _ => {
                lemma_listing_memez(
                    oracle,
                    world,
                    expr,
                    agent,
                    targets,
                    next + 1,
                    memez,
                    Some(crate::session::item_error(true, false, fetched)),
                    (fuel - 1) as nat,
                );
            },
        }
    }
}

/// A successful listing of memes, run against the reference host, returns
/// exactly the memes that are linked from the memes' anchor: one for each
/// link, in the order of the links, each with the content kept at its
/// address, and with the score that the expression gives for the meme's score
/// and the asking agent's. Given calls enough, the listing succeeds exactly
/// where every linked meme can be scored. The listing changes nothing.
pub proof fn law_listing_returns_the_linked_memes(
    oracle: Oracle,
    world: World,
    expr: Seq<char>,
    agent: Seq<u8>,
    fuel: nat,
)
    ensures
        ({
            let listed = drive(
                oracle,
                world,
                memez_listing(expr, agent),
                fuel,
            );
            let targets = targets_of(world.links, LinkBaseView::Anchor(MEME_ANCHOR@), MEME_TAG@);
            &&& listed.0 == world
            &&& listed.1 matches Some(Ok(response)) ==> {
                &&& response matches ResponseView::Memez(all)
                &&& lists_memes(oracle, world, expr, agent, targets, targets.len() as int, all)
            }
            &&& fuel > 4 * targets.len() ==> (listed.1 matches Some(Ok(_)) <==> all_scored_from(
                oracle,
                world,
                expr,
                agent,
                targets,
                0,
            ))
        }),
{
    if fuel > 0 {
        let targets = targets_of(world.links, LinkBaseView::Anchor(MEME_ANCHOR@), MEME_TAG@);
        lemma_listing_memez(
            oracle,
            world,
            expr,
            agent,
            targets,
            0,
            Seq::empty(),
            None,
            (fuel - 1) as nat,
        );
        let listed = drive(
            oracle,
            world,
            list_memez(expr, agent, targets, 0, Seq::empty(), None),
            (fuel - 1) as nat,
        );
        match listed.1 {
            Some(Ok(ResponseView::Memez(all))) => {
                assert forall|i: int| 0 <= i < targets.len() implies can_be_scored(
                    oracle,
                    world,
                    expr,
                    agent,
                    #[trigger] targets[i],
                ) by {
                    assert(all[i].0 == targets[i]);
                }
            },
            _ => {},
        }
    }
}

/// A link that was just made is the last that an enumeration gives.
proof fn lemma_new_link_is_listed(links: Seq<LinkView>, base: LinkBaseView, target: Seq<u8>, tag: Seq<char>)
    ensures
        targets_of(links.push(LinkView { base, target, tag }), base, tag) == targets_of(
            links,
            base,
            tag,
        ).push(target),
{
    let longer = links.push(LinkView { base, target, tag });
    assert(longer.drop_last() =~= links);
    assert(longer.last() == LinkView { base, target, tag });
}

/// The world once `content` was written at `entry` and linked from `base`
/// under `tag`.
pub open spec fn written_and_linked(
    world: World,
    entry: Seq<u8>,
    content: ContentView,
    base: LinkBaseView,
    tag: Seq<char>,
) -> World {
    World {
        entries: world.entries.insert(entry, content),
        links: world.links.push(LinkView { base, target: entry, tag }),
        writes: world.writes + 2,
        ..world
    }
}

/// Whether the cell can keep a score for the raw address `raw` under
/// `namespace`: one is kept already, or the namespace has an initial
/// expression.
pub open spec fn can_initialize(world: World, namespace: Seq<char>, raw: Seq<u8>) -> bool {
    score_record(world, namespace, raw) is Some || lookup(world, namespace, SmTag::Init) is Some
}

/// Whether the cell can apply `action` to the value kept under `path`: the
/// namespace has a transition expression, a value is kept under the path, and
/// the transition gives a value for the two.
pub open spec fn can_step(
    oracle: Oracle,
    world: World,
    namespace: Seq<char>,
    path: Seq<char>,
    action: Seq<char>,
) -> bool {
    &&& lookup(world, namespace, SmTag::Comp) is Some
    &&& lookup(world, path, SmTag::Data) is Some
    &&& (oracle.transition)(
        kept_expr(world, namespace, SmTag::Comp),
        kept_value(world, path, SmTag::Data),
        action,
    ) is Some
}

/// How an upload ends that wrote `entry` as the write number `writes`: with
/// the two addresses where the cell did its part, else with the cell's
/// refusal.
pub open spec fn upload_result(oracle: Oracle, writes: nat, entry: Seq<u8>, done: bool) -> Option<
    OutcomeView,
> {
    if done {
        Some(Ok(ResponseView::Written { entry, header: (oracle.header)(writes) }))
    } else {
        Some(Err(ZomeErrorView::Host(REFUSED@)))
    }
}

/// The world after the upload of a meme: the meme is written and linked, and
/// the cell was asked to keep a score for it.
pub open spec fn meme_uploaded(oracle: Oracle, world: World, meme: BlobView) -> World {
    let entry = (oracle.address)(ContentView::Meme(meme));
    initialize(
        oracle,
        written_and_linked(
            world,
            entry,
            ContentView::Meme(meme),
            LinkBaseView::Anchor(MEME_ANCHOR@),
            MEME_TAG@,
        ),
        MEMEZ_PATH@,
        address_path(MEMEZ_PATH@, entry),
    ).0
}

/// An upload of a meme, run against the reference host, returns after three
/// calls: it leaves the meme written and linked, and it succeeds exactly
/// where the cell can keep a score for the meme.
pub proof fn lemma_meme_upload_runs(oracle: Oracle, world: World, meme: BlobView)
    ensures
        drive(oracle, world, meme_upload(meme), 3) == (
            meme_uploaded(oracle, world, meme),
            upload_result(
                oracle,
                world.writes,
                (oracle.address)(ContentView::Meme(meme)),
                can_initialize(world, MEMEZ_PATH@, (oracle.address)(ContentView::Meme(meme))),
            ),
        ),
{
    let entry = (oracle.address)(ContentView::Meme(meme));
    let header = (oracle.header)(world.writes);
    let base = LinkBaseView::Anchor(MEME_ANCHOR@);
    let start = meme_upload(meme);
    let persisted = answer(oracle, world, HostCallView::Persist(ContentView::Meme(meme)));
    let linking = SessionView::Following { upload: UploadView::Meme, entry, header, step: 0 };
    let link_call = HostCallView::Link { base, target: entry, tag: MEME_TAG@ };
    assert(step(start.0, persisted.1) == (linking, EffectView::Call(link_call)));
    assert(drive(oracle, world, start, 3) == drive(
        oracle,
        persisted.0,
        (linking, EffectView::Call(link_call)),
        2,
    ));
    let linked = answer(oracle, persisted.0, link_call);
    assert(linked.0 == written_and_linked(world, entry, ContentView::Meme(meme), base, MEME_TAG@));
    let initializing = SessionView::Following { upload: UploadView::Meme, entry, header, step: 1 };
    let initialize_call = HostCallView::Sensemaker(
        RequestView::InitializeSmData { path: MEMEZ_PATH@, target: entry },
    );
    assert(step(linking, linked.1) == (initializing, EffectView::Call(initialize_call)));
    assert(drive(oracle, persisted.0, (linking, EffectView::Call(link_call)), 2) == drive(
        oracle,
        linked.0,
        (initializing, EffectView::Call(initialize_call)),
        1,
    ));
    let initialized = answer(oracle, linked.0, initialize_call);
    assert(drive(oracle, linked.0, (initializing, EffectView::Call(initialize_call)), 1) == drive(
        oracle,
        initialized.0,
        step(initializing, initialized.1),
        0,
    ));
}

/// Upload, then list, for memes. An upload run against the reference host
/// returns after three calls. It succeeds exactly where the cell can keep a
/// score for the meme: where the memes' namespace has an initial expression,
/// or a score is kept for the meme already. It then returns the meme's
/// address and a score is kept for the meme. Whether it succeeds or not, the
/// meme is kept and linked, with the name and payload it was uploaded with:
/// a failed upload is not undone. Every later listing that succeeds holds the
/// meme under its address.
pub proof fn law_uploaded_meme_is_listed(
    oracle: Oracle,
    world: World,
    meme: BlobView,
    expr: Seq<char>,
    agent: Seq<u8>,
    fuel: nat,
)
    ensures
        ({
            let entry = (oracle.address)(ContentView::Meme(meme));
            let uploaded = drive(oracle, world, meme_upload(meme), 3);
            let listed = drive(oracle, uploaded.0, memez_listing(expr, agent), fuel);
            &&& uploaded.1 matches Some(outcome)
            &&& outcome is Ok <==> can_initialize(world, MEMEZ_PATH@, entry)
            &&& outcome matches Ok(response) ==> {
                &&& response == (ResponseView::Written {
                    entry,
                    header: (oracle.header)(world.writes),
                })
                &&& score_record(uploaded.0, MEMEZ_PATH@, entry) is Some
            }
            &&& uploaded.0.entries.contains_key(entry)
            &&& uploaded.0.entries[entry] == ContentView::Meme(meme)
            &&& listed.1 matches Some(Ok(ResponseView::Memez(all))) ==> exists|i: int|
                0 <= i < all.len() && (#[trigger] all[i]).0 == entry && all[i].1 == meme
        }),
{
    let entry = (oracle.address)(ContentView::Meme(meme));
    let base = LinkBaseView::Anchor(MEME_ANCHOR@);
    lemma_meme_upload_runs(oracle, world, meme);
    let uploaded = drive(oracle, world, meme_upload(meme), 3);
    lemma_new_link_is_listed(world.links, base, entry, MEME_TAG@);
    law_listing_returns_the_linked_memes(oracle, uploaded.0, expr, agent, fuel);
    let targets = targets_of(uploaded.0.links, base, MEME_TAG@);
    assert(targets.last() == entry);
    let listed = drive(oracle, uploaded.0, memez_listing(expr, agent), fuel);
    match listed.1 {
        Some(Ok(ResponseView::Memez(all))) => {
            let last = targets.len() - 1;
            assert(all[last].0 == entry && all[last].1 == meme);
        },
        _ => {},
    }
}

/// Two memes, two scores. Where hashing gives two memes two addresses, their
/// uploads ask the cell to keep a score under two paths, and the second
/// upload leaves what the first has left as it was: the first meme, and the
/// score kept for it. After two uploads that succeed, a score is kept for
/// each of the two.
pub proof fn law_two_memes_have_two_scores(
    oracle: Oracle,
    world: World,
    first: BlobView,
    second: BlobView,
)
    requires
        (oracle.address)(ContentView::Meme(first)) != (oracle.address)(ContentView::Meme(second)),
    ensures
        ({
            let one = (oracle.address)(ContentView::Meme(first));
            let other = (oracle.address)(ContentView::Meme(second));
            let once = drive(oracle, world, meme_upload(first), 3);
            let twice = drive(oracle, once.0, meme_upload(second), 3);
            &&& address_path(MEMEZ_PATH@, one) != address_path(MEMEZ_PATH@, other)
            &&& score_record(twice.0, MEMEZ_PATH@, one) == score_record(once.0, MEMEZ_PATH@, one)
            &&& twice.0.entries.contains_key(one)
            &&& twice.0.entries[one] == ContentView::Meme(first)
            &&& has_succeeded(once.1) && has_succeeded(twice.1) ==> {
                &&& score_record(twice.0, MEMEZ_PATH@, one) is Some
                &&& score_record(twice.0, MEMEZ_PATH@, other) is Some
            }
        }),
{
    let one = (oracle.address)(ContentView::Meme(first));
    let other = (oracle.address)(ContentView::Meme(second));
    law_distinct_addresses_have_distinct_paths(MEMEZ_PATH@, one, MEMEZ_PATH@, other);
    lemma_meme_upload_runs(oracle, world, first);
    let once = drive(oracle, world, meme_upload(first), 3);
    lemma_meme_upload_runs(oracle, once.0, second);
}

/// The world after the upload of a paper: the paper is written and linked,
/// the cell was asked to keep a score for it, and where it does, to step the
/// uploader's score.
pub open spec fn paper_uploaded(
    oracle: Oracle,
    world: World,
    paper: BlobView,
    agent: Seq<char>,
) -> World {
    let entry = (oracle.address)(ContentView::Paper(paper));
    let initialized = paper_initialized(oracle, world, paper);
    if can_initialize(world, PAPERZ_PATH@, entry) {
        advance(oracle, initialized, AGENT_PATH@, composed(AGENT_PATH@, agent), STEP_ONE@).0
    } else {
        initialized
    }
}

/// The world in which the uploader's score is stepped: the paper is written
/// and linked, and the cell was asked to keep a score for it.
pub open spec fn paper_initialized(oracle: Oracle, world: World, paper: BlobView) -> World {
    let entry = (oracle.address)(ContentView::Paper(paper));
    initialize(
        oracle,
        written_and_linked(
            world,
            entry,
            ContentView::Paper(paper),
            LinkBaseView::Anchor(PAPER_ANCHOR@),
            PAPER_TAG@,
        ),
        PAPERZ_PATH@,
        address_path(PAPERZ_PATH@, entry),
    ).0
}

/// Whether an upload of `paper` by `agent` succeeds: the cell can keep a
/// score for the paper, and can then step the uploader's score by one.
pub open spec fn paper_upload_succeeds(
    oracle: Oracle,
    world: World,
    paper: BlobView,
    agent: Seq<char>,
) -> bool {
    &&& can_initialize(world, PAPERZ_PATH@, (oracle.address)(ContentView::Paper(paper)))
    &&& can_step(
        oracle,
        paper_initialized(oracle, world, paper),
        AGENT_PATH@,
        composed(AGENT_PATH@, agent),
        STEP_ONE@,
    )
}

/// An upload of a paper, run against the reference host, returns after four
/// calls at the latest: it leaves the paper written and linked, and it
/// succeeds exactly where the cell can keep a score for the paper and can
/// then step the uploader's score.
pub proof fn lemma_paper_upload_runs(
    oracle: Oracle,
    world: World,
    paper: BlobView,
    agent: Seq<char>,
)
    ensures
        drive(oracle, world, paper_upload(paper, agent), 4) == (
            paper_uploaded(oracle, world, paper, agent),
            upload_result(
                oracle,
                world.writes,
                (oracle.address)(ContentView::Paper(paper)),
                paper_upload_succeeds(oracle, world, paper, agent),
            ),
        ),
{
    let entry = (oracle.address)(ContentView::Paper(paper));
    let header = (oracle.header)(world.writes);
    let base = LinkBaseView::Anchor(PAPER_ANCHOR@);
    let upload = UploadView::Paper { agent };
    let start = paper_upload(paper, agent);
    let persisted = answer(oracle, world, HostCallView::Persist(ContentView::Paper(paper)));
    let linking = SessionView::Following { upload, entry, header, step: 0 };
    let link_call = HostCallView::Link { base, target: entry, tag: PAPER_TAG@ };
    assert(step(start.0, persisted.1) == (linking, EffectView::Call(link_call)));
    assert(drive(oracle, world, start, 4) == drive(
        oracle,
        persisted.0,
        (linking, EffectView::Call(link_call)),
        3,
    ));
    let linked = answer(oracle, persisted.0, link_call);
    assert(linked.0 == written_and_linked(world, entry, ContentView::Paper(paper), base, PAPER_TAG@));
    let initializing = SessionView::Following { upload, entry, header, step: 1 };
    let initialize_call = HostCallView::Sensemaker(
        RequestView::InitializeSmData { path: PAPERZ_PATH@, target: entry },
    );
    assert(step(linking, linked.1) == (initializing, EffectView::Call(initialize_call)));
    assert(drive(oracle, persisted.0, (linking, EffectView::Call(link_call)), 3) == drive(
        oracle,
        linked.0,
        (initializing, EffectView::Call(initialize_call)),
        2,
    ));
    let initialized = answer(oracle, linked.0, initialize_call);
    assert(initialized.0 == paper_initialized(oracle, world, paper));
    assert(drive(oracle, linked.0, (initializing, EffectView::Call(initialize_call)), 2)
        == drive(oracle, initialized.0, step(initializing, initialized.1), 1));
    let stepping = SessionView::Following { upload, entry, header, step: 2 };
    let step_call = HostCallView::Sensemaker(
        RequestView::StepSmPath { path: AGENT_PATH@, address: agent, action: STEP_ONE@ },
    );
    if initialized.1 is Acknowledged {
        assert(step(initializing, initialized.1) == (stepping, EffectView::Call(step_call)));
        let stepped = answer(oracle, initialized.0, step_call);
        assert(drive(oracle, initialized.0, (stepping, EffectView::Call(step_call)), 1) == drive(
            oracle,
            stepped.0,
            step(stepping, stepped.1),
            0,
        ));
    }
}

/// Upload, then list, for papers. An upload run against the reference host
/// returns after four calls at the latest. It succeeds exactly where the cell
/// can keep a score for the paper, because the papers' namespace has an
/// initial expression or a score is kept for the paper already, and can then
/// step the uploader's score. Where it succeeds it returns the paper's
/// address, and a score is kept for the paper under the papers' namespace.
/// Whether it succeeds or not, the paper is kept and linked, with the name
/// and payload it was uploaded with. Every later listing that succeeds holds
/// the paper under its address.
pub proof fn law_uploaded_paper_is_listed(
    oracle: Oracle,
    world: World,
    paper: BlobView,
    agent: Seq<char>,
    fuel: nat,
)
    ensures
        ({
            let entry = (oracle.address)(ContentView::Paper(paper));
            let uploaded = drive(oracle, world, paper_upload(paper, agent), 4);
            let listed = drive(oracle, uploaded.0, paperz_listing(), fuel);
            &&& uploaded.1 matches Some(outcome)
            &&& outcome is Ok <==> paper_upload_succeeds(oracle, world, paper, agent)
            &&& outcome matches Ok(response) ==> {
                &&& response == (ResponseView::Written {
                    entry,
                    header: (oracle.header)(world.writes),
                })
                &&& score_record(uploaded.0, PAPERZ_PATH@, entry) is Some
            }
            &&& uploaded.0.entries.contains_key(entry)
            &&& uploaded.0.entries[entry] == ContentView::Paper(paper)
            &&& listed.1 matches Some(Ok(ResponseView::Paperz(all))) ==> exists|i: int|
                0 <= i < all.len() && (#[trigger] all[i]).0 == entry && all[i].1 == paper
        }),
{
    let entry = (oracle.address)(ContentView::Paper(paper));
    let base = LinkBaseView::Anchor(PAPER_ANCHOR@);
    lemma_paper_upload_runs(oracle, world, paper, agent);
    let uploaded = drive(oracle, world, paper_upload(paper, agent), 4);
    lemma_new_link_is_listed(world.links, base, entry, PAPER_TAG@);
    law_listing_returns_the_linked_papers(oracle, uploaded.0, fuel);
    let targets = targets_of(uploaded.0.links, base, PAPER_TAG@);
    assert(targets.last() == entry);
    let listed = drive(oracle, uploaded.0, paperz_listing(), fuel);
    match listed.1 {
        Some(Ok(ResponseView::Paperz(all))) => {
            let last = targets.len() - 1;
            assert(all[last].0 == entry && all[last].1 == paper);
        },
        _ => {},
    }
}

/// Whether an annotation is kept at `target`.
pub open spec fn is_annotation_at(world: World, target: Seq<u8>) -> bool {
    world.entries.contains_key(target) && world.entries[target] is Annotation
}

/// The annotation kept at `target`.
pub open spec fn annotation_at(world: World, target: Seq<u8>) -> AnnotationView {
    match world.entries[target] {
        ContentView::Annotation(annotation) => annotation,
        _ => arbitrary(),
    }
}

/// The annotations kept at `targets` from the position `from` on, each with
/// its address, in the order of the targets. A target at which no annotation
/// is kept is passed over.
pub open spec fn annotations_kept(world: World, targets: Seq<Seq<u8>>, from: int) -> Seq<
    ListedAnnotationView,
>
    decreases targets.len() - from,
{
    if 0 <= from < targets.len() {
        if is_annotation_at(world, targets[from]) {
            seq![(targets[from], annotation_at(world, targets[from]))] + annotations_kept(
                world,
                targets,
                from + 1,
            )
        } else {
            annotations_kept(world, targets, from + 1)
        }
    } else {
        Seq::empty()
    }
}

/// A listing of annotations under way against the reference host returns
/// what it has listed so far, followed by the annotations kept at the targets
/// left, and nothing else; it returns once every target left was read, and
/// never fails.
proof fn lemma_listing_annotations(
    oracle: Oracle,
    world: World,
    targets: Seq<Seq<u8>>,
    next: int,
    annotations: Seq<ListedAnnotationView>,
    fuel: nat,
)
    requires
        0 <= next <= targets.len(),
    ensures
        ({
            let listed = drive(oracle, world, list_annotations(targets, next, annotations), fuel);
            &&& listed.0 == world
            &&& fuel >= targets.len() - next ==> listed.1 is Some
            &&& listed.1 matches Some(outcome) ==> outcome == Ok::<ResponseView, ZomeErrorView>(
                ResponseView::Annotations(annotations + annotations_kept(world, targets, next)),
            )
        }),
    decreases fuel,
{
    if next < targets.len() && fuel > 0 {
        let session = SessionView::ListingAnnotations { targets, next, annotations };
        let reply = answer(oracle, world, HostCallView::Fetch(targets[next])).1;
        match reply {
            HostReplyView::Fetched(ContentView::Annotation(annotation)) => {
                let longer = annotations.push((targets[next], annotation));
                assert(step(session, reply) == list_annotations(targets, next + 1, longer));
                lemma_listing_annotations(
                    oracle,
                    world,
                    targets,
                    next + 1,
                    longer,
                    (fuel - 1) as nat,
                );
                assert(longer + annotations_kept(world, targets, next + 1) =~= annotations
                    + annotations_kept(world, targets, next));
            },
            _ => {
                assert(step(session, reply) == list_annotations(targets, next + 1, annotations));
                lemma_listing_annotations(
                    oracle,
                    world,
                    targets,
                    next + 1,
                    annotations,
                    (fuel - 1) as nat,
                );
            },
        }
    } else if next >= targets.len() {
        assert(annotations + annotations_kept(world, targets, next) =~= annotations);
    }
}

/// A listing of the annotations of a paper, run against the reference host,
/// returns once it has made a call for the enumeration and one for each link
/// from the paper. It never fails and changes nothing. What it returns is
/// exactly the annotations that are kept at the targets of the paper's
/// links: one for each such target, in the order of the links, each with its
/// address, and nothing else.
pub proof fn law_listing_returns_the_linked_annotations(
    oracle: Oracle,
    world: World,
    paper: Seq<u8>,
    fuel: nat,
)
    ensures
        ({
            let listed = drive(oracle, world, annotations_listing(paper), fuel);
            let targets = targets_of(world.links, LinkBaseView::Entry(paper), ANN_TAG@);
            &&& listed.0 == world
            &&& fuel > targets.len() ==> listed.1 is Some
            &&& listed.1 matches Some(outcome) ==> outcome == Ok::<ResponseView, ZomeErrorView>(
                ResponseView::Annotations(annotations_kept(world, targets, 0)),
            )
        }),
{
    if fuel > 0 {
        let targets = targets_of(world.links, LinkBaseView::Entry(paper), ANN_TAG@);
        lemma_listing_annotations(oracle, world, targets, 0, Seq::empty(), (fuel - 1) as nat);
        assert(Seq::<ListedAnnotationView>::empty() + annotations_kept(world, targets, 0)
            =~= annotations_kept(world, targets, 0));
    }
}

/// Where an annotation is kept at the last target, the annotations kept end
/// with it.
proof fn lemma_last_annotation_is_kept(world: World, targets: Seq<Seq<u8>>, from: int)
    requires
        0 <= from < targets.len(),
        is_annotation_at(world, targets.last()),
    ensures
        annotations_kept(world, targets, from).len() > 0,
        annotations_kept(world, targets, from).last() == (
            targets.last(),
            annotation_at(world, targets.last()),
        ),
    decreases targets.len() - from,
{
    if from + 1 < targets.len() {
        lemma_last_annotation_is_kept(world, targets, from + 1);
    } else {
        assert(annotations_kept(world, targets, from + 1) =~= Seq::empty());
    }
}

/// The world after the writing of an annotation: the annotation is written,
/// linked from the annotations' anchor and from its paper, and the cell was
/// asked to keep a score for it.
pub open spec fn annotation_uploaded(oracle: Oracle, world: World, annotation: AnnotationView) -> World {
    let entry = (oracle.address)(ContentView::Annotation(annotation));
    let anchored = written_and_linked(
        world,
        entry,
        ContentView::Annotation(annotation),
        LinkBaseView::Anchor(ANN_TAG@),
        ANN_TAG@,
    );
    let linked = World {
        links: anchored.links.push(
            LinkView {
                base: LinkBaseView::Entry(annotation.paper_ref),
                target: entry,
                tag: ANN_TAG@,
            },
        ),
        writes: anchored.writes + 1,
        ..anchored
    };
    initialize(oracle, linked, ANNOTATIONZ_PATH@, address_path(ANNOTATIONZ_PATH@, entry)).0
}

/// The writing of an annotation, run against the reference host, returns
/// after four calls: it leaves the annotation written and linked twice, and
/// it succeeds exactly where the cell can keep a score for the annotation.
pub proof fn lemma_annotation_upload_runs(oracle: Oracle, world: World, annotation: AnnotationView)
    ensures
        drive(oracle, world, annotation_upload(annotation), 4) == (
            annotation_uploaded(oracle, world, annotation),
            upload_result(
                oracle,
                world.writes,
                (oracle.address)(ContentView::Annotation(annotation)),
                can_initialize(
                    world,
                    ANNOTATIONZ_PATH@,
                    (oracle.address)(ContentView::Annotation(annotation)),
                ),
            ),
        ),
{
    let entry = (oracle.address)(ContentView::Annotation(annotation));
    let header = (oracle.header)(world.writes);
    let anchor = LinkBaseView::Anchor(ANN_TAG@);
    let paper = LinkBaseView::Entry(annotation.paper_ref);
    let upload = UploadView::Annotation { paper_ref: annotation.paper_ref };
    let start = annotation_upload(annotation);
    let persisted = answer(
        oracle,
        world,
        HostCallView::Persist(ContentView::Annotation(annotation)),
    );
    let anchoring = SessionView::Following { upload, entry, header, step: 0 };
    let anchor_call = HostCallView::Link { base: anchor, target: entry, tag: ANN_TAG@ };
    assert(step(start.0, persisted.1) == (anchoring, EffectView::Call(anchor_call)));
    assert(drive(oracle, world, start, 4) == drive(
        oracle,
        persisted.0,
        (anchoring, EffectView::Call(anchor_call)),
        3,
    ));
    let anchored = answer(oracle, persisted.0, anchor_call);
    assert(anchored.0 == written_and_linked(
        world,
        entry,
        ContentView::Annotation(annotation),
        anchor,
        ANN_TAG@,
    ));
    let linking = SessionView::Following { upload, entry, header, step: 1 };
    let link_call = HostCallView::Link { base: paper, target: entry, tag: ANN_TAG@ };
    assert(step(anchoring, anchored.1) == (linking, EffectView::Call(link_call)));
    assert(drive(oracle, persisted.0, (anchoring, EffectView::Call(anchor_call)), 3) == drive(
        oracle,
        anchored.0,
        (linking, EffectView::Call(link_call)),
        2,
    ));
    let linked = answer(oracle, anchored.0, link_call);
    let initializing = SessionView::Following { upload, entry, header, step: 2 };
    let initialize_call = HostCallView::Sensemaker(
        RequestView::InitializeSmData { path: ANNOTATIONZ_PATH@, target: entry },
    );
    assert(step(linking, linked.1) == (initializing, EffectView::Call(initialize_call)));
    assert(drive(oracle, anchored.0, (linking, EffectView::Call(link_call)), 2) == drive(
        oracle,
        linked.0,
        (initializing, EffectView::Call(initialize_call)),
        1,
    ));
    let initialized = answer(oracle, linked.0, initialize_call);
    assert(drive(oracle, linked.0, (initializing, EffectView::Call(initialize_call)), 1)
        == drive(oracle, initialized.0, step(initializing, initialized.1), 0));
}

/// Write, then list, for annotations. The writing of an annotation, run
/// against the reference host, returns after four calls. It succeeds exactly
/// where the cell can keep a score for the annotation: where the
/// annotations' namespace has an initial expression, or a score is kept for
/// the annotation already. It then returns the annotation's address, and a
/// score is kept for the annotation. Whether it succeeds or not, the
/// annotation is kept and linked from its paper. Every later listing of the
/// paper's annotations that returns ends with the annotation under its
/// address, as it was written.
pub proof fn law_written_annotation_is_listed(
    oracle: Oracle,
    world: World,
    annotation: AnnotationView,
    fuel: nat,
)
    ensures
        ({
            let entry = (oracle.address)(ContentView::Annotation(annotation));
            let uploaded = drive(oracle, world, annotation_upload(annotation), 4);
            let listed = drive(
                oracle,
                uploaded.0,
                annotations_listing(annotation.paper_ref),
                fuel,
            );
            &&& uploaded.1 matches Some(outcome)
            &&& outcome is Ok <==> can_initialize(world, ANNOTATIONZ_PATH@, entry)
            &&& outcome matches Ok(response) ==> {
                &&& response == (ResponseView::Written {
                    entry,
                    header: (oracle.header)(world.writes),
                })
                &&& score_record(uploaded.0, ANNOTATIONZ_PATH@, entry) is Some
            }
            &&& uploaded.0.entries.contains_key(entry)
            &&& uploaded.0.entries[entry] == ContentView::Annotation(annotation)
            &&& listed.1 matches Some(response) ==> {
                &&& response matches Ok(ResponseView::Annotations(all))
                &&& all.len() > 0
                &&& all.last() == (entry, annotation)
            }
        }),
{
    let entry = (oracle.address)(ContentView::Annotation(annotation));
    let paper = LinkBaseView::Entry(annotation.paper_ref);
    lemma_annotation_upload_runs(oracle, world, annotation);
    let uploaded = drive(oracle, world, annotation_upload(annotation), 4);
    let anchored = written_and_linked(
        world,
        entry,
        ContentView::Annotation(annotation),
        LinkBaseView::Anchor(ANN_TAG@),
        ANN_TAG@,
    );
    lemma_new_link_is_listed(anchored.links, paper, entry, ANN_TAG@);
    law_listing_returns_the_linked_annotations(oracle, uploaded.0, annotation.paper_ref, fuel);
    let targets = targets_of(uploaded.0.links, paper, ANN_TAG@);
    assert(targets.last() == entry);
    assert(is_annotation_at(uploaded.0, targets.last()));
    lemma_last_annotation_is_kept(uploaded.0, targets, 0);
}

} // verus!
