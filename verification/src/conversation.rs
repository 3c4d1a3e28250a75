//! Whole conversations between an endpoint and its host, and what holds of
//! them whatever the host answers.

use crate::content::{AnnotationView, BlobView, ContentView, AGENT_PATH, ANNOTATIONZ_PATH, ANN_TAG,
    MEMEZ_PATH, MEME_ANCHOR, MEME_TAG, PAPERZ_PATH, PAPER_ANCHOR, PAPER_TAG};
use crate::host::{HostCallView, HostReplyView, LinkBaseView, RecordView};
use crate::memez::{meme_upload, memez_listing};
use crate::paperz::{annotation_upload, paper_upload, paperz_listing};
use crate::response::{EffectView, ListedPaperView, OutcomeView, ResponseView, ScoredMemeView,
    ZomeErrorView};
use crate::sensemaker::{score_of, FlatValue, RequestView};
use crate::session::{list_memez, list_paperz, settle, step, stop, Awaited, MemeStageView,
    SessionView, STEP_ONE};
use crate::zome::single_call;
use vstd::prelude::*;

verus! {

/// Where an endpoint stands after the host has given `replies`, one for each
/// call the endpoint made, in order. Replies past the endpoint's return are
/// not looked at.
pub open spec fn after(start: (SessionView, EffectView), replies: Seq<HostReplyView>) -> (
    SessionView,
    EffectView,
)
    decreases replies.len(),
{
    if replies.len() == 0 || start.1 is Return {
        start
    } else {
        after(step(start.0, replies[0]), replies.drop_first())
    }
}

/// Why an endpoint gives up on a reply that is not the success it asked
/// for: the host's failure, with its message as it came, or a reply that
/// answers another call.
pub open spec fn refusal(reply: HostReplyView) -> ZomeErrorView {
    match reply {
        HostReplyView::Failed(message) => ZomeErrorView::Host(message),
        _ => ZomeErrorView::UnexpectedReply,
    }
}

/// How an upload of a meme ends: with the two addresses that the write gave,
/// if the write, the link and the initialization of the meme's score succeed
/// in turn; else with the refusal of the first that does not.
pub open spec fn upload_outcome(replies: Seq<HostReplyView>) -> OutcomeView {
    match replies[0] {
        HostReplyView::Persisted { entry, header } => if !(replies[1] is Linked) {
            Err(refusal(replies[1]))
        } else if !(replies[2] is Acknowledged) {
            Err(refusal(replies[2]))
        } else {
            Ok(ResponseView::Written { entry, header })
        },
        _ => Err(refusal(replies[0])),
    }
}

/// How an upload of a paper ends: with the two addresses that the write
/// gave, if the write, the link, the initialization of the paper's score and
/// the step of the uploader's score succeed in turn; else with the refusal of
/// the first that does not.
pub open spec fn paper_outcome(replies: Seq<HostReplyView>) -> OutcomeView {
    match replies[0] {
        HostReplyView::Persisted { entry, header } => if !(replies[1] is Linked) {
            Err(refusal(replies[1]))
        } else if !(replies[2] is Acknowledged) {
            Err(refusal(replies[2]))
        } else if !(replies[3] is Acknowledged) {
            Err(refusal(replies[3]))
        } else {
            Ok(ResponseView::Written { entry, header })
        },
        _ => Err(refusal(replies[0])),
    }
}

/// How the writing of an annotation ends, which is linked twice.
pub open spec fn annotation_outcome(replies: Seq<HostReplyView>) -> OutcomeView {
    match replies[0] {
        HostReplyView::Persisted { entry, header } => if !(replies[1] is Linked) {
            Err(refusal(replies[1]))
        } else if !(replies[2] is Linked) {
            Err(refusal(replies[2]))
        } else if !(replies[3] is Acknowledged) {
            Err(refusal(replies[3]))
        } else {
            Ok(ResponseView::Written { entry, header })
        },
        _ => Err(refusal(replies[0])),
    }
}

/// An endpoint of one call returns on the first reply, with what that reply
/// becomes: the response asked for, the cell's failure with its message as
/// it came, or the refusal of a reply that answers another call.
pub proof fn law_single_call_returns(
    awaited: Awaited,
    request: RequestView,
    replies: Seq<HostReplyView>,
)
    requires
        replies.len() >= 1,
    ensures
        after(single_call(awaited, request), replies) == stop(settle(awaited, replies[0])),
{
    let start = single_call(awaited, request);
    assert(after(step(start.0, replies[0]), replies.drop_first()) == step(start.0, replies[0]));
}

/// An upload of a meme makes three calls: it writes the meme, links it from
/// the memes' anchor under the memes' tag, and has the sensemaker cell keep a
/// score for the meme's address under the memes' namespace. It returns on
/// the third reply at the latest: the two addresses that the write gave if
/// all three calls succeed, else the refusal of the first that does not, and
/// no call after that one.
pub proof fn law_meme_upload(meme: BlobView, replies: Seq<HostReplyView>)
    requires
        replies.len() >= 3,
    ensures
        after(meme_upload(meme), replies) == stop(upload_outcome(replies)),
        replies[0] matches HostReplyView::Persisted { entry, header } ==> {
            &&& after(meme_upload(meme), replies.take(1)).1 == EffectView::Call(
                HostCallView::Link {
                    base: LinkBaseView::Anchor(MEME_ANCHOR@),
                    target: entry,
                    tag: MEME_TAG@,
                },
            )
            &&& replies[1] is Linked ==> after(meme_upload(meme), replies.take(2)).1
                == EffectView::Call(
                HostCallView::Sensemaker(
                    RequestView::InitializeSmData { path: MEMEZ_PATH@, target: entry },
                ),
            )
        },
{
    lemma_three_replies(meme_upload(meme), replies);
}

/// An upload of a paper makes four calls: it writes the paper, links it from
/// the papers' anchor under the papers' tag, has the sensemaker cell keep a
/// score for the paper's address under the papers' namespace, and steps the
/// score of the uploading agent by one. It returns on the fourth reply at the
/// latest: the two addresses that the write gave if all four calls succeed,
/// else the refusal of the first that does not, and no call after that one.
pub proof fn law_paper_upload(paper: BlobView, agent: Seq<char>, replies: Seq<HostReplyView>)
    requires
        replies.len() >= 4,
    ensures
        after(paper_upload(paper, agent), replies) == stop(paper_outcome(replies)),
        replies[0] matches HostReplyView::Persisted { entry, header } ==> {
            &&& after(paper_upload(paper, agent), replies.take(1)).1 == EffectView::Call(
                HostCallView::Link {
                    base: LinkBaseView::Anchor(PAPER_ANCHOR@),
                    target: entry,
                    tag: PAPER_TAG@,
                },
            )
            &&& replies[1] is Linked ==> after(paper_upload(paper, agent), replies.take(2)).1
                == EffectView::Call(
                HostCallView::Sensemaker(
                    RequestView::InitializeSmData { path: PAPERZ_PATH@, target: entry },
                ),
            )
            &&& replies[1] is Linked && replies[2] is Acknowledged ==> after(
                paper_upload(paper, agent),
                replies.take(3),
            ).1 == EffectView::Call(
                HostCallView::Sensemaker(
                    RequestView::StepSmPath {
                        path: AGENT_PATH@,
                        address: agent,
                        action: STEP_ONE@,
                    },
                ),
            )
        },
{
    let start = paper_upload(paper, agent);
    lemma_three_replies(start, replies);
    lemma_after_one_more(start, replies, 3);
    lemma_after_whole(start, replies, 4);
}

/// The writing of an annotation makes four calls: it writes the entry, links
/// it from the annotations' anchor and from its paper, and has the
/// sensemaker cell keep a score for it under the annotations' namespace. It
/// returns on the fourth reply at the latest: the two addresses that the
/// write gave if all four calls succeed, else the refusal of the first that
/// does not.
pub proof fn law_annotation_upload(annotation: AnnotationView, replies: Seq<HostReplyView>)
    requires
        replies.len() >= 4,
    ensures
        after(annotation_upload(annotation), replies) == stop(annotation_outcome(replies)),
        replies[0] matches HostReplyView::Persisted { entry, header } ==> {
            &&& after(annotation_upload(annotation), replies.take(1)).1 == EffectView::Call(
                HostCallView::Link {
                    base: LinkBaseView::Anchor(ANN_TAG@),
                    target: entry,
                    tag: ANN_TAG@,
                },
            )
            &&& replies[1] is Linked ==> after(annotation_upload(annotation), replies.take(2)).1
                == EffectView::Call(
                HostCallView::Link {
                    base: LinkBaseView::Entry(annotation.paper_ref),
                    target: entry,
                    tag: ANN_TAG@,
                },
            )
            &&& replies[1] is Linked && replies[2] is Linked ==> after(
                annotation_upload(annotation),
                replies.take(3),
            ).1 == EffectView::Call(
                HostCallView::Sensemaker(
                    RequestView::InitializeSmData { path: ANNOTATIONZ_PATH@, target: entry },
                ),
            )
        },
{
    let start = annotation_upload(annotation);
    lemma_three_replies(start, replies);
    lemma_after_one_more(start, replies, 3);
    lemma_after_whole(start, replies, 4);
}

/// The first `count + 1` replies lead to where one more step leads from the
/// first `count`.
proof fn lemma_after_one_more(
    start: (SessionView, EffectView),
    replies: Seq<HostReplyView>,
    count: int,
)
    requires
        0 <= count < replies.len(),
    ensures
        after(start, replies.take(count + 1)) == ({
            let before = after(start, replies.take(count));
            if before.1 is Return {
                before
            } else {
                step(before.0, replies[count])
            }
        }),
    decreases count,
{
    let longer = replies.take(count + 1);
    let shorter = replies.take(count);
    if count == 0 {
        assert(longer.drop_first() =~= Seq::<HostReplyView>::empty());
        assert(after(step(start.0, longer[0]), longer.drop_first()) == step(start.0, longer[0]));
    } else if start.1 is Return {
    } else {
        let next = step(start.0, replies[0]);
        assert(longer.drop_first() =~= replies.drop_first().take(count));
        assert(shorter.drop_first() =~= replies.drop_first().take(count - 1));
        lemma_after_one_more(next, replies.drop_first(), count - 1);
    }
}

/// Once the endpoint has returned, further replies change nothing.
proof fn lemma_after_whole(start: (SessionView, EffectView), replies: Seq<HostReplyView>, count: int)
    requires
        0 <= count <= replies.len(),
        after(start, replies.take(count)).1 is Return,
    ensures
        after(start, replies) == after(start, replies.take(count)),
    decreases count,
{
    if start.1 is Return {
    } else if count == 0 {
    } else {
        let next = step(start.0, replies[0]);
        assert(replies.take(count).drop_first() =~= replies.drop_first().take(count - 1));
        lemma_after_whole(next, replies.drop_first(), count - 1);
    }
}

/// Where the first three replies lead, one step after the other.
proof fn lemma_three_replies(start: (SessionView, EffectView), replies: Seq<HostReplyView>)
    requires
        replies.len() >= 3,
        start.1 is Call,
    ensures
        after(start, replies.take(1)) == step(start.0, replies[0]),
        after(start, replies.take(2)) == ({
            let first = step(start.0, replies[0]);
            if first.1 is Return {
                first
            } else {
                step(first.0, replies[1])
            }
        }),
        after(start, replies.take(3)) == ({
            let second = after(start, replies.take(2));
            if second.1 is Return {
                second
            } else {
                step(second.0, replies[2])
            }
        }),
        after(start, replies.take(3)).1 is Return ==> after(start, replies) == after(
            start,
            replies.take(3),
        ),
{
    assert(replies.take(0) =~= Seq::<HostReplyView>::empty());
    lemma_after_one_more(start, replies, 0);
    lemma_after_one_more(start, replies, 1);
    lemma_after_one_more(start, replies, 2);
    if after(start, replies.take(3)).1 is Return {
        lemma_after_whole(start, replies, 3);
    }
}

/// Whether a listing that must not lose an item has lost one.
pub open spec fn has_lost_an_item(session: SessionView) -> bool {
    match session {
        SessionView::ListingMemez { failure, .. } => failure is Some,
        SessionView::ListingPaperz { failure, .. } => failure is Some,
        _ => false,
    }
}

/// Whether a listing of memes or papers is under way.
pub open spec fn is_listing(session: SessionView) -> bool {
    session is ListingMemez || session is ListingPaperz
}

/// Whether `reply` lets the listing keep the item in hand: the success that
/// the call under way asked for.
pub open spec fn keeps_item(session: SessionView, reply: HostReplyView) -> bool {
    match session {
        SessionView::ListingMemez { stage, .. } => match stage {
            MemeStageView::Fetching => reply matches HostReplyView::Fetched(ContentView::Meme(_)),
            MemeStageView::ScoringContent { .. } => reply matches HostReplyView::Record(Some(_)),
            MemeStageView::ScoringAgent { .. } => reply matches HostReplyView::Record(Some(_)),
            MemeStageView::Applying { .. } => reply is Value,
        },
        SessionView::ListingPaperz { .. } => reply matches HostReplyView::Fetched(
            ContentView::Paper(_),
        ),
        _ => false,
    }
}

/// Whether the item that a listing has in hand exists.
pub open spec fn has_item_in_hand(session: SessionView) -> bool {
    match session {
        SessionView::ListingMemez { targets, next, .. } => 0 <= next < targets.len(),
        SessionView::ListingPaperz { targets, next, .. } => 0 <= next < targets.len(),
        _ => false,
    }
}

/// Whether an endpoint failed as a listing does that has lost an item: with
/// an error of the zome's own.
pub open spec fn is_listing_failure(outcome: OutcomeView) -> bool {
    outcome matches Err(ZomeErrorView::Guest(_))
}

/// One reply to a listing that has lost an item: the listing goes on as one
/// that has lost an item, or it returns an error.
pub proof fn lemma_loss_is_kept(session: SessionView, reply: HostReplyView)
    requires
        has_lost_an_item(session),
    ensures
        match step(session, reply).1 {
            EffectView::Call(_) => has_lost_an_item(step(session, reply).0),
            EffectView::Return(outcome) => is_listing_failure(outcome),
        },
{
}

/// Any reply but the success asked for loses the item in hand.
pub proof fn lemma_failure_loses_the_item(session: SessionView, reply: HostReplyView)
    requires
        is_listing(session),
        has_item_in_hand(session),
        !keeps_item(session, reply),
    ensures
        match step(session, reply).1 {
            EffectView::Call(_) => has_lost_an_item(step(session, reply).0),
            EffectView::Return(outcome) => is_listing_failure(outcome),
        },
{
}

/// All or nothing: once a listing of memes or papers has lost an item, it
/// cannot return a list. Whatever the host answers from then on, and however
/// many of the other items are read, the endpoint returns an error if it
/// returns.
pub proof fn law_lost_item_fails_the_listing(
    session: SessionView,
    call: HostCallView,
    replies: Seq<HostReplyView>,
)
    requires
        has_lost_an_item(session),
    ensures
        match after((session, EffectView::Call(call)), replies).1 {
            EffectView::Call(_) => has_lost_an_item(
                after((session, EffectView::Call(call)), replies).0,
            ),
            EffectView::Return(outcome) => is_listing_failure(outcome),
        },
    decreases replies.len(),
{
    if replies.len() > 0 {
        let next = step(session, replies[0]);
        lemma_loss_is_kept(session, replies[0]);
        match next.1 {
            EffectView::Call(following) => {
                law_lost_item_fails_the_listing(next.0, following, replies.drop_first());
            },
            EffectView::Return(_) => {
                assert(after(next, replies.drop_first()) == next);
            },
        }
    }
}

/// All or nothing, from the failure on: where the host's first reply is not
/// the success that the listing asked for, the endpoint returns an error if
/// it returns, whatever the later replies are.
pub proof fn law_failed_item_fails_the_listing(
    session: SessionView,
    call: HostCallView,
    replies: Seq<HostReplyView>,
)
    requires
        is_listing(session),
        has_item_in_hand(session),
        replies.len() > 0,
        !keeps_item(session, replies[0]),
    ensures
        after((session, EffectView::Call(call)), replies).1 matches EffectView::Return(outcome)
            ==> is_listing_failure(outcome),
{
    let next = step(session, replies[0]);
    lemma_failure_loses_the_item(session, replies[0]);
    match next.1 {
        EffectView::Call(following) => {
            law_lost_item_fails_the_listing(next.0, following, replies.drop_first());
        },
        EffectView::Return(_) => {
            assert(after(next, replies.drop_first()) == next);
        },
    }
}

/// A listing of annotations cannot fail once the annotations are
/// enumerated: whatever the host answers when they are read, one by one, the
/// endpoint returns a list if it returns. An annotation that cannot be read is
/// left out of it.
pub proof fn law_annotations_are_listed_whatever_fails(
    session: SessionView,
    call: HostCallView,
    replies: Seq<HostReplyView>,
)
    requires
        session is ListingAnnotations,
    ensures
        match after((session, EffectView::Call(call)), replies).1 {
            EffectView::Call(_) => after(
                (session, EffectView::Call(call)),
                replies,
            ).0 is ListingAnnotations,
            EffectView::Return(outcome) => outcome is Ok,
        },
    decreases replies.len(),
{
    if replies.len() > 0 {
        let next = step(session, replies[0]);
        match next.1 {
            EffectView::Call(following) => {
                law_annotations_are_listed_whatever_fails(
                    next.0,
                    following,
                    replies.drop_first(),
                );
            },
            EffectView::Return(_) => {
                assert(after(next, replies.drop_first()) == next);
            },
        }
    }
}

/// Replies given in two parts lead to where the second part leads from
/// where the first part led.
pub proof fn lemma_after_both(
    start: (SessionView, EffectView),
    first: Seq<HostReplyView>,
    second: Seq<HostReplyView>,
)
    ensures
        after(start, first + second) == after(after(start, first), second),
    decreases first.len(),
{
    if first.len() == 0 {
        assert(first + second =~= second);
    } else if start.1 is Return {
    } else {
        assert((first + second).drop_first() =~= first.drop_first() + second);
        lemma_after_both(step(start.0, first[0]), first.drop_first(), second);
    }
}

/// The replies of a host that reads each of `papers` without fail, from the
/// position `from` on.
pub open spec fn papers_read(papers: Seq<BlobView>, from: int) -> Seq<HostReplyView>
    decreases papers.len() - from,
{
    if 0 <= from < papers.len() {
        seq![HostReplyView::Fetched(ContentView::Paper(papers[from]))] + papers_read(
            papers,
            from + 1,
        )
    } else {
        Seq::empty()
    }
}

/// The first `count` of `papers`, each with its address.
pub open spec fn papers_listed(targets: Seq<Seq<u8>>, papers: Seq<BlobView>, count: int) -> Seq<
    ListedPaperView,
> {
    Seq::new(count as nat, |i: int| (targets[i], papers[i]))
}

/// A listing of papers that has listed the papers before `next`, and reads
/// the rest without fail, returns them all.
proof fn lemma_papers_listed_from(targets: Seq<Seq<u8>>, papers: Seq<BlobView>, next: int)
    requires
        targets.len() == papers.len(),
        0 <= next <= papers.len(),
    ensures
        after(
            list_paperz(targets, next, papers_listed(targets, papers, next), None),
            papers_read(papers, next),
        ) == stop(
            Ok(ResponseView::Paperz(papers_listed(targets, papers, papers.len() as int))),
        ),
    decreases papers.len() - next,
{
    let listed = papers_listed(targets, papers, next);
    let at = list_paperz(targets, next, listed, None);
    if next < papers.len() {
        let replies = papers_read(papers, next);
        assert(replies.drop_first() =~= papers_read(papers, next + 1));
        assert(listed.push((targets[next], papers[next])) =~= papers_listed(
            targets,
            papers,
            next + 1,
        ));
        lemma_papers_listed_from(targets, papers, next + 1);
    }
}

/// A listing of papers whose host enumerates `targets` and reads a paper at
/// each returns the papers, one for each target, in the order of the targets,
/// each with its address.
pub proof fn law_papers_read_are_listed(targets: Seq<Seq<u8>>, papers: Seq<BlobView>)
    requires
        targets.len() == papers.len(),
    ensures
        after(
            paperz_listing(),
            seq![HostReplyView::Targets(targets)] + papers_read(papers, 0),
        ) == stop(
            Ok(ResponseView::Paperz(papers_listed(targets, papers, papers.len() as int))),
        ),
{
    let enumerated = seq![HostReplyView::Targets(targets)];
    lemma_after_both(paperz_listing(), enumerated, papers_read(papers, 0));
    assert(enumerated.drop_first() =~= Seq::<HostReplyView>::empty());
    assert(after(paperz_listing(), enumerated) == list_paperz(targets, 0, Seq::empty(), None))
        by {
        let first = step(paperz_listing().0, enumerated[0]);
        assert(after(first, enumerated.drop_first()) == first);
    }
    assert(papers_listed(targets, papers, 0) =~= Seq::<ListedPaperView>::empty());
    lemma_papers_listed_from(targets, papers, 0);
}

/// What a host answers about one meme that it reads and scores without
/// fail.
pub struct ScoredMeme {
    /// The meme kept at the target.
    pub meme: BlobView,
    /// The record of the meme's score.
    pub content_score: RecordView,
    /// The record of the asking agent's score.
    pub agent_score: RecordView,
    /// What the expression gives for the two scores.
    pub value: FlatValue,
}

/// The replies of a host that reads and scores each of `memes` without
/// fail, from the position `from` on: four for each meme.
pub open spec fn memes_scored(memes: Seq<ScoredMeme>, from: int) -> Seq<HostReplyView>
    decreases memes.len() - from,
{
    if 0 <= from < memes.len() {
        seq![
            HostReplyView::Fetched(ContentView::Meme(memes[from].meme)),
            HostReplyView::Record(Some(memes[from].content_score)),
            HostReplyView::Record(Some(memes[from].agent_score)),
            HostReplyView::Value(memes[from].value),
        ] + memes_scored(memes, from + 1)
    } else {
        Seq::empty()
    }
}

/// The first `count` of `memes`, each with its address and its score.
pub open spec fn memes_listed(targets: Seq<Seq<u8>>, memes: Seq<ScoredMeme>, count: int) -> Seq<
    ScoredMemeView,
> {
    Seq::new(count as nat, |i: int| (targets[i], memes[i].meme, score_of(memes[i].value)))
}

/// A listing of memes that has listed the memes before `next`, and reads
/// and scores the rest without fail, returns them all.
proof fn lemma_memes_listed_from(
    expr: Seq<char>,
    agent: Seq<u8>,
    targets: Seq<Seq<u8>>,
    memes: Seq<ScoredMeme>,
    next: int,
)
    requires
        targets.len() == memes.len(),
        0 <= next <= memes.len(),
    ensures
        after(
            list_memez(expr, agent, targets, next, memes_listed(targets, memes, next), None),
            memes_scored(memes, next),
        ) == stop(Ok(ResponseView::Memez(memes_listed(targets, memes, memes.len() as int)))),
    decreases memes.len() - next,
{
    let listed = memes_listed(targets, memes, next);
    let at = list_memez(expr, agent, targets, next, listed, None);
    if next < memes.len() {
        let item = memes[next];
        let replies = memes_scored(memes, next);
        let rest = memes_scored(memes, next + 1);
        let four = seq![
            HostReplyView::Fetched(ContentView::Meme(item.meme)),
            HostReplyView::Record(Some(item.content_score)),
            HostReplyView::Record(Some(item.agent_score)),
            HostReplyView::Value(item.value),
        ];
        assert(replies == four + rest);
        lemma_after_both(at, four, rest);
        assert(four.take(0) =~= Seq::<HostReplyView>::empty());
        assert(four.take(4) =~= four);
        lemma_after_one_more(at, four, 0);
        lemma_after_one_more(at, four, 1);
        lemma_after_one_more(at, four, 2);
        lemma_after_one_more(at, four, 3);
        assert(listed.push((targets[next], item.meme, score_of(item.value))) =~= memes_listed(
            targets,
            memes,
            next + 1,
        ));
        assert(after(at, four) == list_memez(
            expr,
            agent,
            targets,
            next + 1,
            memes_listed(targets, memes, next + 1),
            None,
        ));
        lemma_memes_listed_from(expr, agent, targets, memes, next + 1);
    }
}

/// A listing of memes whose host enumerates `targets`, and reads and scores
/// a meme at each, returns the memes, one for each target, in the order of
/// the targets, each with its address and with the integer that the
/// expression gave for it, or zero where it gave no integer.
pub proof fn law_memes_scored_are_listed(
    expr: Seq<char>,
    agent: Seq<u8>,
    targets: Seq<Seq<u8>>,
    memes: Seq<ScoredMeme>,
)
    requires
        targets.len() == memes.len(),
    ensures
        after(
            memez_listing(expr, agent),
            seq![HostReplyView::Targets(targets)] + memes_scored(memes, 0),
        ) == stop(Ok(ResponseView::Memez(memes_listed(targets, memes, memes.len() as int)))),
{
    let start = memez_listing(expr, agent);
    let enumerated = seq![HostReplyView::Targets(targets)];
    lemma_after_both(start, enumerated, memes_scored(memes, 0));
    assert(enumerated.drop_first() =~= Seq::<HostReplyView>::empty());
    assert(after(start, enumerated) == list_memez(expr, agent, targets, 0, Seq::empty(), None))
        by {
        let first = step(start.0, enumerated[0]);
        assert(after(first, enumerated.drop_first()) == first);
    }
    assert(memes_listed(targets, memes, 0) =~= Seq::<ScoredMemeView>::empty());
    lemma_memes_listed_from(expr, agent, targets, memes, 0);
}

/// How many replies an endpoint takes at most before it returns, counted
/// from a state in which no enumeration is under way.
pub open spec fn replies_left(session: SessionView) -> int {
    match session {
        SessionView::Persisting(_) => 4,
        SessionView::Following { step, .. } => if 0 <= step <= 2 {
            3 - step
        } else {
            1
        },
        SessionView::ListingMemez { targets, next, stage, .. } => if 0 <= next < targets.len() {
            4 * (targets.len() - next) - match stage {
                MemeStageView::Fetching => 0int,
                MemeStageView::ScoringContent { .. } => 1,
                MemeStageView::ScoringAgent { .. } => 2,
                MemeStageView::Applying { .. } => 3,
            }
        } else {
            1
        },
        SessionView::ListingPaperz { targets, next, .. } => if 0 <= next < targets.len() {
            targets.len() - next
        } else {
            1
        },
        SessionView::ListingAnnotations { targets, next, .. } => if 0 <= next < targets.len() {
            targets.len() - next
        } else {
            1
        },
        _ => 1,
    }
}

/// How many replies an endpoint takes at most before it returns, given the
/// reply that comes first: an enumeration is followed by four calls for each
/// meme, and by one for each paper or annotation.
pub open spec fn replies_needed(session: SessionView, first: HostReplyView) -> int {
    match (session, first) {
        (SessionView::EnumeratingMemez { .. }, HostReplyView::Targets(targets)) => 1 + 4 * (
        targets.len() as int),
        (SessionView::EnumeratingPaperz, HostReplyView::Targets(targets)) => 1 + (
        targets.len() as int),
        (SessionView::EnumeratingAnnotations, HostReplyView::Targets(targets)) => 1 + (
        targets.len() as int),
        _ => replies_left(session),
    }
}

/// One reply brings an endpoint nearer to its return.
proof fn lemma_step_makes_progress(session: SessionView, reply: HostReplyView)
    ensures
        replies_needed(session, reply) >= 1,
        step(session, reply).1 is Call ==> 1 <= replies_left(step(session, reply).0)
            < replies_needed(session, reply),
        step(session, reply).1 is Call ==> !(step(session, reply).0 is EnumeratingMemez) && !(step(
            session,
            reply,
        ).0 is EnumeratingPaperz) && !(step(session, reply).0 is EnumeratingAnnotations),
{
}

/// Every endpoint returns: whatever the host answers, an endpoint makes no
/// more calls than `replies_needed` says.
pub proof fn law_every_endpoint_returns(
    session: SessionView,
    call: HostCallView,
    replies: Seq<HostReplyView>,
)
    requires
        replies.len() >= 1,
        replies.len() >= replies_needed(session, replies[0]),
    ensures
        after((session, EffectView::Call(call)), replies).1 is Return,
    decreases replies.len(),
{
    let next = step(session, replies[0]);
    lemma_step_makes_progress(session, replies[0]);
    match next.1 {
        EffectView::Call(following) => {
            let rest = replies.drop_first();
            assert(replies_needed(next.0, rest[0]) == replies_left(next.0));
            law_every_endpoint_returns(next.0, following, rest);
        },
        EffectView::Return(_) => {
            assert(after(next, replies.drop_first()) == next);
        },
    }
}

} // verus!
