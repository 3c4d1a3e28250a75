//! A zome endpoint in progress. An endpoint is a short conversation with the
//! host: it names a call, takes the reply, names the next call, and in the end
//! returns. `Session` is what it remembers between two calls, and `step` says
//! what each reply leads to.

use crate::content::{Annotation, BlobView, Content, ContentView, Meme, Paper, AGENT_PATH,
    ANNOTATIONZ_PATH, ANN_TAG, MEMEZ_PATH, MEME_ANCHOR, MEME_TAG, PAPERZ_PATH, PAPER_ANCHOR,
    PAPER_TAG};
use crate::hash::{AgentPubKey, EntryHash, HeaderHash};
use crate::host::{record_view, targets_view, HostCall, HostCallView, HostReply, HostReplyView,
    LinkBase, LinkBaseView, RecordView};
use crate::path::{address_path, compose_agent_path, compose_entry_hash_path};
use crate::response::{annotations_view, listing_error, memez_view, outcome_view, paperz_view,
    Effect, EffectView, ListedAnnotationView, ListedPaperView, OutcomeView, Response,
    ResponseView, ScoredMemeView, ZomeError, ZomeErrorView};
use crate::sensemaker::{feed_score, int_of, int_value, score_of, RequestView, SensemakerEntry,
    SensemakerRequest, SmTag};
use vstd::prelude::*;

verus! {

/// The action that counts one more upload or clap.
pub const STEP_ONE: &'static str = "1";

/// The name under which a failed listing of memes reports.
pub const GET_ALL_MEMEZ: &'static str = "get_all_memez";

/// The name under which a failed listing of papers reports.
pub const GET_ALL_PAPERZ: &'static str = "get_all_paperz";

/// Which kind of entry an upload writes, with what its follow-up calls need.
pub enum UploadView {
    Meme,
    /// A paper, uploaded by the agent with this address.
    Paper { agent: Seq<char> },
    /// An annotation of the paper at this address.
    Annotation { paper_ref: Seq<u8> },
}

/// What the reply to a single call of the sensemaker cell becomes.
#[derive(Clone, Copy, Debug, PartialEq, Eq, Structural)]
pub enum Awaited {
    /// The entry, as it came.
    Entry,
    /// The entry with the address of its record, as it came.
    Record,
    /// `true`, once the cell has acknowledged.
    Flag,
    /// Nothing, once the cell has acknowledged.
    Unit,
    /// The integer that the entry's value holds.
    ClapCount,
}

/// How far the listing of one meme has come.
pub enum MemeStageView {
    /// The meme is being read.
    Fetching,
    /// The meme's score is being read.
    ScoringContent { meme: BlobView },
    /// The asking agent's score is being read.
    ScoringAgent { meme: BlobView, content_score: Seq<u8> },
    /// The scoring expression is being applied to the two scores.
    Applying { meme: BlobView },
}

/// The state of an endpoint between two calls, as a value.
pub enum SessionView {
    /// The endpoint has returned.
    Finished,
    /// An entry is being written.
    Persisting(UploadView),
    /// The entry is written, and the follow-up call number `step` is under
    /// way.
    Following { upload: UploadView, entry: Seq<u8>, header: Seq<u8>, step: int },
    /// A single call of the sensemaker cell is under way.
    Awaiting(Awaited),
    /// The memes are being enumerated.
    EnumeratingMemez { expr: Seq<char>, agent: Seq<u8> },
    /// The papers are being enumerated.
    EnumeratingPaperz,
    /// The annotations of a paper are being enumerated.
    EnumeratingAnnotations,
    /// The meme at `targets[next]` is being read and scored.
    ListingMemez {
        expr: Seq<char>,
        agent: Seq<u8>,
        targets: Seq<Seq<u8>>,
        next: int,
        stage: MemeStageView,
        memez: Seq<ScoredMemeView>,
        failure: Option<ZomeErrorView>,
    },
    /// The paper at `targets[next]` is being read.
    ListingPaperz {
        targets: Seq<Seq<u8>>,
        next: int,
        paperz: Seq<ListedPaperView>,
        failure: Option<ZomeErrorView>,
    },
    /// The annotation at `targets[next]` is being read.
    ListingAnnotations {
        targets: Seq<Seq<u8>>,
        next: int,
        annotations: Seq<ListedAnnotationView>,
    },
}

/// The endpoint returns `outcome`.
pub open spec fn stop(outcome: OutcomeView) -> (SessionView, EffectView) {
    (SessionView::Finished, EffectView::Return(outcome))
}

/// The call that reads the value kept for the raw address `raw` under
/// `namespace`, with the address of its record.
pub open spec fn score_call(namespace: Seq<char>, raw: Seq<u8>) -> HostCallView {
    HostCallView::Sensemaker(
        RequestView::GetEntryByPathWithHh { path: address_path(namespace, raw), tag: SmTag::Data },
    )
}

/// The follow-up call number `step` of an upload that wrote `entry`: first
/// the links that make the entry findable, then the call that has the
/// sensemaker cell keep a score for the entry under the namespace of its
/// kind, and for a paper the step of its uploader's score. `None` once all
/// are made.
pub open spec fn follow_up(upload: UploadView, entry: Seq<u8>, step: int) -> Option<HostCallView> {
    match upload {
        UploadView::Meme => if step == 0 {
            Some(
                HostCallView::Link {
                    base: LinkBaseView::Anchor(MEME_ANCHOR@),
                    target: entry,
                    tag: MEME_TAG@,
                },
            )
        } else if step == 1 {
            Some(
                HostCallView::Sensemaker(
                    RequestView::InitializeSmData { path: MEMEZ_PATH@, target: entry },
                ),
            )
        } else {
            None
        },
        UploadView::Paper { agent } => if step == 0 {
            Some(
                HostCallView::Link {
                    base: LinkBaseView::Anchor(PAPER_ANCHOR@),
                    target: entry,
                    tag: PAPER_TAG@,
                },
            )
        } else if step == 1 {
            Some(
                HostCallView::Sensemaker(
                    RequestView::InitializeSmData { path: PAPERZ_PATH@, target: entry },
                ),
            )
        } else if step == 2 {
            Some(
                HostCallView::Sensemaker(
                    RequestView::StepSmPath { path: AGENT_PATH@, address: agent, action: STEP_ONE@ },
                ),
            )
        } else {
            None
        },
        UploadView::Annotation { paper_ref } => if step == 0 {
            Some(
                HostCallView::Link {
                    base: LinkBaseView::Anchor(ANN_TAG@),
                    target: entry,
                    tag: ANN_TAG@,
                },
            )
        } else if step == 1 {
            Some(
                HostCallView::Link {
                    base: LinkBaseView::Entry(paper_ref),
                    target: entry,
                    tag: ANN_TAG@,
                },
            )
        } else if step == 2 {
            Some(
                HostCallView::Sensemaker(
                    RequestView::InitializeSmData { path: ANNOTATIONZ_PATH@, target: entry },
                ),
            )
        } else {
            None
        },
    }
}

/// Whether `reply` is the host's success in answer to the follow-up `call`.
pub open spec fn confirms(call: HostCallView, reply: HostReplyView) -> bool {
    match call {
        HostCallView::Link { .. } => reply is Linked,
        HostCallView::Sensemaker(_) => reply is Acknowledged,
        _ => false,
    }
}

/// An upload goes on with its follow-up call number `step`, or returns the
/// two addresses once none is left.
pub open spec fn follow(upload: UploadView, entry: Seq<u8>, header: Seq<u8>, step: int) -> (
    SessionView,
    EffectView,
) {
    match follow_up(upload, entry, step) {
        Some(call) => (
            SessionView::Following { upload, entry, header, step },
            EffectView::Call(call),
        ),
        None => stop(Ok(ResponseView::Written { entry, header })),
    }
}

/// What the reply to a single call of the sensemaker cell becomes.
pub open spec fn settle(awaited: Awaited, reply: HostReplyView) -> OutcomeView {
    match reply {
        HostReplyView::Failed(message) => Err(ZomeErrorView::Host(message)),
        HostReplyView::Entry(found) => if awaited == Awaited::Entry {
            Ok(ResponseView::Entry(found))
        } else {
            Err(ZomeErrorView::UnexpectedReply)
        },
        HostReplyView::Record(found) => if awaited == Awaited::Record {
            Ok(ResponseView::Record(found))
        } else if awaited == Awaited::ClapCount {
            Ok(ResponseView::ClapCount(clap_count(found)))
        } else {
            Err(ZomeErrorView::UnexpectedReply)
        },
        HostReplyView::Acknowledged => if awaited == Awaited::Flag {
            Ok(ResponseView::Flag(true))
        } else if awaited == Awaited::Unit {
            Ok(ResponseView::Unit)
        } else {
            Err(ZomeErrorView::UnexpectedReply)
        },
        _ => Err(ZomeErrorView::UnexpectedReply),
    }
}

/// The claps counted for a meme: the integer that its value holds. `None`
/// where nothing is kept for the meme, or where its value is no integer.
pub open spec fn clap_count(found: Option<RecordView>) -> Option<i64> {
    match found {
        Some(record) => int_of(record.2.output_flat_value),
        None => None,
    }
}

/// Why the item in hand is lost, given the reply that was no success.
pub open spec fn item_error(fetching: bool, scoring: bool, reply: HostReplyView) -> ZomeErrorView {
    match reply {
        HostReplyView::Failed(message) => ZomeErrorView::Host(message),
        HostReplyView::Fetched(_) => if fetching {
            ZomeErrorView::WrongContent
        } else {
            ZomeErrorView::UnexpectedReply
        },
        HostReplyView::Record(None) => if scoring {
            ZomeErrorView::MissingScore
        } else {
            ZomeErrorView::UnexpectedReply
        },
        _ => ZomeErrorView::UnexpectedReply,
    }
}

/// A listing that must not lose an item ends: with every item if none was
/// lost, else with the last failure under the endpoint's name, and no item.
pub open spec fn all_or_nothing(
    endpoint: Seq<char>,
    items: ResponseView,
    failure: Option<ZomeErrorView>,
) -> OutcomeView {
    match failure {
        None => Ok(items),
        Some(cause) => Err(listing_error(endpoint, cause)),
    }
}

/// The listing of memes turns to the item at `next`, or ends after the last.
pub open spec fn list_memez(
    expr: Seq<char>,
    agent: Seq<u8>,
    targets: Seq<Seq<u8>>,
    next: int,
    memez: Seq<ScoredMemeView>,
    failure: Option<ZomeErrorView>,
) -> (SessionView, EffectView) {
    if 0 <= next < targets.len() {
        (
            SessionView::ListingMemez {
                expr,
                agent,
                targets,
                next,
                stage: MemeStageView::Fetching,
                memez,
                failure,
            },
            EffectView::Call(HostCallView::Fetch(targets[next])),
        )
    } else {
        stop(all_or_nothing(GET_ALL_MEMEZ@, ResponseView::Memez(memez), failure))
    }
}

/// The listing of papers turns to the item at `next`, or ends after the last.
pub open spec fn list_paperz(
    targets: Seq<Seq<u8>>,
    next: int,
    paperz: Seq<ListedPaperView>,
    failure: Option<ZomeErrorView>,
) -> (SessionView, EffectView) {
    if 0 <= next < targets.len() {
        (
            SessionView::ListingPaperz { targets, next, paperz, failure },
            EffectView::Call(HostCallView::Fetch(targets[next])),
        )
    } else {
        stop(all_or_nothing(GET_ALL_PAPERZ@, ResponseView::Paperz(paperz), failure))
    }
}

/// The listing of annotations turns to the item at `next`, or ends after the
/// last with what it has.
pub open spec fn list_annotations(
    targets: Seq<Seq<u8>>,
    next: int,
    annotations: Seq<ListedAnnotationView>,
) -> (SessionView, EffectView) {
    if 0 <= next < targets.len() {
        (
            SessionView::ListingAnnotations { targets, next, annotations },
            EffectView::Call(HostCallView::Fetch(targets[next])),
        )
    } else {
        stop(Ok(ResponseView::Annotations(annotations)))
    }
}

/// What the reply leads to while the meme at `targets[next]` is read and
/// scored. A success leads to the item's next call, and the last of them to
/// the item's place in the list. Anything else loses the item: the failure is
/// kept and the listing turns to the next item.
pub open spec fn step_memez(
    expr: Seq<char>,
    agent: Seq<u8>,
    targets: Seq<Seq<u8>>,
    next: int,
    stage: MemeStageView,
    memez: Seq<ScoredMemeView>,
    failure: Option<ZomeErrorView>,
    reply: HostReplyView,
) -> (SessionView, EffectView) {
    if !(0 <= next < targets.len()) {
        list_memez(expr, agent, targets, next, memez, failure)
    } else {
        match (stage, reply) {
            (MemeStageView::Fetching, HostReplyView::Fetched(ContentView::Meme(meme))) => (
                SessionView::ListingMemez {
                    expr,
                    agent,
                    targets,
                    next,
                    stage: MemeStageView::ScoringContent { meme },
                    memez,
                    failure,
                },
                EffectView::Call(score_call(MEMEZ_PATH@, targets[next])),
            ),
            (
                MemeStageView::ScoringContent { meme },
                HostReplyView::Record(Some(record)),
            ) => (
                SessionView::ListingMemez {
                    expr,
                    agent,
                    targets,
                    next,
                    stage: MemeStageView::ScoringAgent { meme, content_score: record.1 },
                    memez,
                    failure,
                },
                EffectView::Call(score_call(AGENT_PATH@, agent)),
            ),
            (
                MemeStageView::ScoringAgent { meme, content_score },
                HostReplyView::Record(Some(record)),
            ) => (
                SessionView::ListingMemez {
                    expr,
                    agent,
                    targets,
                    next,
                    stage: MemeStageView::Applying { meme },
                    memez,
                    failure,
                },
                EffectView::Call(
                    HostCallView::Apply { expr, content_score, agent_score: record.1 },
                ),
            ),
            (MemeStageView::Applying { meme }, HostReplyView::Value(value)) => list_memez(
                expr,
                agent,
                targets,
                next + 1,
                memez.push((targets[next], meme, score_of(value))),
                failure,
            ),
            _ => list_memez(
                expr,
                agent,
                targets,
                next + 1,
                memez,
                Some(
                    item_error(
                        stage is Fetching,
                        stage is ScoringContent || stage is ScoringAgent,
                        reply,
                    ),
                ),
            ),
        }
    }
}

/// What the reply leads to while the paper at `targets[next]` is read.
pub open spec fn step_paperz(
    targets: Seq<Seq<u8>>,
    next: int,
    paperz: Seq<ListedPaperView>,
    failure: Option<ZomeErrorView>,
    reply: HostReplyView,
) -> (SessionView, EffectView) {
    if !(0 <= next < targets.len()) {
        list_paperz(targets, next, paperz, failure)
    } else {
        match reply {
            HostReplyView::Fetched(ContentView::Paper(paper)) => list_paperz(
                targets,
                next + 1,
                paperz.push((targets[next], paper)),
                failure,
            ),
            _ => list_paperz(targets, next + 1, paperz, Some(item_error(true, false, reply))),
        }
    }
}

/// What the reply leads to while the annotation at `targets[next]` is read.
/// An annotation that cannot be read is left out, and the listing goes on.
pub open spec fn step_annotations(
    targets: Seq<Seq<u8>>,
    next: int,
    annotations: Seq<ListedAnnotationView>,
    reply: HostReplyView,
) -> (SessionView, EffectView) {
    if !(0 <= next < targets.len()) {
        list_annotations(targets, next, annotations)
    } else {
        match reply {
            HostReplyView::Fetched(ContentView::Annotation(annotation)) => list_annotations(
                targets,
                next + 1,
                annotations.push((targets[next], annotation)),
            ),
            _ => list_annotations(targets, next + 1, annotations),
        }
    }
}

/// What a reply leads to: the next state of the endpoint, and the call it
/// makes next or the result it returns.
pub open spec fn step(session: SessionView, reply: HostReplyView) -> (SessionView, EffectView) {
    match session {
        SessionView::Finished => stop(Err(ZomeErrorView::UnexpectedReply)),
        SessionView::Persisting(upload) => match reply {
            HostReplyView::Persisted { entry, header } => follow(upload, entry, header, 0),
            HostReplyView::Failed(message) => stop(Err(ZomeErrorView::Host(message))),
            _ => stop(Err(ZomeErrorView::UnexpectedReply)),
        },
        SessionView::Following { upload, entry, header, step } => match reply {
            HostReplyView::Failed(message) => stop(Err(ZomeErrorView::Host(message))),
            _ => match follow_up(upload, entry, step) {
                Some(call) => if confirms(call, reply) {
                    follow(upload, entry, header, step + 1)
                } else {
                    stop(Err(ZomeErrorView::UnexpectedReply))
                },
                None => stop(Err(ZomeErrorView::UnexpectedReply)),
            },
        },
        SessionView::Awaiting(awaited) => stop(settle(awaited, reply)),
        SessionView::EnumeratingMemez { expr, agent } => match reply {
            HostReplyView::Targets(targets) => list_memez(
                expr,
                agent,
                targets,
                0,
                Seq::empty(),
                None,
            ),
            HostReplyView::Failed(message) => stop(Err(ZomeErrorView::Host(message))),
            _ => stop(Err(ZomeErrorView::UnexpectedReply)),
        },
        SessionView::EnumeratingPaperz => match reply {
            HostReplyView::Targets(targets) => list_paperz(targets, 0, Seq::empty(), None),
            HostReplyView::Failed(message) => stop(Err(ZomeErrorView::Host(message))),
            _ => stop(Err(ZomeErrorView::UnexpectedReply)),
        },
        SessionView::EnumeratingAnnotations => match reply {
            HostReplyView::Targets(targets) => list_annotations(targets, 0, Seq::empty()),
            HostReplyView::Failed(message) => stop(Err(ZomeErrorView::Host(message))),
            _ => stop(Err(ZomeErrorView::UnexpectedReply)),
        },
        SessionView::ListingMemez {
            expr,
            agent,
            targets,
            next,
            stage,
            memez,
            failure,
        } => step_memez(expr, agent, targets, next, stage, memez, failure, reply),
        SessionView::ListingPaperz { targets, next, paperz, failure } => step_paperz(
            targets,
            next,
            paperz,
            failure,
            reply,
        ),
        SessionView::ListingAnnotations { targets, next, annotations } => step_annotations(
            targets,
            next,
            annotations,
            reply,
        ),
    }
}

/// Which kind of entry an upload writes, with what its follow-up calls need.
#[derive(Debug)]
pub enum Upload {
    Meme,
    /// A paper, uploaded by the agent with this address.
    Paper { agent: String },
    /// An annotation of the paper at this address.
    Annotation { paper_ref: EntryHash },
}

impl View for Upload {
    type V = UploadView;

    open spec fn view(&self) -> UploadView {
        match self {
            Upload::Meme => UploadView::Meme,
            Upload::Paper { agent } => UploadView::Paper { agent: agent@ },
            Upload::Annotation { paper_ref } => UploadView::Annotation { paper_ref: paper_ref@ },
        }
    }
}

/// How far the listing of one meme has come.
#[derive(Debug)]
pub enum MemeStage {
    Fetching,
    ScoringContent { meme: Meme },
    ScoringAgent { meme: Meme, content_score: HeaderHash },
    Applying { meme: Meme },
}

impl View for MemeStage {
    type V = MemeStageView;

    open spec fn view(&self) -> MemeStageView {
        match self {
            MemeStage::Fetching => MemeStageView::Fetching,
            MemeStage::ScoringContent { meme } => MemeStageView::ScoringContent { meme: meme@ },
            MemeStage::ScoringAgent { meme, content_score } => MemeStageView::ScoringAgent {
                meme: meme@,
                content_score: content_score@,
            },
            MemeStage::Applying { meme } => MemeStageView::Applying { meme: meme@ },
        }
    }
}

/// The state of an endpoint between two calls.
#[derive(Debug)]
pub enum Session {
    Finished,
    Persisting(Upload),
    Following { upload: Upload, entry: EntryHash, header: HeaderHash, step: u8 },
    Awaiting(Awaited),
    EnumeratingMemez { expr: String, agent: AgentPubKey },
    EnumeratingPaperz,
    EnumeratingAnnotations,
    ListingMemez {
        expr: String,
        agent: AgentPubKey,
        targets: Vec<EntryHash>,
        next: usize,
        stage: MemeStage,
        memez: Vec<(EntryHash, Meme, i64)>,
        failure: Option<ZomeError>,
    },
    ListingPaperz {
        targets: Vec<EntryHash>,
        next: usize,
        paperz: Vec<(EntryHash, Paper)>,
        failure: Option<ZomeError>,
    },
    ListingAnnotations {
        targets: Vec<EntryHash>,
        next: usize,
        annotations: Vec<(EntryHash, Annotation)>,
    },
}

/// An optional error as a value.
pub open spec fn failure_view(failure: Option<ZomeError>) -> Option<ZomeErrorView> {
    match failure {
        Some(error) => Some(error@),
        None => None,
    }
}

impl View for Session {
    type V = SessionView;

    open spec fn view(&self) -> SessionView {
        match self {
            Session::Finished => SessionView::Finished,
            Session::Persisting(upload) => SessionView::Persisting(upload@),
            Session::Following { upload, entry, header, step } => SessionView::Following {
                upload: upload@,
                entry: entry@,
                header: header@,
                step: *step as int,
            },
            Session::Awaiting(awaited) => SessionView::Awaiting(*awaited),
            Session::EnumeratingMemez { expr, agent } => SessionView::EnumeratingMemez {
                expr: expr@,
                agent: agent@,
            },
            Session::EnumeratingPaperz => SessionView::EnumeratingPaperz,
            Session::EnumeratingAnnotations => SessionView::EnumeratingAnnotations,
            Session::ListingMemez {
                expr,
                agent,
                targets,
                next,
                stage,
                memez,
                failure,
            } => SessionView::ListingMemez {
                expr: expr@,
                agent: agent@,
                targets: targets_view(targets@),
                next: *next as int,
                stage: stage@,
                memez: memez_view(memez@),
                failure: failure_view(*failure),
            },
            Session::ListingPaperz { targets, next, paperz, failure } => SessionView::ListingPaperz {
                targets: targets_view(targets@),
                next: *next as int,
                paperz: paperz_view(paperz@),
                failure: failure_view(*failure),
            },
            Session::ListingAnnotations {
                targets,
                next,
                annotations,
            } => SessionView::ListingAnnotations {
                targets: targets_view(targets@),
                next: *next as int,
                annotations: annotations_view(annotations@),
            },
        }
    }
}

/// The endpoint returns `outcome`.
fn finish(outcome: Result<Response, ZomeError>) -> (next: (Session, Effect))
    ensures
        (next.0@, next.1@) == stop(outcome_view(outcome)),
{
    (Session::Finished, Effect::Return(outcome))
}

/// The call that reads the score kept for an entry under `namespace`.
fn entry_score_call(namespace: &str, target: &EntryHash) -> (call: HostCall)
    ensures
        call@ == score_call(namespace@, target@),
{
    let path = compose_entry_hash_path(&String::from_str(namespace), target.clone());
    HostCall::Sensemaker(SensemakerRequest::GetEntryByPathWithHh { path, tag: SmTag::Data })
}

/// The call that reads the score kept for an agent under `namespace`.
fn agent_score_call(namespace: &str, agent: &AgentPubKey) -> (call: HostCall)
    ensures
        call@ == score_call(namespace@, agent@),
{
    let path = compose_agent_path(&String::from_str(namespace), agent);
    HostCall::Sensemaker(SensemakerRequest::GetEntryByPathWithHh { path, tag: SmTag::Data })
}

/// The link from the anchor `anchor` to `entry` under `tag`.
fn anchor_link(anchor: &str, entry: &EntryHash, tag: &str) -> (call: HostCall)
    ensures
        call@ == (HostCallView::Link {
            base: LinkBaseView::Anchor(anchor@),
            target: entry@,
            tag: tag@,
        }),
{
    HostCall::Link {
        base: LinkBase::Anchor(String::from_str(anchor)),
        target: entry.clone(),
        tag: String::from_str(tag),
    }
}

/// The call that has the sensemaker cell keep a value for `entry` under
/// `namespace`.
fn initialize_call(namespace: &str, entry: &EntryHash) -> (call: HostCall)
    ensures
        call@ == HostCallView::Sensemaker(
            RequestView::InitializeSmData { path: namespace@, target: entry@ },
        ),
{
    HostCall::Sensemaker(
        SensemakerRequest::InitializeSmData {
            path: String::from_str(namespace),
            target: entry.clone(),
        },
    )
}

/// The follow-up call number `step` of an upload that wrote `entry`.
fn follow_up_call(upload: &Upload, entry: &EntryHash, step: u8) -> (call: Option<HostCall>)
    ensures
        call is Some <==> follow_up(upload@, entry@, step as int) is Some,
        call is Some ==> call->0@ == follow_up(upload@, entry@, step as int)->0,
        call is Some ==> step < 3,
{
    match upload {
        Upload::Meme => {
            if step == 0 {
                Some(anchor_link(MEME_ANCHOR, entry, MEME_TAG))
            } else if step == 1 {
                Some(initialize_call(MEMEZ_PATH, entry))
            } else {
                None
            }
        },
        Upload::Paper { agent } => {
            if step == 0 {
                Some(anchor_link(PAPER_ANCHOR, entry, PAPER_TAG))
            } else if step == 1 {
                Some(initialize_call(PAPERZ_PATH, entry))
            } else if step == 2 {
                Some(
                    HostCall::Sensemaker(
                        SensemakerRequest::StepSmPath {
                            path: String::from_str(AGENT_PATH),
                            address: agent.clone(),
                            action: String::from_str(STEP_ONE),
                        },
                    ),
                )
            } else {
                None
            }
        },
        Upload::Annotation { paper_ref } => {
            if step == 0 {
                Some(anchor_link(ANN_TAG, entry, ANN_TAG))
            } else if step == 1 {
                Some(
                    HostCall::Link {
                        base: LinkBase::Entry(paper_ref.clone()),
                        target: entry.clone(),
                        tag: String::from_str(ANN_TAG),
                    },
                )
            } else if step == 2 {
                Some(initialize_call(ANNOTATIONZ_PATH, entry))
            } else {
                None
            }
        },
    }
}

/// An upload goes on with its follow-up call number `step`, or returns.
fn follow_on(upload: Upload, entry: EntryHash, header: HeaderHash, step: u8) -> (next: (
    Session,
    Effect,
))
    ensures
        (next.0@, next.1@) == follow(upload@, entry@, header@, step as int),
{
    match follow_up_call(&upload, &entry, step) {
        Some(call) => (Session::Following { upload, entry, header, step }, Effect::Call(call)),
        None => finish(Ok(Response::Written { entry, header })),
    }
}

/// Whether `reply` is the host's success in answer to the follow-up `call`.
fn is_confirmed(call: &HostCall, reply: &HostReply) -> (confirmed: bool)
    ensures
        confirmed == confirms(call@, reply@),
{
    match call {
        HostCall::Link { .. } => match reply {
            HostReply::Linked => true,
            _ => false,
        },
        HostCall::Sensemaker(_) => match reply {
            HostReply::Acknowledged => true,
            _ => false,
        },
        _ => false,
    }
}

/// What the reply to a single call of the sensemaker cell becomes.
fn settle_reply(awaited: Awaited, reply: HostReply) -> (outcome: Result<Response, ZomeError>)
    ensures
        outcome_view(outcome) == settle(awaited, reply@),
{
    match reply {
        HostReply::Failed(message) => Err(ZomeError::Host(message)),
        HostReply::Entry(found) => match awaited {
            Awaited::Entry => Ok(Response::Entry(found)),
            _ => Err(ZomeError::UnexpectedReply),
        },
        HostReply::Record(found) => match awaited {
            Awaited::Record => Ok(Response::Record(found)),
            Awaited::ClapCount => Ok(Response::ClapCount(count_claps(&found))),
            _ => Err(ZomeError::UnexpectedReply),
        },
        HostReply::Acknowledged => match awaited {
            Awaited::Flag => Ok(Response::Flag(true)),
            Awaited::Unit => Ok(Response::Unit),
            _ => Err(ZomeError::UnexpectedReply),
        },
        _ => Err(ZomeError::UnexpectedReply),
    }
}

/// The claps counted for a meme: the integer that its value holds.
pub fn count_claps(found: &Option<(EntryHash, HeaderHash, SensemakerEntry)>) -> (count: Option<i64>)
    ensures
        count == clap_count(record_view(*found)),
{
    match found {
        Some(record) => int_value(record.2.output_flat_value),
        None => None,
    }
}

/// Why the item in hand is lost, given the reply that was no success.
fn lost_item(fetching: bool, scoring: bool, reply: HostReply) -> (error: ZomeError)
    ensures
        error@ == item_error(fetching, scoring, reply@),
{
    match reply {
        HostReply::Failed(message) => ZomeError::Host(message),
        HostReply::Fetched(_) => if fetching {
            ZomeError::WrongContent
        } else {
            ZomeError::UnexpectedReply
        },
        HostReply::Record(None) => if scoring {
            ZomeError::MissingScore
        } else {
            ZomeError::UnexpectedReply
        },
        _ => ZomeError::UnexpectedReply,
    }
}

/// A listing that must not lose an item ends.
fn end_all_or_nothing(endpoint: &str, items: Response, failure: Option<ZomeError>) -> (outcome:
    Result<Response, ZomeError>)
    ensures
        outcome_view(outcome) == all_or_nothing(endpoint@, items@, failure_view(failure)),
{
    match failure {
        None => Ok(items),
        Some(cause) => Err(ZomeError::in_listing(endpoint, &cause)),
    }
}

/// The listing of memes turns to the item at `next`, or ends after the last.
fn turn_to_meme(
    expr: String,
    agent: AgentPubKey,
    targets: Vec<EntryHash>,
    next: usize,
    memez: Vec<(EntryHash, Meme, i64)>,
    failure: Option<ZomeError>,
) -> (after: (Session, Effect))
    ensures
        (after.0@, after.1@) == list_memez(
            expr@,
            agent@,
            targets_view(targets@),
            next as int,
            memez_view(memez@),
            failure_view(failure),
        ),
{
    if next < targets.len() {
        let call = HostCall::Fetch(targets[next].clone());
        (
            Session::ListingMemez {
                expr,
                agent,
                targets,
                next,
                stage: MemeStage::Fetching,
                memez,
                failure,
            },
            Effect::Call(call),
        )
    } else {
        finish(end_all_or_nothing(GET_ALL_MEMEZ, Response::Memez(memez), failure))
    }
}

/// The listing of papers turns to the item at `next`, or ends after the last.
fn turn_to_paper(
    targets: Vec<EntryHash>,
    next: usize,
    paperz: Vec<(EntryHash, Paper)>,
    failure: Option<ZomeError>,
) -> (after: (Session, Effect))
    ensures
        (after.0@, after.1@) == list_paperz(
            targets_view(targets@),
            next as int,
            paperz_view(paperz@),
            failure_view(failure),
        ),
{
    if next < targets.len() {
        let call = HostCall::Fetch(targets[next].clone());
        (Session::ListingPaperz { targets, next, paperz, failure }, Effect::Call(call))
    } else {
        finish(end_all_or_nothing(GET_ALL_PAPERZ, Response::Paperz(paperz), failure))
    }
}

/// The listing of annotations turns to the item at `next`, or ends.
fn turn_to_annotation(
    targets: Vec<EntryHash>,
    next: usize,
    annotations: Vec<(EntryHash, Annotation)>,
) -> (after: (Session, Effect))
    ensures
        (after.0@, after.1@) == list_annotations(
            targets_view(targets@),
            next as int,
            annotations_view(annotations@),
        ),
{
    if next < targets.len() {
        let call = HostCall::Fetch(targets[next].clone());
        (Session::ListingAnnotations { targets, next, annotations }, Effect::Call(call))
    } else {
        finish(Ok(Response::Annotations(annotations)))
    }
}

/// What the reply leads to while the meme at `targets[next]` is read and
/// scored.
fn resume_memez(
    expr: String,
    agent: AgentPubKey,
    targets: Vec<EntryHash>,
    next: usize,
    stage: MemeStage,
    memez: Vec<(EntryHash, Meme, i64)>,
    failure: Option<ZomeError>,
    reply: HostReply,
) -> (after: (Session, Effect))
    ensures
        (after.0@, after.1@) == step_memez(
            expr@,
            agent@,
            targets_view(targets@),
            next as int,
            stage@,
            memez_view(memez@),
            failure_view(failure),
            reply@,
        ),
{
    if next >= targets.len() {
        return turn_to_meme(expr, agent, targets, next, memez, failure);
    }
    match stage {
        MemeStage::Fetching => match reply {
            HostReply::Fetched(Content::Meme(meme)) => {
                let call = entry_score_call(MEMEZ_PATH, &targets[next]);
                (
                    Session::ListingMemez {
                        expr,
                        agent,
                        targets,
                        next,
                        stage: MemeStage::ScoringContent { meme },
                        memez,
                        failure,
                    },
                    Effect::Call(call),
                )
            },
            other => {
                let lost = lost_item(true, false, other);
                turn_to_meme(expr, agent, targets, next + 1, memez, Some(lost))
            },
        },
        MemeStage::ScoringContent { meme } => match reply {
            HostReply::Record(Some(record)) => {
                let call = agent_score_call(AGENT_PATH, &agent);
                (
                    Session::ListingMemez {
                        expr,
                        agent,
                        targets,
                        next,
                        stage: MemeStage::ScoringAgent { meme, content_score: record.1 },
                        memez,
                        failure,
                    },
                    Effect::Call(call),
                )
            },
            other => {
                let lost = lost_item(false, true, other);
                turn_to_meme(expr, agent, targets, next + 1, memez, Some(lost))
            },
        },
        MemeStage::ScoringAgent { meme, content_score } => match reply {
            HostReply::Record(Some(record)) => {
                let call = HostCall::Apply {
                    expr: expr.clone(),
                    content_score,
                    agent_score: record.1,
                };
                (
                    Session::ListingMemez {
                        expr,
                        agent,
                        targets,
                        next,
                        stage: MemeStage::Applying { meme },
                        memez,
                        failure,
                    },
                    Effect::Call(call),
                )
            },
            other => {
                let lost = lost_item(false, true, other);
                turn_to_meme(expr, agent, targets, next + 1, memez, Some(lost))
            },
        },
        MemeStage::Applying { meme } => match reply {
            HostReply::Value(value) => {
                let mut memez = memez;
                let ghost before = memez_view(memez@);
                let ghost item = (targets@[next as int]@, meme@, score_of(value));
                memez.push((targets[next].clone(), meme, feed_score(value)));
                assert(memez_view(memez@) =~= before.push(item));
                turn_to_meme(expr, agent, targets, next + 1, memez, failure)
            },
            other => {
                let lost = lost_item(false, false, other);
                turn_to_meme(expr, agent, targets, next + 1, memez, Some(lost))
            },
        },
    }
}

/// What the reply leads to while the paper at `targets[next]` is read.
fn resume_paperz(
    targets: Vec<EntryHash>,
    next: usize,
    paperz: Vec<(EntryHash, Paper)>,
    failure: Option<ZomeError>,
    reply: HostReply,
) -> (after: (Session, Effect))
    ensures
        (after.0@, after.1@) == step_paperz(
            targets_view(targets@),
            next as int,
            paperz_view(paperz@),
            failure_view(failure),
            reply@,
        ),
{
    if next >= targets.len() {
        return turn_to_paper(targets, next, paperz, failure);
    }
    match reply {
        HostReply::Fetched(Content::Paper(paper)) => {
            let mut paperz = paperz;
            let ghost before = paperz_view(paperz@);
            let ghost item = (targets@[next as int]@, paper@);
            paperz.push((targets[next].clone(), paper));
            assert(paperz_view(paperz@) =~= before.push(item));
            turn_to_paper(targets, next + 1, paperz, failure)
        },
        other => {
            let lost = lost_item(true, false, other);
            turn_to_paper(targets, next + 1, paperz, Some(lost))
        },
    }
}

/// What the reply leads to while the annotation at `targets[next]` is read.
fn resume_annotations(
    targets: Vec<EntryHash>,
    next: usize,
    annotations: Vec<(EntryHash, Annotation)>,
    reply: HostReply,
) -> (after: (Session, Effect))
    ensures
        (after.0@, after.1@) == step_annotations(
            targets_view(targets@),
            next as int,
            annotations_view(annotations@),
            reply@,
        ),
{
    if next >= targets.len() {
        return turn_to_annotation(targets, next, annotations);
    }
    match reply {
        HostReply::Fetched(Content::Annotation(annotation)) => {
            let mut annotations = annotations;
            let ghost before = annotations_view(annotations@);
            let ghost item = (targets@[next as int]@, annotation@);
            annotations.push((targets[next].clone(), annotation));
            assert(annotations_view(annotations@) =~= before.push(item));
            turn_to_annotation(targets, next + 1, annotations)
        },
        _ => turn_to_annotation(targets, next + 1, annotations),
    }
}

impl Session {
    /// Takes the host's reply to the call under way, and gives the state
    /// that follows with the next call to make or the result to return.
    pub fn resume(self, reply: HostReply) -> (after: (Session, Effect))
        ensures
            (after.0@, after.1@) == step(self@, reply@),
    {
        match self {
            Session::Finished => finish(Err(ZomeError::UnexpectedReply)),
            Session::Persisting(upload) => match reply {
                HostReply::Persisted { entry, header } => follow_on(upload, entry, header, 0),
                HostReply::Failed(message) => finish(Err(ZomeError::Host(message))),
                _ => finish(Err(ZomeError::UnexpectedReply)),
            },
            Session::Following { upload, entry, header, step } => match reply {
                HostReply::Failed(message) => finish(Err(ZomeError::Host(message))),
                other => match follow_up_call(&upload, &entry, step) {
                    Some(call) => if is_confirmed(&call, &other) {
                        follow_on(upload, entry, header, step + 1)
                    } else {
                        finish(Err(ZomeError::UnexpectedReply))
                    },
                    None => finish(Err(ZomeError::UnexpectedReply)),
                },
            },
            Session::Awaiting(awaited) => finish(settle_reply(awaited, reply)),
            Session::EnumeratingMemez { expr, agent } => match reply {
                HostReply::Targets(targets) => {
                    let memez: Vec<(EntryHash, Meme, i64)> = Vec::new();
                    assert(memez_view(memez@) =~= Seq::empty());
                    turn_to_meme(expr, agent, targets, 0, memez, None)
                },
                HostReply::Failed(message) => finish(Err(ZomeError::Host(message))),
                _ => finish(Err(ZomeError::UnexpectedReply)),
            },
            Session::EnumeratingPaperz => match reply {
                HostReply::Targets(targets) => {
                    let paperz: Vec<(EntryHash, Paper)> = Vec::new();
                    assert(paperz_view(paperz@) =~= Seq::empty());
                    turn_to_paper(targets, 0, paperz, None)
                },
                HostReply::Failed(message) => finish(Err(ZomeError::Host(message))),
                _ => finish(Err(ZomeError::UnexpectedReply)),
            },
            Session::EnumeratingAnnotations => match reply {
                HostReply::Targets(targets) => {
                    let annotations: Vec<(EntryHash, Annotation)> = Vec::new();
                    assert(annotations_view(annotations@) =~= Seq::empty());
                    turn_to_annotation(targets, 0, annotations)
                },
                HostReply::Failed(message) => finish(Err(ZomeError::Host(message))),
                _ => finish(Err(ZomeError::UnexpectedReply)),
            },
            Session::ListingMemez {
                expr,
                agent,
                targets,
                next,
                stage,
                memez,
                failure,
            } => resume_memez(expr, agent, targets, next, stage, memez, failure, reply),
            Session::ListingPaperz { targets, next, paperz, failure } => resume_paperz(
                targets,
                next,
                paperz,
                failure,
                reply,
            ),
            Session::ListingAnnotations { targets, next, annotations } => resume_annotations(
                targets,
                next,
                annotations,
                reply,
            ),
        }
    }
}

} // verus!
