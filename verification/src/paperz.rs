//! The endpoints of the papers' zome. Each function starts an endpoint: it
//! gives the session that waits for the host's first reply, and the first
//! call to make.

use crate::content::{Annotation, AnnotationView, BlobView, Content, ContentView, Paper,
    ANNOTATIONZ_PATH, ANN_TAG,
    PAPER_ANCHOR, PAPER_TAG};
use crate::hash::{AgentPubKey, EntryHash};
use crate::host::{HostCall, HostCallView, LinkBase, LinkBaseView};
use crate::path::{address_path, address_text, agent_address, compose_entry_hash_path};
use crate::response::{Effect, EffectView};
use crate::sensemaker::{RequestView, SensemakerRequest, SmTag};
use crate::session::{Awaited, Session, SessionView, Upload, UploadView};
use crate::zome::{get_sm_generic, single_call};
use vstd::prelude::*;

verus! {

/// The call that enumerates the papers.
pub open spec fn enumerate_paperz() -> HostCallView {
    HostCallView::Enumerate { base: LinkBaseView::Anchor(PAPER_ANCHOR@), tag: PAPER_TAG@ }
}

/// The call that enumerates the annotations of the paper at `paper`.
pub open spec fn enumerate_annotations(paper: Seq<u8>) -> HostCallView {
    HostCallView::Enumerate { base: LinkBaseView::Entry(paper), tag: ANN_TAG@ }
}

/// The start of an upload of `paper` by the agent with the address `agent`:
/// the paper is to be written.
pub open spec fn paper_upload(paper: BlobView, agent: Seq<char>) -> (SessionView, EffectView) {
    (
        SessionView::Persisting(UploadView::Paper { agent }),
        EffectView::Call(HostCallView::Persist(ContentView::Paper(paper))),
    )
}

/// The start of the writing of `annotation`: the entry is to be written.
pub open spec fn annotation_upload(annotation: AnnotationView) -> (SessionView, EffectView) {
    (
        SessionView::Persisting(UploadView::Annotation { paper_ref: annotation.paper_ref }),
        EffectView::Call(HostCallView::Persist(ContentView::Annotation(annotation))),
    )
}

/// The start of a listing of the papers: the papers are to be enumerated.
pub open spec fn paperz_listing() -> (SessionView, EffectView) {
    (SessionView::EnumeratingPaperz, EffectView::Call(enumerate_paperz()))
}

/// The start of a listing of the annotations of the paper at `paper`.
pub open spec fn annotations_listing(paper: Seq<u8>) -> (SessionView, EffectView) {
    (SessionView::EnumeratingAnnotations, EffectView::Call(enumerate_annotations(paper)))
}

/// Uploads a paper: writes it, links it from the papers' anchor, has the
/// sensemaker cell keep a score for it, seeded from the initial expression of
/// the papers' namespace, and steps the uploading agent's score by one.
/// Returns `Response::Written` with the paper's address and the address of
/// its record. Fails with the message of the first call that fails; what was
/// written before stays written.
///
/// The agent's score is the one kept under `agent_address(agent_pk)`, the
/// key in URL-safe base64. It has to have been initialized under that text:
/// a score initialized under the key in the standard alphabet is another
/// one, and this step does not reach it.
pub fn upload_paper(paper: Paper, agent_pk: AgentPubKey) -> (start: (Session, Effect))
    ensures
        (start.0@, start.1@) == paper_upload(paper@, address_text(agent_pk@)),
{
    let agent = agent_address(&agent_pk);
    (
        Session::Persisting(Upload::Paper { agent }),
        Effect::Call(HostCall::Persist(Content::Paper(paper))),
    )
}

/// Lists every paper with its address. Returns `Response::Paperz`, in the
/// order in which the host enumerates the links. A paper that cannot be read
/// is left out and the rest is still gone through, but the listing then fails
/// as a whole, with the last failure.
pub fn get_all_paperz() -> (start: (Session, Effect))
    ensures
        (start.0@, start.1@) == paperz_listing(),
{
    (
        Session::EnumeratingPaperz,
        Effect::Call(
            HostCall::Enumerate {
                base: LinkBase::Anchor(String::from_str(PAPER_ANCHOR)),
                tag: String::from_str(PAPER_TAG),
            },
        ),
    )
}

/// Lists the annotations of a paper with their addresses. Returns
/// `Response::Annotations`. An annotation that cannot be read is left out,
/// and the listing still succeeds.
pub fn get_annotations_for_paper(paper_entry_hash: EntryHash) -> (start: (Session, Effect))
    ensures
        (start.0@, start.1@) == annotations_listing(paper_entry_hash@),
{
    (
        Session::EnumeratingAnnotations,
        Effect::Call(
            HostCall::Enumerate {
                base: LinkBase::Entry(paper_entry_hash),
                tag: String::from_str(ANN_TAG),
            },
        ),
    )
}

/// Writes an annotation: writes the entry, links it from the annotations'
/// anchor and from its paper, and has the sensemaker cell keep a score for
/// it. Returns `Response::Written`.
pub fn create_annotation(annotation: Annotation) -> (start: (Session, Effect))
    ensures
        (start.0@, start.1@) == annotation_upload(annotation@),
{
    let paper_ref = annotation.paper_ref.clone();
    (
        Session::Persisting(Upload::Annotation { paper_ref }),
        Effect::Call(HostCall::Persist(Content::Annotation(annotation))),
    )
}

/// Has the sensemaker cell keep a score for an agent: for the address
/// `address`, which is text already, under the namespace `path_string`.
/// Returns `Response::Unit`. For the uploads and listings to find the score,
/// `address` has to be the agent's `agent_address`.
pub fn init_agent_sm_data(path_string: String, address: String) -> (start: (Session, Effect))
    ensures
        (start.0@, start.1@) == single_call(
            Awaited::Unit,
            RequestView::InitializeSmDataPath { path: path_string@, address: address@ },
        ),
{
    (
        Session::Awaiting(Awaited::Unit),
        Effect::Call(
            HostCall::Sensemaker(
                SensemakerRequest::InitializeSmDataPath { path: path_string, address },
            ),
        ),
    )
}

/// Reads the score kept for an annotation. Returns `Response::Entry`.
pub fn get_sm_data(target_eh: EntryHash) -> (start: (Session, Effect))
    ensures
        (start.0@, start.1@) == single_call(
            Awaited::Entry,
            RequestView::GetEntryByPath {
                path: address_path(ANNOTATIONZ_PATH@, target_eh@),
                tag: SmTag::Data,
            },
        ),
{
    let path_string = compose_entry_hash_path(&String::from_str(ANNOTATIONZ_PATH), target_eh);
    get_sm_generic(path_string, SmTag::Data)
}

} // verus!
