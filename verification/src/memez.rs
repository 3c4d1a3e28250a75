//! The endpoints of the memes' zome. Each function starts an endpoint: it
//! gives the session that waits for the host's first reply, and the first
//! call to make.

use crate::content::{BlobView, Content, ContentView, Meme, MEMEZ_PATH, MEME_ANCHOR, MEME_TAG};
use crate::hash::{AgentPubKey, EntryHash};
use crate::host::{HostCall, HostCallView, LinkBase, LinkBaseView};
use crate::path::{address_path, compose_entry_hash_path};
use crate::response::{Effect, EffectView};
use crate::sensemaker::{RequestView, SmTag};
use crate::session::{Awaited, Session, SessionView, Upload, UploadView, STEP_ONE};
use crate::zome::{get_sm_generic_with_hh, single_call, step_sm_remote};
use vstd::prelude::*;

verus! {

/// The call that enumerates the memes.
pub open spec fn enumerate_memez() -> HostCallView {
    HostCallView::Enumerate { base: LinkBaseView::Anchor(MEME_ANCHOR@), tag: MEME_TAG@ }
}

/// The start of an upload of `meme`: the meme is to be written.
pub open spec fn meme_upload(meme: BlobView) -> (SessionView, EffectView) {
    (
        SessionView::Persisting(UploadView::Meme),
        EffectView::Call(HostCallView::Persist(ContentView::Meme(meme))),
    )
}

/// The start of a listing of the memes, scored by `expr` for `agent`: the
/// memes are to be enumerated.
pub open spec fn memez_listing(expr: Seq<char>, agent: Seq<u8>) -> (SessionView, EffectView) {
    (SessionView::EnumeratingMemez { expr, agent }, EffectView::Call(enumerate_memez()))
}

/// Uploads a meme: writes it, links it from the memes' anchor, and has the
/// sensemaker cell keep a score for it, seeded from the initial expression of
/// the memes' namespace. Returns `Response::Written` with the meme's address
/// and the address of its record. Fails with the message of the first call
/// that fails; what was written before stays written.
pub fn upload_meme(meme: Meme) -> (start: (Session, Effect))
    ensures
        (start.0@, start.1@) == meme_upload(meme@),
{
    (Session::Persisting(Upload::Meme), Effect::Call(HostCall::Persist(Content::Meme(meme))))
}

/// Claps for a meme: steps its score by one.
pub fn clap_for_meme(meme_eh: EntryHash) -> (start: (Session, Effect))
    ensures
        (start.0@, start.1@) == single_call(
            Awaited::Unit,
            RequestView::StepSm { path: MEMEZ_PATH@, target: meme_eh@, action: STEP_ONE@ },
        ),
{
    step_sm_remote(String::from_str(MEMEZ_PATH), meme_eh, String::from_str(STEP_ONE))
}

/// Reads how often a meme was clapped for. Returns `Response::ClapCount`:
/// the integer that the meme's score holds, `None` where no score is kept or
/// the score is no integer.
pub fn meme_clap_count(meme_eh: EntryHash) -> (start: (Session, Effect))
    ensures
        (start.0@, start.1@) == single_call(
            Awaited::ClapCount,
            RequestView::GetEntryByPathWithHh {
                path: address_path(MEMEZ_PATH@, meme_eh@),
                tag: SmTag::Data,
            },
        ),
{
    let started = get_sm_data(meme_eh);
    (Session::Awaiting(Awaited::ClapCount), started.1)
}

/// Lists every meme with its address and its score for the asking agent.
/// The score of a meme is `feed_score_comp` applied to the meme's score and
/// the agent's, where that is an integer, and zero where it is not. Returns
/// `Response::Memez`, in the order in which the host enumerates the links.
/// A meme that cannot be read or scored is left out and the rest is still
/// gone through, but the listing then fails as a whole, with the last
/// failure.
///
/// The agent's score is the one kept under `agent_address(agent_pk)`, the
/// key in URL-safe base64, in the agents' namespace. A score that was
/// initialized under the key in the standard alphabet is another one: the
/// listing does not find it, and fails for want of a score. The agent's
/// score is read once for each meme: where no meme is linked nothing is
/// read, and the list is empty whether a score is kept for the agent or not.
pub fn get_all_memez(feed_score_comp: String, agent_pk: AgentPubKey) -> (start: (Session, Effect))
    ensures
        (start.0@, start.1@) == memez_listing(feed_score_comp@, agent_pk@),
{
    (
        Session::EnumeratingMemez { expr: feed_score_comp, agent: agent_pk },
        Effect::Call(
            HostCall::Enumerate {
                base: LinkBase::Anchor(String::from_str(MEME_ANCHOR)),
                tag: String::from_str(MEME_TAG),
            },
        ),
    )
}

/// Reads the score kept for a meme. Returns `Response::Record`.
pub fn get_sm_data(target_eh: EntryHash) -> (start: (Session, Effect))
    ensures
        (start.0@, start.1@) == single_call(
            Awaited::Record,
            RequestView::GetEntryByPathWithHh {
                path: address_path(MEMEZ_PATH@, target_eh@),
                tag: SmTag::Data,
            },
        ),
{
    let path_string = compose_entry_hash_path(&String::from_str(MEMEZ_PATH), target_eh);
    get_sm_generic_with_hh(path_string, SmTag::Data)
}

} // verus!
