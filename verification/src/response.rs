//! How an endpoint ends: with a response for the caller, or with an error.

use crate::content::{Annotation, AnnotationView, BlobView, Meme, Paper};
use crate::hash::{EntryHash, HeaderHash};
use crate::host::{entry_view, record_view, EntryView, HostCall, HostCallView, RecordView};
use crate::sensemaker::SensemakerEntry;
use vstd::prelude::*;

verus! {

/// Why an endpoint failed.
#[derive(Debug)]
pub enum ZomeError {
    /// The host or the sensemaker cell failed. The message is theirs, as it
    /// came.
    Host(String),
    /// The zome itself gives up, with its own message.
    Guest(String),
    /// The host answered a call with the reply to another.
    UnexpectedReply,
    /// A listed entry is of another kind than the list.
    WrongContent,
    /// No score is kept for a listed entry, or for the agent who asks.
    MissingScore,
}

/// An error as a value.
pub enum ZomeErrorView {
    Host(Seq<char>),
    Guest(Seq<char>),
    UnexpectedReply,
    WrongContent,
    MissingScore,
}

impl View for ZomeError {
    type V = ZomeErrorView;

    open spec fn view(&self) -> ZomeErrorView {
        match self {
            ZomeError::Host(message) => ZomeErrorView::Host(message@),
            ZomeError::Guest(message) => ZomeErrorView::Guest(message@),
            ZomeError::UnexpectedReply => ZomeErrorView::UnexpectedReply,
            ZomeError::WrongContent => ZomeErrorView::WrongContent,
            ZomeError::MissingScore => ZomeErrorView::MissingScore,
        }
    }
}

/// The text of an error: the message it carries, or a fixed sentence.
pub open spec fn description(error: ZomeErrorView) -> Seq<char> {
    match error {
        ZomeErrorView::Host(message) => message,
        ZomeErrorView::Guest(message) => message,
        ZomeErrorView::UnexpectedReply => "the host answered another call"@,
        ZomeErrorView::WrongContent => "the entry is of another kind"@,
        ZomeErrorView::MissingScore => "no score is kept"@,
    }
}

/// The error of a listing that lost an item: the endpoint's name, a colon,
/// and the text of the failure.
pub open spec fn listing_error(endpoint: Seq<char>, cause: ZomeErrorView) -> ZomeErrorView {
    ZomeErrorView::Guest(endpoint + ": "@ + description(cause))
}

impl ZomeError {
    /// The text of the error.
    pub fn describe(&self) -> (text: String)
        ensures
            text@ == description(self@),
    {
        match self {
            ZomeError::Host(message) => message.clone(),
            ZomeError::Guest(message) => message.clone(),
            ZomeError::UnexpectedReply => String::from_str("the host answered another call"),
            ZomeError::WrongContent => String::from_str("the entry is of another kind"),
            ZomeError::MissingScore => String::from_str("no score is kept"),
        }
    }

    /// The error of the listing `endpoint` that lost an item to `cause`.
    pub fn in_listing(endpoint: &str, cause: &ZomeError) -> (error: ZomeError)
        ensures
            error@ == listing_error(endpoint@, cause@),
    {
        let text = cause.describe();
        ZomeError::Guest(String::from_str(endpoint).concat(": ").concat(text.as_str()))
    }
}

/// What an endpoint returns to its caller.
#[derive(Debug)]
pub enum Response {
    /// An entry was written: its address, and the address of its record.
    Written { entry: EntryHash, header: HeaderHash },
    /// Every meme with its address and its score.
    Memez(Vec<(EntryHash, Meme, i64)>),
    /// Every paper with its address.
    Paperz(Vec<(EntryHash, Paper)>),
    /// The annotations of one paper with their addresses.
    Annotations(Vec<(EntryHash, Annotation)>),
    /// How often a meme was clapped for, where its value is an integer.
    ClapCount(Option<i64>),
    /// The latest entry under a path and tag, if there is one.
    Entry(Option<(EntryHash, SensemakerEntry)>),
    /// The same, with the address of the entry's record.
    Record(Option<(EntryHash, HeaderHash, SensemakerEntry)>),
    /// The sensemaker cell took what was set.
    Flag(bool),
    /// Done, with nothing to tell.
    Unit,
}

/// A listed meme as a value: its address, the meme, its score.
pub type ScoredMemeView = (Seq<u8>, BlobView, i64);

/// A listed paper as a value: its address and the paper.
pub type ListedPaperView = (Seq<u8>, BlobView);

/// A listed annotation as a value: its address and the annotation.
pub type ListedAnnotationView = (Seq<u8>, AnnotationView);

/// The memes of a list, in order.
pub open spec fn memez_view(memez: Seq<(EntryHash, Meme, i64)>) -> Seq<ScoredMemeView> {
    memez.map_values(|item: (EntryHash, Meme, i64)| (item.0@, item.1@, item.2))
}

/// The papers of a list, in order.
pub open spec fn paperz_view(paperz: Seq<(EntryHash, Paper)>) -> Seq<ListedPaperView> {
    paperz.map_values(|item: (EntryHash, Paper)| (item.0@, item.1@))
}

/// The annotations of a list, in order.
pub open spec fn annotations_view(
    annotations: Seq<(EntryHash, Annotation)>,
) -> Seq<ListedAnnotationView> {
    annotations.map_values(|item: (EntryHash, Annotation)| (item.0@, item.1@))
}

/// A response as a value.
pub enum ResponseView {
    Written { entry: Seq<u8>, header: Seq<u8> },
    Memez(Seq<ScoredMemeView>),
    Paperz(Seq<ListedPaperView>),
    Annotations(Seq<ListedAnnotationView>),
    ClapCount(Option<i64>),
    Entry(Option<EntryView>),
    Record(Option<RecordView>),
    Flag(bool),
    Unit,
}

impl View for Response {
    type V = ResponseView;

    open spec fn view(&self) -> ResponseView {
        match self {
            Response::Written { entry, header } => ResponseView::Written {
                entry: entry@,
                header: header@,
            },
            Response::Memez(memez) => ResponseView::Memez(memez_view(memez@)),
            Response::Paperz(paperz) => ResponseView::Paperz(paperz_view(paperz@)),
            Response::Annotations(annotations) => ResponseView::Annotations(
                annotations_view(annotations@),
            ),
            Response::ClapCount(count) => ResponseView::ClapCount(*count),
            Response::Entry(found) => ResponseView::Entry(entry_view(*found)),
            Response::Record(found) => ResponseView::Record(record_view(*found)),
            Response::Flag(flag) => ResponseView::Flag(*flag),
            Response::Unit => ResponseView::Unit,
        }
    }
}

/// How an endpoint ended, as a value.
pub type OutcomeView = Result<ResponseView, ZomeErrorView>;

/// The value of a result that an endpoint returned.
pub open spec fn outcome_view(outcome: Result<Response, ZomeError>) -> OutcomeView {
    match outcome {
        Ok(response) => Ok(response@),
        Err(error) => Err(error@),
    }
}

/// What an endpoint wants next: a call performed, or its result returned.
#[derive(Debug)]
pub enum Effect {
    Call(HostCall),
    Return(Result<Response, ZomeError>),
}

/// What an endpoint wants next, as a value.
pub enum EffectView {
    Call(HostCallView),
    Return(OutcomeView),
}

impl View for Effect {
    type V = EffectView;

    open spec fn view(&self) -> EffectView {
        match self {
            Effect::Call(call) => EffectView::Call(call@),
            Effect::Return(outcome) => EffectView::Return(outcome_view(*outcome)),
        }
    }
}

} // verus!
