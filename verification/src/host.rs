//! What a zome asks of its host, and what the host answers. A zome endpoint
//! never touches the store or the network itself: it names the next call, and
//! whoever runs it performs the call and hands back the reply.

use crate::content::{Content, ContentView};
use crate::hash::{EntryHash, HeaderHash};
use crate::sensemaker::{FlatValue, RequestView, SensemakerEntry, SensemakerEntryView,
    SensemakerRequest};
use vstd::prelude::*;

verus! {

/// Where a link starts: at an anchor known by its name, or at an entry.
#[derive(Debug)]
pub enum LinkBase {
    Anchor(String),
    Entry(EntryHash),
}

/// The start of a link as a value.
pub enum LinkBaseView {
    Anchor(Seq<char>),
    Entry(Seq<u8>),
}

impl View for LinkBase {
    type V = LinkBaseView;

    open spec fn view(&self) -> LinkBaseView {
        match self {
            LinkBase::Anchor(name) => LinkBaseView::Anchor(name@),
            LinkBase::Entry(entry) => LinkBaseView::Entry(entry@),
        }
    }
}

/// One call to the host.
#[derive(Debug)]
pub enum HostCall {
    /// Write an entry. Answered by `Persisted`.
    Persist(Content),
    /// Link `target` from `base` under `tag`. Answered by `Linked`.
    Link { base: LinkBase, target: EntryHash, tag: String },
    /// List the targets of the links from `base` under `tag`. Answered by
    /// `Targets`.
    Enumerate { base: LinkBase, tag: String },
    /// Read the entry at an address. Answered by `Fetched`.
    Fetch(EntryHash),
    /// Call the sensemaker cell. Answered by `Acknowledged`, `Entry` or
    /// `Record`, as the function called returns nothing, an entry, or an entry
    /// with the address of its record.
    Sensemaker(SensemakerRequest),
    /// Evaluate `expr` applied to the values that the two records hold.
    /// Answered by `Value`.
    Apply { expr: String, content_score: HeaderHash, agent_score: HeaderHash },
}

/// A call to the host as a value.
pub enum HostCallView {
    Persist(ContentView),
    Link { base: LinkBaseView, target: Seq<u8>, tag: Seq<char> },
    Enumerate { base: LinkBaseView, tag: Seq<char> },
    Fetch(Seq<u8>),
    Sensemaker(RequestView),
    Apply { expr: Seq<char>, content_score: Seq<u8>, agent_score: Seq<u8> },
}

impl View for HostCall {
    type V = HostCallView;

    open spec fn view(&self) -> HostCallView {
        match self {
            HostCall::Persist(content) => HostCallView::Persist(content@),
            HostCall::Link { base, target, tag } => HostCallView::Link {
                base: base@,
                target: target@,
                tag: tag@,
            },
            HostCall::Enumerate { base, tag } => HostCallView::Enumerate { base: base@, tag: tag@ },
            HostCall::Fetch(entry) => HostCallView::Fetch(entry@),
            HostCall::Sensemaker(request) => HostCallView::Sensemaker(request@),
            HostCall::Apply { expr, content_score, agent_score } => HostCallView::Apply {
                expr: expr@,
                content_score: content_score@,
                agent_score: agent_score@,
            },
        }
    }
}

/// The host's answer to one call.
#[derive(Debug)]
pub enum HostReply {
    /// The entry was written: its address, and the address of the record that
    /// wrote it.
    Persisted { entry: EntryHash, header: HeaderHash },
    /// The link was made.
    Linked,
    /// The targets of the links, in the order in which the index gave them.
    Targets(Vec<EntryHash>),
    /// The entry at the address.
    Fetched(Content),
    /// The sensemaker cell did what was asked and returned nothing.
    Acknowledged,
    /// The latest entry under the path and tag, with its address; `None` where
    /// the path keeps nothing under the tag.
    Entry(Option<(EntryHash, SensemakerEntry)>),
    /// The same, with the address of the record that wrote the entry.
    Record(Option<(EntryHash, HeaderHash, SensemakerEntry)>),
    /// What the applied expression evaluated to.
    Value(FlatValue),
    /// The call failed, with the message of the host or of the cell.
    Failed(String),
}

/// An entry with its address, as a value.
pub type EntryView = (Seq<u8>, SensemakerEntryView);

/// An entry with its address and the address of its record, as a value.
pub type RecordView = (Seq<u8>, Seq<u8>, SensemakerEntryView);

/// The host's answer as a value.
pub enum HostReplyView {
    Persisted { entry: Seq<u8>, header: Seq<u8> },
    Linked,
    Targets(Seq<Seq<u8>>),
    Fetched(ContentView),
    Acknowledged,
    Entry(Option<EntryView>),
    Record(Option<RecordView>),
    Value(FlatValue),
    Failed(Seq<char>),
}

/// The addresses in a vector, in order.
pub open spec fn targets_view(targets: Seq<EntryHash>) -> Seq<Seq<u8>> {
    targets.map_values(|target: EntryHash| target@)
}

/// An optional entry with its address, as a value.
pub open spec fn entry_view(found: Option<(EntryHash, SensemakerEntry)>) -> Option<EntryView> {
    match found {
        Some((address, entry)) => Some((address@, entry@)),
        None => None,
    }
}

/// An optional entry with its two addresses, as a value.
pub open spec fn record_view(
    found: Option<(EntryHash, HeaderHash, SensemakerEntry)>,
) -> Option<RecordView> {
    match found {
        Some((address, header, entry)) => Some((address@, header@, entry@)),
        None => None,
    }
}

impl View for HostReply {
    type V = HostReplyView;

    open spec fn view(&self) -> HostReplyView {
        match self {
            HostReply::Persisted { entry, header } => HostReplyView::Persisted {
                entry: entry@,
                header: header@,
            },
            HostReply::Linked => HostReplyView::Linked,
            HostReply::Targets(targets) => HostReplyView::Targets(targets_view(targets@)),
            HostReply::Fetched(content) => HostReplyView::Fetched(content@),
            HostReply::Acknowledged => HostReplyView::Acknowledged,
            HostReply::Entry(found) => HostReplyView::Entry(entry_view(*found)),
            HostReply::Record(found) => HostReplyView::Record(record_view(*found)),
            HostReply::Value(value) => HostReplyView::Value(*value),
            HostReply::Failed(message) => HostReplyView::Failed(message@),
        }
    }
}

} // verus!
