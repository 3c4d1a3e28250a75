//! The content that agents upload: memes, papers and annotations of papers.
//! An entry never changes once written, and its address is the hash of what it
//! holds.

use crate::encoding::{encode_standard, encoded, fits, Alphabet};
use crate::hash::EntryHash;
use vstd::prelude::*;

verus! {

/// The anchor under which every meme is linked.
pub const MEME_ANCHOR: &'static str = "memez";

/// The anchor under which every paper is linked.
pub const PAPER_ANCHOR: &'static str = "paperz";

/// The tag of the links to memes.
pub const MEME_TAG: &'static str = "meme";

/// The tag of the links to papers.
pub const PAPER_TAG: &'static str = "paper";

/// The tag of the links to annotations, and the name of their anchor.
pub const ANN_TAG: &'static str = "annotation";

/// The namespace of the memes' sensemaker paths.
pub const MEMEZ_PATH: &'static str = "widget.memez.memez";

/// The namespace of the papers' sensemaker paths.
pub const PAPERZ_PATH: &'static str = "widget.paperz.paperz";

/// The namespace of the annotations' sensemaker paths.
pub const ANNOTATIONZ_PATH: &'static str = "widget.paperz.annotationz";

/// The namespace of the agents' sensemaker paths.
pub const AGENT_PATH: &'static str = "widget.paperz.agent";

/// What begins the source of an image given inline.
pub const DATA_URL_PREFIX: &'static str = "data:img;base64,";

/// A file as the browser hands it over: its name and its bytes.
#[derive(Debug)]
pub struct FileBytes {
    pub filename: String,
    pub bytes: Vec<u8>,
}

/// An uploaded image.
#[derive(Debug)]
pub struct Meme {
    /// The file's name, extension included.
    pub filename: String,
    /// The file's bytes in standard base64.
    pub blob_str: String,
}

/// An uploaded paper.
#[derive(Debug)]
pub struct Paper {
    /// The file's name, extension included.
    pub filename: String,
    /// The file's bytes in standard base64.
    pub blob_str: String,
}

/// A correction proposed to one paragraph of a paper.
#[derive(Debug)]
pub struct Annotation {
    /// The paper's address.
    pub paper_ref: EntryHash,
    pub page_num: u64,
    pub paragraph_num: u64,
    pub what_it_says: String,
    pub what_it_should_say: String,
}

/// An entry of any of the three kinds.
#[derive(Debug)]
pub enum Content {
    Meme(Meme),
    Paper(Paper),
    Annotation(Annotation),
}

/// A named file with an encoded payload, as a value.
pub struct BlobView {
    pub filename: Seq<char>,
    pub blob_str: Seq<char>,
}

/// An annotation as a value.
pub struct AnnotationView {
    pub paper_ref: Seq<u8>,
    pub page_num: u64,
    pub paragraph_num: u64,
    pub what_it_says: Seq<char>,
    pub what_it_should_say: Seq<char>,
}

/// An entry as a value.
pub enum ContentView {
    Meme(BlobView),
    Paper(BlobView),
    Annotation(AnnotationView),
}

impl View for Meme {
    type V = BlobView;

    open spec fn view(&self) -> BlobView {
        BlobView { filename: self.filename@, blob_str: self.blob_str@ }
    }
}

impl View for Paper {
    type V = BlobView;

    open spec fn view(&self) -> BlobView {
        BlobView { filename: self.filename@, blob_str: self.blob_str@ }
    }
}

impl View for Annotation {
    type V = AnnotationView;

    open spec fn view(&self) -> AnnotationView {
        AnnotationView {
            paper_ref: self.paper_ref@,
            page_num: self.page_num,
            paragraph_num: self.paragraph_num,
            what_it_says: self.what_it_says@,
            what_it_should_say: self.what_it_should_say@,
        }
    }
}

impl View for Content {
    type V = ContentView;

    open spec fn view(&self) -> ContentView {
        match self {
            Content::Meme(meme) => ContentView::Meme(meme@),
            Content::Paper(paper) => ContentView::Paper(paper@),
            Content::Annotation(annotation) => ContentView::Annotation(annotation@),
        }
    }
}

/// The file `filename` with `bytes` as its payload, encoded.
pub open spec fn blob_of(filename: Seq<char>, bytes: Seq<u8>) -> BlobView {
    BlobView { filename, blob_str: encoded(Alphabet::Standard, bytes) }
}

impl Meme {
    /// The meme that a file becomes: the same name, the bytes in standard
    /// base64. The file must be short enough for its encoding to fit a
    /// buffer.
    pub fn from_file_bytes(file: FileBytes) -> (meme: Meme)
        requires
            fits(file.bytes@.len()),
        ensures
            meme@ == blob_of(file.filename@, file.bytes@),
    {
        let blob_str = encode_standard(&file.bytes);
        Meme { filename: file.filename, blob_str }
    }
}

impl Paper {
    /// The paper that a file becomes: the same name, the bytes in standard
    /// base64. The file must be short enough for its encoding to fit a
    /// buffer.
    pub fn from_file_bytes(file: FileBytes) -> (paper: Paper)
        requires
            fits(file.bytes@.len()),
        ensures
            paper@ == blob_of(file.filename@, file.bytes@),
    {
        let blob_str = encode_standard(&file.bytes);
        Paper { filename: file.filename, blob_str }
    }
}

impl Clone for Meme {
    fn clone(&self) -> (copy: Meme)
        ensures
            copy@ == self@,
    {
        Meme { filename: self.filename.clone(), blob_str: self.blob_str.clone() }
    }
}

impl Clone for Paper {
    fn clone(&self) -> (copy: Paper)
        ensures
            copy@ == self@,
    {
        Paper { filename: self.filename.clone(), blob_str: self.blob_str.clone() }
    }
}

/// The source under which a browser shows the meme: the payload given inline.
pub fn mk_meme_src(meme: &Meme) -> (src: String)
    ensures
        src@ == DATA_URL_PREFIX@ + meme@.blob_str,
{
    String::from_str(DATA_URL_PREFIX).concat(meme.blob_str.as_str())
}

} // verus!
