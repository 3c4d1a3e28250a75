//! The sensemaker cell as this library sees it: the three tags under which a
//! path keeps its state, the entries kept there, and the calls that read and
//! change them. The cell itself is another program; only the shape of what is
//! sent to it and of what it answers is fixed here.

use crate::hash::EntryHash;
use vstd::prelude::*;

verus! {

/// The tag of a path's initial expression.
pub const SM_INIT_TAG: &'static str = "sm_init";

/// The tag of a path's transition expression.
pub const SM_COMP_TAG: &'static str = "sm_comp";

/// The tag of a path's current value.
pub const SM_DATA_TAG: &'static str = "sm_data";

/// The three kinds of state that a path keeps.
#[derive(Clone, Copy, Debug, PartialEq, Eq, Structural)]
pub enum SmTag {
    /// The expression that seeds the value of everything initialized under
    /// the path.
    Init,
    /// The expression that combines a value with an action into the next
    /// value.
    Comp,
    /// The current value.
    Data,
}

/// The link tag that stands for `tag` on the wire.
pub open spec fn tag_text(tag: SmTag) -> Seq<char> {
    match tag {
        SmTag::Init => SM_INIT_TAG@,
        SmTag::Comp => SM_COMP_TAG@,
        SmTag::Data => SM_DATA_TAG@,
    }
}

impl SmTag {
    /// The link tag that stands for this tag on the wire.
    pub fn as_str(self) -> (text: &'static str)
        ensures
            text@ == tag_text(self),
    {
        match self {
            SmTag::Init => SM_INIT_TAG,
            SmTag::Comp => SM_COMP_TAG,
            SmTag::Data => SM_DATA_TAG,
        }
    }
}

/// What an expression evaluated to, as far as this library reads it: an
/// integer, or anything else.
#[derive(Clone, Copy, Debug, PartialEq, Eq, Structural)]
pub enum FlatValue {
    VInt(i64),
    Other,
}

/// The state kept under one path and tag: an expression and what it
/// evaluated to.
#[derive(Debug)]
pub struct SensemakerEntry {
    /// The expression, in text: its source where the host keeps it, else the
    /// text in which the host writes the parsed expression out.
    pub expr: String,
    /// The value of the expression.
    pub output_flat_value: FlatValue,
}

/// A sensemaker entry as a value.
pub struct SensemakerEntryView {
    pub expr: Seq<char>,
    pub output_flat_value: FlatValue,
}

impl View for SensemakerEntry {
    type V = SensemakerEntryView;

    open spec fn view(&self) -> SensemakerEntryView {
        SensemakerEntryView { expr: self.expr@, output_flat_value: self.output_flat_value }
    }
}

/// The integer that a value holds, if it holds one.
pub open spec fn int_of(value: FlatValue) -> Option<i64> {
    match value {
        FlatValue::VInt(x) => Some(x),
        FlatValue::Other => None,
    }
}

/// The score shown beside a listed entry: the integer that the scoring
/// expression gave, and zero where it gave anything else.
pub open spec fn score_of(value: FlatValue) -> i64 {
    match value {
        FlatValue::VInt(x) => x,
        FlatValue::Other => 0,
    }
}

/// The integer that a value holds, if it holds one.
pub fn int_value(value: FlatValue) -> (x: Option<i64>)
    ensures
        x == int_of(value),
{
    match value {
        FlatValue::VInt(x) => Some(x),
        FlatValue::Other => None,
    }
}

/// The score shown beside a listed entry.
pub fn feed_score(value: FlatValue) -> (score: i64)
    ensures
        score == score_of(value),
{
    match value {
        FlatValue::VInt(x) => x,
        FlatValue::Other => 0,
    }
}

/// A call to the sensemaker cell. Each variant is one function of the cell;
/// its fields are the function's arguments, in the order in which they are
/// sent.
#[derive(Debug)]
pub enum SensemakerRequest {
    /// Read the latest entry under a path and tag.
    GetEntryByPath { path: String, tag: SmTag },
    /// Read the latest entry under a path and tag, with the address of the
    /// record that wrote it.
    GetEntryByPathWithHh { path: String, tag: SmTag },
    /// Start keeping a value for an entry under a namespace, seeded from the
    /// namespace's initial expression.
    InitializeSmData { path: String, target: EntryHash },
    /// Start keeping a value for an address that is already text.
    InitializeSmDataPath { path: String, address: String },
    /// Replace the expression kept under a path and tag.
    SetEntryParseRlExpr { path: String, tag: SmTag, expr: String },
    /// Apply an action to the value kept for an entry under a namespace.
    StepSm { path: String, target: EntryHash, action: String },
    /// Apply an action to the value kept for an address that is already text.
    StepSmPath { path: String, address: String, action: String },
}

/// A call to the sensemaker cell as a value.
pub enum RequestView {
    GetEntryByPath { path: Seq<char>, tag: SmTag },
    GetEntryByPathWithHh { path: Seq<char>, tag: SmTag },
    InitializeSmData { path: Seq<char>, target: Seq<u8> },
    InitializeSmDataPath { path: Seq<char>, address: Seq<char> },
    SetEntryParseRlExpr { path: Seq<char>, tag: SmTag, expr: Seq<char> },
    StepSm { path: Seq<char>, target: Seq<u8>, action: Seq<char> },
    StepSmPath { path: Seq<char>, address: Seq<char>, action: Seq<char> },
}

impl View for SensemakerRequest {
    type V = RequestView;

    open spec fn view(&self) -> RequestView {
        match self {
            SensemakerRequest::GetEntryByPath { path, tag } => RequestView::GetEntryByPath {
                path: path@,
                tag: *tag,
            },
            SensemakerRequest::GetEntryByPathWithHh {
                path,
                tag,
            } => RequestView::GetEntryByPathWithHh { path: path@, tag: *tag },
            SensemakerRequest::InitializeSmData { path, target } => RequestView::InitializeSmData {
                path: path@,
                target: target@,
            },
            SensemakerRequest::InitializeSmDataPath {
                path,
                address,
            } => RequestView::InitializeSmDataPath { path: path@, address: address@ },
            SensemakerRequest::SetEntryParseRlExpr {
                path,
                tag,
                expr,
            } => RequestView::SetEntryParseRlExpr { path: path@, tag: *tag, expr: expr@ },
            SensemakerRequest::StepSm { path, target, action } => RequestView::StepSm {
                path: path@,
                target: target@,
                action: action@,
            },
            SensemakerRequest::StepSmPath { path, address, action } => RequestView::StepSmPath {
                path: path@,
                address: address@,
                action: action@,
            },
        }
    }
}

/// One argument of a call on the wire: text, or an entry's address.
#[derive(Debug)]
pub enum PayloadField {
    Text(String),
    Address(EntryHash),
}

/// One argument of a call on the wire, as a value.
pub enum PayloadFieldView {
    Text(Seq<char>),
    Address(Seq<u8>),
}

impl View for PayloadField {
    type V = PayloadFieldView;

    open spec fn view(&self) -> PayloadFieldView {
        match self {
            PayloadField::Text(text) => PayloadFieldView::Text(text@),
            PayloadField::Address(address) => PayloadFieldView::Address(address@),
        }
    }
}

/// The name of the cell's function that a call invokes.
pub open spec fn function_name_of(request: RequestView) -> Seq<char> {
    match request {
        RequestView::GetEntryByPath { .. } => "get_sensemaker_entry_by_path"@,
        RequestView::GetEntryByPathWithHh { .. } => "get_sensemaker_entry_by_path_with_hh"@,
        RequestView::InitializeSmData { .. } => "initialize_sm_data"@,
        RequestView::InitializeSmDataPath { .. } => "initialize_sm_data_path"@,
        RequestView::SetEntryParseRlExpr { .. } => "set_sensemaker_entry_parse_rl_expr"@,
        RequestView::StepSm { .. } => "step_sm"@,
        RequestView::StepSmPath { .. } => "step_sm_path"@,
    }
}

/// The arguments of a call as they are sent: a tuple by position, the path
/// first; a tag goes as its link tag.
pub open spec fn payload_of(request: RequestView) -> Seq<PayloadFieldView> {
    match request {
        RequestView::GetEntryByPath { path, tag } => seq![
            PayloadFieldView::Text(path),
            PayloadFieldView::Text(tag_text(tag)),
        ],
        RequestView::GetEntryByPathWithHh { path, tag } => seq![
            PayloadFieldView::Text(path),
            PayloadFieldView::Text(tag_text(tag)),
        ],
        RequestView::InitializeSmData { path, target } => seq![
            PayloadFieldView::Text(path),
            PayloadFieldView::Address(target),
        ],
        RequestView::InitializeSmDataPath { path, address } => seq![
            PayloadFieldView::Text(path),
            PayloadFieldView::Text(address),
        ],
        RequestView::SetEntryParseRlExpr { path, tag, expr } => seq![
            PayloadFieldView::Text(path),
            PayloadFieldView::Text(tag_text(tag)),
            PayloadFieldView::Text(expr),
        ],
        RequestView::StepSm { path, target, action } => seq![
            PayloadFieldView::Text(path),
            PayloadFieldView::Address(target),
            PayloadFieldView::Text(action),
        ],
        RequestView::StepSmPath { path, address, action } => seq![
            PayloadFieldView::Text(path),
            PayloadFieldView::Text(address),
            PayloadFieldView::Text(action),
        ],
    }
}

/// The views of a vector of payload fields, in order.
pub open spec fn fields_view(fields: Seq<PayloadField>) -> Seq<PayloadFieldView> {
    fields.map_values(|field: PayloadField| field@)
}

impl SensemakerRequest {
    /// The name of the cell's function that this call invokes.
    pub fn function_name(&self) -> (name: &'static str)
        ensures
            name@ == function_name_of(self@),
    {
        match self {
            SensemakerRequest::GetEntryByPath { .. } => "get_sensemaker_entry_by_path",
            SensemakerRequest::GetEntryByPathWithHh { .. } => "get_sensemaker_entry_by_path_with_hh",
            SensemakerRequest::InitializeSmData { .. } => "initialize_sm_data",
            SensemakerRequest::InitializeSmDataPath { .. } => "initialize_sm_data_path",
            SensemakerRequest::SetEntryParseRlExpr { .. } => "set_sensemaker_entry_parse_rl_expr",
            SensemakerRequest::StepSm { .. } => "step_sm",
            SensemakerRequest::StepSmPath { .. } => "step_sm_path",
        }
    }

    /// The arguments of this call as they are sent, by position.
    pub fn payload(&self) -> (fields: Vec<PayloadField>)
        ensures
            fields_view(fields@) == payload_of(self@),
    {
        let mut fields: Vec<PayloadField> = Vec::new();
        match self {
            SensemakerRequest::GetEntryByPath { path, tag } => {
                fields.push(PayloadField::Text(path.clone()));
                fields.push(PayloadField::Text(String::from_str(tag.as_str())));
            },
            SensemakerRequest::GetEntryByPathWithHh { path, tag } => {
                fields.push(PayloadField::Text(path.clone()));
                fields.push(PayloadField::Text(String::from_str(tag.as_str())));
            },
            SensemakerRequest::InitializeSmData { path, target } => {
                fields.push(PayloadField::Text(path.clone()));
                fields.push(PayloadField::Address(target.clone()));
            },
            SensemakerRequest::InitializeSmDataPath { path, address } => {
                fields.push(PayloadField::Text(path.clone()));
                fields.push(PayloadField::Text(address.clone()));
            },
            SensemakerRequest::SetEntryParseRlExpr { path, tag, expr } => {
                fields.push(PayloadField::Text(path.clone()));
                fields.push(PayloadField::Text(String::from_str(tag.as_str())));
                fields.push(PayloadField::Text(expr.clone()));
            },
            SensemakerRequest::StepSm { path, target, action } => {
                fields.push(PayloadField::Text(path.clone()));
                fields.push(PayloadField::Address(target.clone()));
                fields.push(PayloadField::Text(action.clone()));
            },
            SensemakerRequest::StepSmPath { path, address, action } => {
                fields.push(PayloadField::Text(path.clone()));
                fields.push(PayloadField::Text(address.clone()));
                fields.push(PayloadField::Text(action.clone()));
            },
        }
        assert(fields_view(fields@) =~= payload_of(self@));
        fields
    }
}

} // verus!
