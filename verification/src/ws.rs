//! The tagged commands that go to a conductor over its admin and app
//! websockets, and the tagged responses that come back. A response carries
//! the tag of the command it answers; its payload is a JavaScript value that
//! this library hands on without looking inside.
//!
//! What holds a JavaScript value can be moved, not copied: a second handle to
//! the value is JavaScript's to give, and outside a JavaScript host there is
//! none to ask.

use vstd::prelude::*;
use wasm_bindgen::JsValue;

verus! {

/// `wasm_bindgen::JsValue`, a handle to a value that lives in JavaScript.
/// Nothing is claimed of what it holds.
#[verifier::external_type_specification]
#[verifier::external_body]
pub struct ExJsValue(wasm_bindgen::JsValue);

/// The hash of a DNA, as the conductor gave it.
#[derive(Debug)]
pub struct DnaHash(pub JsValue);

/// The cell that a zome call goes to: the hash of its DNA and the key of its
/// agent, as the conductor gave them.
#[derive(Debug)]
pub struct CellId(pub JsValue, pub JsValue);

/// A command for the admin websocket. The variants stand in the order of the
/// client library's documentation.
#[derive(Clone, Debug)]
pub enum AdminWsCmd {
    AttachAppInterface { port: u16 },
    DisableApp { installed_app_id: String },
    EnableApp { installed_app_id: String },
    GenerateAgentPubKey,
    RegisterDna { path: String, uid: Option<String>, properties: Option<String> },
    UninstallApp { installed_app_id: String },
    ListDnas,
    ListCellIds,
    ListActiveApps,
}

/// The response to a command of the admin websocket.
#[derive(Debug)]
pub enum AdminWsCmdResponse {
    AttachAppInterface(JsValue),
    DisableApp(JsValue),
    EnableApp(JsValue),
    GenerateAgentPubKey(JsValue),
    RegisterDna(DnaHash),
    UninstallApp(JsValue),
    ListDnas(JsValue),
    ListCellIds(JsValue),
    ListActiveApps(JsValue),
}

/// A command for the app websocket.
#[derive(Debug)]
pub enum AppWsCmd {
    AppInfo { installed_app_id: String },
    CallZome {
        cell_id: CellId,
        zome_name: String,
        fn_name: String,
        payload: JsValue,
        provenance: JsValue,
        cap: String,
    },
}

/// The response to a command of the app websocket.
#[derive(Debug)]
pub enum AppWsCmdResponse {
    AppInfo(JsValue),
    CallZome(JsValue),
}

/// A response came under a tag that no command has.
#[derive(Debug)]
pub struct UnknownTag {
    pub tag: String,
}

/// The tag of a command of the admin websocket: the name of its variant.
pub open spec fn admin_tag(cmd: AdminWsCmd) -> Seq<char> {
    match cmd {
        AdminWsCmd::AttachAppInterface { .. } => "AttachAppInterface"@,
        AdminWsCmd::DisableApp { .. } => "DisableApp"@,
        AdminWsCmd::EnableApp { .. } => "EnableApp"@,
        AdminWsCmd::GenerateAgentPubKey => "GenerateAgentPubKey"@,
        AdminWsCmd::RegisterDna { .. } => "RegisterDna"@,
        AdminWsCmd::UninstallApp { .. } => "UninstallApp"@,
        AdminWsCmd::ListDnas => "ListDnas"@,
        AdminWsCmd::ListCellIds => "ListCellIds"@,
        AdminWsCmd::ListActiveApps => "ListActiveApps"@,
    }
}

/// The tag of a response of the admin websocket: the name of its variant.
pub open spec fn admin_response_tag(response: AdminWsCmdResponse) -> Seq<char> {
    match response {
        AdminWsCmdResponse::AttachAppInterface(_) => "AttachAppInterface"@,
        AdminWsCmdResponse::DisableApp(_) => "DisableApp"@,
        AdminWsCmdResponse::EnableApp(_) => "EnableApp"@,
        AdminWsCmdResponse::GenerateAgentPubKey(_) => "GenerateAgentPubKey"@,
        AdminWsCmdResponse::RegisterDna(_) => "RegisterDna"@,
        AdminWsCmdResponse::UninstallApp(_) => "UninstallApp"@,
        AdminWsCmdResponse::ListDnas(_) => "ListDnas"@,
        AdminWsCmdResponse::ListCellIds(_) => "ListCellIds"@,
        AdminWsCmdResponse::ListActiveApps(_) => "ListActiveApps"@,
    }
}

/// The payload that a response of the admin websocket carries.
pub open spec fn admin_response_payload(response: AdminWsCmdResponse) -> JsValue {
    match response {
        AdminWsCmdResponse::AttachAppInterface(val) => val,
        AdminWsCmdResponse::DisableApp(val) => val,
        AdminWsCmdResponse::EnableApp(val) => val,
        AdminWsCmdResponse::GenerateAgentPubKey(val) => val,
        AdminWsCmdResponse::RegisterDna(hash) => hash.0,
        AdminWsCmdResponse::UninstallApp(val) => val,
        AdminWsCmdResponse::ListDnas(val) => val,
        AdminWsCmdResponse::ListCellIds(val) => val,
        AdminWsCmdResponse::ListActiveApps(val) => val,
    }
}

/// Whether `tag` is the tag of a command of the admin websocket.
pub open spec fn is_admin_tag(tag: Seq<char>) -> bool {
    ||| tag == "AttachAppInterface"@
    ||| tag == "DisableApp"@
    ||| tag == "EnableApp"@
    ||| tag == "GenerateAgentPubKey"@
    ||| tag == "RegisterDna"@
    ||| tag == "UninstallApp"@
    ||| tag == "ListDnas"@
    ||| tag == "ListCellIds"@
    ||| tag == "ListActiveApps"@
}

/// The tag of a command of the app websocket: the name of its variant.
pub open spec fn app_tag(cmd: AppWsCmd) -> Seq<char> {
    match cmd {
        AppWsCmd::AppInfo { .. } => "AppInfo"@,
        AppWsCmd::CallZome { .. } => "CallZome"@,
    }
}

/// The tag of a response of the app websocket: the name of its variant.
pub open spec fn app_response_tag(response: AppWsCmdResponse) -> Seq<char> {
    match response {
        AppWsCmdResponse::AppInfo(_) => "AppInfo"@,
        AppWsCmdResponse::CallZome(_) => "CallZome"@,
    }
}

/// The payload that a response of the app websocket carries.
pub open spec fn app_response_payload(response: AppWsCmdResponse) -> JsValue {
    match response {
        AppWsCmdResponse::AppInfo(val) => val,
        AppWsCmdResponse::CallZome(val) => val,
    }
}

/// Whether `tag` is the tag of a command of the app websocket.
pub open spec fn is_app_tag(tag: Seq<char>) -> bool {
    tag == "AppInfo"@ || tag == "CallZome"@
}

/// `name` with its first letter in lower case, where it is an upper-case
/// letter: the form in which the client library names its methods.
pub open spec fn decapitalized(name: Seq<char>) -> Seq<char> {
    if name.len() > 0 && 'A' <= name[0] <= 'Z' {
        seq![(name[0] as int + 32) as char] + name.skip(1)
    } else {
        name
    }
}

/// The method of the client library that sends a command of the admin
/// websocket.
pub open spec fn admin_method(cmd: AdminWsCmd) -> Seq<char> {
    match cmd {
        AdminWsCmd::AttachAppInterface { .. } => "attachAppInterface"@,
        AdminWsCmd::DisableApp { .. } => "disableApp"@,
        AdminWsCmd::EnableApp { .. } => "enableApp"@,
        AdminWsCmd::GenerateAgentPubKey => "generateAgentPubKey"@,
        AdminWsCmd::RegisterDna { .. } => "registerDna"@,
        AdminWsCmd::UninstallApp { .. } => "uninstallApp"@,
        AdminWsCmd::ListDnas => "listDnas"@,
        AdminWsCmd::ListCellIds => "listCellIds"@,
        AdminWsCmd::ListActiveApps => "listActiveApps"@,
    }
}

/// The method of the client library that sends a command of the app
/// websocket.
pub open spec fn app_method(cmd: AppWsCmd) -> Seq<char> {
    match cmd {
        AppWsCmd::AppInfo { .. } => "appInfo"@,
        AppWsCmd::CallZome { .. } => "callZome"@,
    }
}

/// Whether `text` is the string `literal`.
fn is(text: &String, literal: &str) -> (same: bool)
    ensures
        same == (text@ == literal@),
{
    *text == String::from_str(literal)
}

impl AdminWsCmd {
    /// The tag under which the command is sent: the name of its variant.
    pub fn tag(&self) -> (tag: &'static str)
        ensures
            tag@ == admin_tag(*self),
    {
        match self {
            AdminWsCmd::AttachAppInterface { .. } => "AttachAppInterface",
            AdminWsCmd::DisableApp { .. } => "DisableApp",
            AdminWsCmd::EnableApp { .. } => "EnableApp",
            AdminWsCmd::GenerateAgentPubKey => "GenerateAgentPubKey",
            AdminWsCmd::RegisterDna { .. } => "RegisterDna",
            AdminWsCmd::UninstallApp { .. } => "UninstallApp",
            AdminWsCmd::ListDnas => "ListDnas",
            AdminWsCmd::ListCellIds => "ListCellIds",
            AdminWsCmd::ListActiveApps => "ListActiveApps",
        }
    }
}

impl AdminWsCmd {
    /// The method of the client library that sends the command.
    pub fn method_name(&self) -> (name: &'static str)
        ensures
            name@ == admin_method(*self),
    {
        match self {
            AdminWsCmd::AttachAppInterface { .. } => "attachAppInterface",
            AdminWsCmd::DisableApp { .. } => "disableApp",
            AdminWsCmd::EnableApp { .. } => "enableApp",
            AdminWsCmd::GenerateAgentPubKey => "generateAgentPubKey",
            AdminWsCmd::RegisterDna { .. } => "registerDna",
            AdminWsCmd::UninstallApp { .. } => "uninstallApp",
            AdminWsCmd::ListDnas => "listDnas",
            AdminWsCmd::ListCellIds => "listCellIds",
            AdminWsCmd::ListActiveApps => "listActiveApps",
        }
    }
}

impl AppWsCmd {
    /// The method of the client library that sends the command.
    pub fn method_name(&self) -> (name: &'static str)
        ensures
            name@ == app_method(*self),
    {
        match self {
            AppWsCmd::AppInfo { .. } => "appInfo",
            AppWsCmd::CallZome { .. } => "callZome",
        }
    }

    /// The tag under which the command is sent: the name of its variant.
    pub fn tag(&self) -> (tag: &'static str)
        ensures
            tag@ == app_tag(*self),
    {
        match self {
            AppWsCmd::AppInfo { .. } => "AppInfo",
            AppWsCmd::CallZome { .. } => "CallZome",
        }
    }
}

/// Reads a response of the admin websocket: the payload `val` under the
/// variant that `tag` names. A tag that no command has is an error, which
/// gives the tag back.
pub fn parse_admin_ws_cmd_response(val: JsValue, tag: String) -> (parsed: Result<
    AdminWsCmdResponse,
    UnknownTag,
>)
    ensures
        parsed is Ok <==> is_admin_tag(tag@),
        parsed is Ok ==> admin_response_tag(parsed->Ok_0) == tag@ && admin_response_payload(
            parsed->Ok_0,
        ) == val,
        parsed is Err ==> parsed->Err_0.tag == tag,
{
    if is(&tag, "AttachAppInterface") {
        Ok(AdminWsCmdResponse::AttachAppInterface(val))
    } else if is(&tag, "DisableApp") {
        Ok(AdminWsCmdResponse::DisableApp(val))
    } else if is(&tag, "EnableApp") {
        Ok(AdminWsCmdResponse::EnableApp(val))
    } else if is(&tag, "GenerateAgentPubKey") {
        Ok(AdminWsCmdResponse::GenerateAgentPubKey(val))
    } else if is(&tag, "RegisterDna") {
        Ok(AdminWsCmdResponse::RegisterDna(DnaHash(val)))
    } else if is(&tag, "UninstallApp") {
        Ok(AdminWsCmdResponse::UninstallApp(val))
    } else if is(&tag, "ListDnas") {
        Ok(AdminWsCmdResponse::ListDnas(val))
    } else if is(&tag, "ListCellIds") {
        Ok(AdminWsCmdResponse::ListCellIds(val))
    } else if is(&tag, "ListActiveApps") {
        Ok(AdminWsCmdResponse::ListActiveApps(val))
    } else {
        Err(UnknownTag { tag })
    }
}

/// Reads a response of the app websocket: the payload `val` under the
/// variant that `tag` names. A tag that no command has is an error, which
/// gives the tag back.
pub fn parse_app_ws_cmd_response(val: JsValue, tag: String) -> (parsed: Result<
    AppWsCmdResponse,
    UnknownTag,
>)
    ensures
        parsed is Ok <==> is_app_tag(tag@),
        parsed is Ok ==> app_response_tag(parsed->Ok_0) == tag@ && app_response_payload(
            parsed->Ok_0,
        ) == val,
        parsed is Err ==> parsed->Err_0.tag == tag,
{
    if is(&tag, "AppInfo") {
        Ok(AppWsCmdResponse::AppInfo(val))
    } else if is(&tag, "CallZome") {
        Ok(AppWsCmdResponse::CallZome(val))
    } else {
        Err(UnknownTag { tag })
    }
}

/// A response of the admin websocket is known by its tag and its payload:
/// no two variants share a tag.
pub proof fn lemma_admin_tag_names_one_response(one: AdminWsCmdResponse, other: AdminWsCmdResponse)
    requires
        admin_response_tag(one) == admin_response_tag(other),
        admin_response_payload(one) == admin_response_payload(other),
    ensures
        one == other,
{
    reveal_strlit("AttachAppInterface");
    reveal_strlit("DisableApp");
    reveal_strlit("EnableApp");
    reveal_strlit("GenerateAgentPubKey");
    reveal_strlit("RegisterDna");
    reveal_strlit("UninstallApp");
    reveal_strlit("ListDnas");
    reveal_strlit("ListCellIds");
    reveal_strlit("ListActiveApps");
    assert("AttachAppInterface"@.len() == 18);
    assert("DisableApp"@.len() == 10);
    assert("EnableApp"@.len() == 9);
    assert("GenerateAgentPubKey"@.len() == 19);
    assert("RegisterDna"@.len() == 11 && "RegisterDna"@[0] == 'R');
    assert("UninstallApp"@.len() == 12);
    assert("ListDnas"@.len() == 8);
    assert("ListCellIds"@.len() == 11 && "ListCellIds"@[0] == 'L');
    assert("ListActiveApps"@.len() == 14);
}

/// A response of the app websocket is known by its tag and its payload.
pub proof fn lemma_app_tag_names_one_response(one: AppWsCmdResponse, other: AppWsCmdResponse)
    requires
        app_response_tag(one) == app_response_tag(other),
        app_response_payload(one) == app_response_payload(other),
    ensures
        one == other,
{
    reveal_strlit("AppInfo");
    reveal_strlit("CallZome");
    assert("AppInfo"@.len() == 7);
    assert("CallZome"@.len() == 8);
}

/// The method that sends a command is named as the command's tag, with the
/// first letter in lower case.
pub proof fn lemma_method_is_the_tag_decapitalized(admin: AdminWsCmd, app: AppWsCmd)
    ensures
        admin_method(admin) == decapitalized(admin_tag(admin)),
        app_method(app) == decapitalized(app_tag(app)),
{
    reveal_strlit("AttachAppInterface");
    reveal_strlit("attachAppInterface");
    reveal_strlit("DisableApp");
    reveal_strlit("disableApp");
    reveal_strlit("EnableApp");
    reveal_strlit("enableApp");
    reveal_strlit("GenerateAgentPubKey");
    reveal_strlit("generateAgentPubKey");
    reveal_strlit("RegisterDna");
    reveal_strlit("registerDna");
    reveal_strlit("UninstallApp");
    reveal_strlit("uninstallApp");
    reveal_strlit("ListDnas");
    reveal_strlit("listDnas");
    reveal_strlit("ListCellIds");
    reveal_strlit("listCellIds");
    reveal_strlit("ListActiveApps");
    reveal_strlit("listActiveApps");
    reveal_strlit("AppInfo");
    reveal_strlit("appInfo");
    reveal_strlit("CallZome");
    reveal_strlit("callZome");
    assert(admin_method(admin) =~= decapitalized(admin_tag(admin)));
    assert(app_method(app) =~= decapitalized(app_tag(app)));
}

/// The tag of every command is the tag of a response, so the answer to a
/// command that was sent can always be read.
pub proof fn lemma_command_tags_are_known(admin: AdminWsCmd, app: AppWsCmd)
    ensures
        is_admin_tag(admin_tag(admin)),
        is_app_tag(app_tag(app)),
{
}

} // verus!
