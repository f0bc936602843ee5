//! The calls of the control plane: which call a request names, with which
//! arguments, and the plain answers that a call can have.

use vstd::prelude::*;
use crate::json::{
    empty_object, flag_of, integer_of, member_of, with_member, JsonDoc, JsonModel,
};
use crate::overrides::text_member;
use crate::rpc_types::{JsonRpcRequest, JsonRpcResponse};
use crate::text::{is_blank, owned_view, str_eq, trimmed};

verus! {

/// A call of the control plane with its arguments.
#[derive(Debug)]
#[allow(inconsistent_fields)]
pub enum RpcCall {
    Initialize,
    AccountList,
    AccountDelete { account_id: String },
    AccountUpdate { account_id: String, sort: i64 },
    LoginStart {
        login_type: String,
        open_browser: bool,
        note: Option<String>,
        tags: Option<String>,
        group_name: Option<String>,
        workspace_id: Option<String>,
    },
    LoginStatus { login_id: String },
    LoginComplete { state: String, code: String, redirect_uri: Option<String> },
    /// A login completion without its code or its state.
    LoginCompleteRejected,
    ApiKeyList,
    ApiKeyCreate {
        name: Option<String>,
        model_slug: Option<String>,
        reasoning_effort: Option<String>,
    },
    ApiKeyModels,
    ApiKeyUpdateModel { id: String, model_slug: Option<String>, reasoning_effort: Option<String> },
    ApiKeyDelete { id: String },
    ApiKeyDisable { id: String },
    ApiKeyEnable { id: String },
    UsageRead { account_id: Option<String> },
    UsageList,
    UsageRefresh { account_id: Option<String> },
    RequestLogList { query: Option<String>, limit: Option<i64> },
    RequestLogClear,
    Unknown,
}

/// The texts of a call.
#[allow(inconsistent_fields)]
pub enum RpcCallView {
    Initialize,
    AccountList,
    AccountDelete { account_id: Seq<char> },
    AccountUpdate { account_id: Seq<char>, sort: i64 },
    LoginStart {
        login_type: Seq<char>,
        open_browser: bool,
        note: Option<Seq<char>>,
        tags: Option<Seq<char>>,
        group_name: Option<Seq<char>>,
        workspace_id: Option<Seq<char>>,
    },
    LoginStatus { login_id: Seq<char> },
    LoginComplete { state: Seq<char>, code: Seq<char>, redirect_uri: Option<Seq<char>> },
    LoginCompleteRejected,
    ApiKeyList,
    ApiKeyCreate {
        name: Option<Seq<char>>,
        model_slug: Option<Seq<char>>,
        reasoning_effort: Option<Seq<char>>,
    },
    ApiKeyModels,
    ApiKeyUpdateModel {
        id: Seq<char>,
        model_slug: Option<Seq<char>>,
        reasoning_effort: Option<Seq<char>>,
    },
    ApiKeyDelete { id: Seq<char> },
    ApiKeyDisable { id: Seq<char> },
    ApiKeyEnable { id: Seq<char> },
    UsageRead { account_id: Option<Seq<char>> },
    UsageList,
    UsageRefresh { account_id: Option<Seq<char>> },
    RequestLogList { query: Option<Seq<char>>, limit: Option<i64> },
    RequestLogClear,
    Unknown,
}

impl View for RpcCall {
    type V = RpcCallView;

    open spec fn view(&self) -> RpcCallView {
        match *self {
            RpcCall::Initialize => RpcCallView::Initialize,
            RpcCall::AccountList => RpcCallView::AccountList,
            RpcCall::AccountDelete { account_id } => RpcCallView::AccountDelete {
                account_id: account_id@,
            },
            RpcCall::AccountUpdate { account_id, sort } => RpcCallView::AccountUpdate {
                account_id: account_id@,
                sort,
            },
            RpcCall::LoginStart { login_type, open_browser, note, tags, group_name, workspace_id } => {
                RpcCallView::LoginStart {
                    login_type: login_type@,
                    open_browser,
                    note: owned_view(note),
                    tags: owned_view(tags),
                    group_name: owned_view(group_name),
                    workspace_id: owned_view(workspace_id),
                }
            },
            RpcCall::LoginStatus { login_id } => RpcCallView::LoginStatus { login_id: login_id@ },
            RpcCall::LoginComplete { state, code, redirect_uri } => RpcCallView::LoginComplete {
                state: state@,
                code: code@,
                redirect_uri: owned_view(redirect_uri),
            },
            RpcCall::LoginCompleteRejected => RpcCallView::LoginCompleteRejected,
            RpcCall::ApiKeyList => RpcCallView::ApiKeyList,
            RpcCall::ApiKeyCreate { name, model_slug, reasoning_effort } => {
                RpcCallView::ApiKeyCreate {
                    name: owned_view(name),
                    model_slug: owned_view(model_slug),
                    reasoning_effort: owned_view(reasoning_effort),
                }
            },
            RpcCall::ApiKeyModels => RpcCallView::ApiKeyModels,
            RpcCall::ApiKeyUpdateModel { id, model_slug, reasoning_effort } => {
                RpcCallView::ApiKeyUpdateModel {
                    id: id@,
                    model_slug: owned_view(model_slug),
                    reasoning_effort: owned_view(reasoning_effort),
                }
            },
            RpcCall::ApiKeyDelete { id } => RpcCallView::ApiKeyDelete { id: id@ },
            RpcCall::ApiKeyDisable { id } => RpcCallView::ApiKeyDisable { id: id@ },
            RpcCall::ApiKeyEnable { id } => RpcCallView::ApiKeyEnable { id: id@ },
            RpcCall::UsageRead { account_id } => RpcCallView::UsageRead {
                account_id: owned_view(account_id),
            },
            RpcCall::UsageList => RpcCallView::UsageList,
            RpcCall::UsageRefresh { account_id } => RpcCallView::UsageRefresh {
                account_id: owned_view(account_id),
            },
            RpcCall::RequestLogList { query, limit } => RpcCallView::RequestLogList {
                query: owned_view(query),
                limit,
            },
            RpcCall::RequestLogClear => RpcCallView::RequestLogClear,
            RpcCall::Unknown => RpcCallView::Unknown,
        }
    }
}

/// The text argument of a call under a name: the string that the arguments
/// hold there, if they hold one.
pub open spec fn text_arg(params: Option<JsonModel>, name: Seq<char>) -> Option<Seq<char>> {
    match params {
        Some(doc) => text_member(doc, name),
        None => None,
    }
}

/// The integer argument of a call under a name.
pub open spec fn integer_arg(params: Option<JsonModel>, name: Seq<char>) -> Option<i64> {
    match params {
        Some(doc) => match member_of(doc, name) {
            Some(member) => integer_of(member),
            None => None,
        },
        None => None,
    }
}

/// The truth-value argument of a call under a name.
pub open spec fn flag_arg(params: Option<JsonModel>, name: Seq<char>) -> Option<bool> {
    match params {
        Some(doc) => match member_of(doc, name) {
            Some(member) => flag_of(member),
            None => None,
        },
        None => None,
    }
}

/// What the arguments of a request hold.
pub open spec fn params_view(params: Option<&JsonDoc>) -> Option<JsonModel> {
    match params {
        Some(doc) => Some(doc@),
        None => None,
    }
}

/// A text argument, or the given text where it is missing.
pub open spec fn text_or(value: Option<Seq<char>>, otherwise: Seq<char>) -> Seq<char> {
    match value {
        Some(text) => text,
        None => otherwise,
    }
}

/// A text argument unless it is blank.
pub open spec fn unless_blank(value: Option<Seq<char>>) -> Option<Seq<char>> {
    match value {
        Some(text) => if trimmed(text).len() == 0 {
            None
        } else {
            Some(text)
        },
        None => None,
    }
}

fn read_text_arg(params: Option<&JsonDoc>, name: &str) -> (out: Option<String>)
    ensures
        owned_view(out) == text_arg(params_view(params), name@),
{
    match params {
        Some(doc) => match doc.member(name) {
            Some(member) => match member.as_text() {
                Some(text) => Some(text.to_string()),
                None => None,
            },
            None => None,
        },
        None => None,
    }
}

fn read_integer_arg(params: Option<&JsonDoc>, name: &str) -> (out: Option<i64>)
    ensures
        out == integer_arg(params_view(params), name@),
{
    match params {
        Some(doc) => match doc.member(name) {
            Some(member) => member.as_integer(),
            None => None,
        },
        None => None,
    }
}

fn read_flag_arg(params: Option<&JsonDoc>, name: &str) -> (out: Option<bool>)
    ensures
        out == flag_arg(params_view(params), name@),
{
    match params {
        Some(doc) => match doc.member(name) {
            Some(member) => member.as_flag(),
            None => None,
        },
        None => None,
    }
}

fn text_or_empty(value: Option<String>) -> (out: String)
    ensures
        out@ == text_or(owned_view(value), Seq::empty()),
{
    match value {
        Some(text) => text,
        None => String::new(),
    }
}

/// The call that a method name and its arguments stand for. A missing text
/// argument that a call needs is the empty text; a login starts as a
/// `chatgpt` login that opens the browser unless the arguments say
/// otherwise, and its workspace counts only where it is not blank; a login
/// completion without a code or a state is rejected; a method that the
/// control plane does not know is `Unknown`.
pub open spec fn rpc_call_of(method: Seq<char>, params: Option<JsonModel>) -> RpcCallView {
    if method == "initialize"@ {
        RpcCallView::Initialize
    } else if method == "account/list"@ {
        RpcCallView::AccountList
    } else if method == "account/delete"@ {
        RpcCallView::AccountDelete {
            account_id: text_or(text_arg(params, "accountId"@), Seq::empty()),
        }
    } else if method == "account/update"@ {
        RpcCallView::AccountUpdate {
            account_id: text_or(text_arg(params, "accountId"@), Seq::empty()),
            sort: match integer_arg(params, "sort"@) {
                Some(n) => n,
                None => 0,
            },
        }
    } else if method == "account/login/start"@ {
        RpcCallView::LoginStart {
            login_type: text_or(text_arg(params, "type"@), "chatgpt"@),
            open_browser: match flag_arg(params, "openBrowser"@) {
                Some(flag) => flag,
                None => true,
            },
            note: text_arg(params, "note"@),
            tags: text_arg(params, "tags"@),
            group_name: text_arg(params, "groupName"@),
            workspace_id: unless_blank(text_arg(params, "workspaceId"@)),
        }
    } else if method == "account/login/status"@ {
        RpcCallView::LoginStatus { login_id: text_or(text_arg(params, "loginId"@), Seq::empty()) }
    } else if method == "account/login/complete"@ {
        let state = text_or(text_arg(params, "state"@), Seq::empty());
        let code = text_or(text_arg(params, "code"@), Seq::empty());
        if state.len() == 0 || code.len() == 0 {
            RpcCallView::LoginCompleteRejected
        } else {
            RpcCallView::LoginComplete {
                state,
                code,
                redirect_uri: text_arg(params, "redirectUri"@),
            }
        }
    } else if method == "apikey/list"@ {
        RpcCallView::ApiKeyList
    } else if method == "apikey/create"@ {
        RpcCallView::ApiKeyCreate {
            name: text_arg(params, "name"@),
            model_slug: text_arg(params, "modelSlug"@),
            reasoning_effort: text_arg(params, "reasoningEffort"@),
        }
    } else if method == "apikey/models"@ {
        RpcCallView::ApiKeyModels
    } else if method == "apikey/updateModel"@ {
        RpcCallView::ApiKeyUpdateModel {
            id: text_or(text_arg(params, "id"@), Seq::empty()),
            model_slug: text_arg(params, "modelSlug"@),
            reasoning_effort: text_arg(params, "reasoningEffort"@),
        }
    } else if method == "apikey/delete"@ {
        RpcCallView::ApiKeyDelete { id: text_or(text_arg(params, "id"@), Seq::empty()) }
    } else if method == "apikey/disable"@ {
        RpcCallView::ApiKeyDisable { id: text_or(text_arg(params, "id"@), Seq::empty()) }
    } else if method == "account/usage/read"@ {
        RpcCallView::UsageRead { account_id: text_arg(params, "accountId"@) }
    } else if method == "account/usage/list"@ {
        RpcCallView::UsageList
    } else if method == "requestlog/list"@ {
        RpcCallView::RequestLogList {
            query: text_arg(params, "query"@),
            limit: integer_arg(params, "limit"@),
        }
    } else if method == "requestlog/clear"@ {
        RpcCallView::RequestLogClear
    } else if method == "apikey/enable"@ {
        RpcCallView::ApiKeyEnable { id: text_or(text_arg(params, "id"@), Seq::empty()) }
    } else if method == "account/usage/refresh"@ {
        RpcCallView::UsageRefresh { account_id: text_arg(params, "accountId"@) }
    } else {
        RpcCallView::Unknown
    }
}

/// Reads the call that a method name and its arguments stand for.
pub fn resolve_rpc_call(method: &str, params: Option<&JsonDoc>) -> (out: RpcCall)
    ensures
        out@ == rpc_call_of(method@, params_view(params)),
{
    if str_eq(method, "initialize") {
        RpcCall::Initialize
    } else if str_eq(method, "account/list") {
        RpcCall::AccountList
    } else if str_eq(method, "account/delete") {
        RpcCall::AccountDelete { account_id: text_or_empty(read_text_arg(params, "accountId")) }
    } else if str_eq(method, "account/update") {
        let account_id = text_or_empty(read_text_arg(params, "accountId"));
        let sort = match read_integer_arg(params, "sort") {
            Some(n) => n,
            None => 0,
        };
        RpcCall::AccountUpdate { account_id, sort }
    } else if str_eq(method, "account/login/start") {
        let login_type = match read_text_arg(params, "type") {
            Some(text) => text,
            None => "chatgpt".to_string(),
        };
        let open_browser = match read_flag_arg(params, "openBrowser") {
            Some(flag) => flag,
            None => true,
        };
        let note = read_text_arg(params, "note");
        let tags = read_text_arg(params, "tags");
        let group_name = read_text_arg(params, "groupName");
        let workspace_id = match read_text_arg(params, "workspaceId") {
            Some(text) => if is_blank(text.as_str()) {
                None
            } else {
                Some(text)
            },
            None => None,
        };
        RpcCall::LoginStart { login_type, open_browser, note, tags, group_name, workspace_id }
    } else if str_eq(method, "account/login/status") {
        RpcCall::LoginStatus { login_id: text_or_empty(read_text_arg(params, "loginId")) }
    } else if str_eq(method, "account/login/complete") {
        let state = text_or_empty(read_text_arg(params, "state"));
        let code = text_or_empty(read_text_arg(params, "code"));
        if state.as_str().is_empty() || code.as_str().is_empty() {
            RpcCall::LoginCompleteRejected
        } else {
            RpcCall::LoginComplete { state, code, redirect_uri: read_text_arg(params, "redirectUri") }
        }
    } else if str_eq(method, "apikey/list") {
        RpcCall::ApiKeyList
    } else if str_eq(method, "apikey/create") {
        RpcCall::ApiKeyCreate {
            name: read_text_arg(params, "name"),
            model_slug: read_text_arg(params, "modelSlug"),
            reasoning_effort: read_text_arg(params, "reasoningEffort"),
        }
    } else if str_eq(method, "apikey/models") {
        RpcCall::ApiKeyModels
    } else if str_eq(method, "apikey/updateModel") {
        RpcCall::ApiKeyUpdateModel {
            id: text_or_empty(read_text_arg(params, "id")),
            model_slug: read_text_arg(params, "modelSlug"),
            reasoning_effort: read_text_arg(params, "reasoningEffort"),
        }
    } else if str_eq(method, "apikey/delete") {
        RpcCall::ApiKeyDelete { id: text_or_empty(read_text_arg(params, "id")) }
    } else if str_eq(method, "apikey/disable") {
        RpcCall::ApiKeyDisable { id: text_or_empty(read_text_arg(params, "id")) }
    } else if str_eq(method, "account/usage/read") {
        RpcCall::UsageRead { account_id: read_text_arg(params, "accountId") }
    } else if str_eq(method, "account/usage/list") {
        RpcCall::UsageList
    } else if str_eq(method, "requestlog/list") {
        RpcCall::RequestLogList {
            query: read_text_arg(params, "query"),
            limit: read_integer_arg(params, "limit"),
        }
    } else if str_eq(method, "requestlog/clear") {
        RpcCall::RequestLogClear
    } else if str_eq(method, "apikey/enable") {
        RpcCall::ApiKeyEnable { id: text_or_empty(read_text_arg(params, "id")) }
    } else if str_eq(method, "account/usage/refresh") {
        RpcCall::UsageRefresh { account_id: read_text_arg(params, "accountId") }
    } else {
        RpcCall::Unknown
    }
}

/// The call that a request of the control plane stands for.
pub fn handle_request(req: &JsonRpcRequest) -> (out: RpcCall)
    ensures
        out@ == rpc_call_of(
            req.method@,
            match req.params {
                Some(doc) => Some(doc@),
                None => None,
            },
        ),
{
    let params = match &req.params {
        Some(doc) => Some(doc),
        None => None,
    };
    resolve_rpc_call(req.method.as_str(), params)
}

/// The plain answer to a call by its outcome: an object with `ok`, which
/// says whether the call succeeded, and after a failure the error under
/// `error`.
pub open spec fn outcome_model(outcome: Result<(), Seq<char>>) -> JsonModel {
    match outcome {
        Ok(_) => with_member(empty_object(), "ok"@, JsonModel::Bool(true)),
        Err(error) => with_member(
            with_member(empty_object(), "ok"@, JsonModel::Bool(false)),
            "error"@,
            JsonModel::Text(error),
        ),
    }
}

/// The answer that carries nothing but an error: an object with the error
/// under `error`.
pub open spec fn error_model(error: Seq<char>) -> JsonModel {
    with_member(empty_object(), "error"@, JsonModel::Text(error))
}

/// The plain answer to a call by its outcome.
pub fn outcome_answer(outcome: &Result<(), String>) -> (out: JsonDoc)
    ensures
        out@ == outcome_model(
            match *outcome {
                Ok(_) => Ok(()),
                Err(error) => Err(error@),
            },
        ),
{
    match outcome {
        Ok(_) => JsonDoc::object().with("ok", JsonDoc::Bool(true)),
        Err(error) => JsonDoc::object().with("ok", JsonDoc::Bool(false)).with(
            "error",
            JsonDoc::text(error.as_str()),
        ),
    }
}

/// The answer that carries nothing but an error.
pub fn error_answer(error: &str) -> (out: JsonDoc)
    ensures
        out@ == error_model(error@),
{
    JsonDoc::object().with("error", JsonDoc::text(error))
}

/// The answer to a call that the control plane does not know.
pub fn unknown_method_answer() -> (out: JsonDoc)
    ensures
        out@ == error_model("unknown_method"@),
{
    error_answer("unknown_method")
}

/// The answer to a login completion without its code or its state.
pub fn login_rejected_answer() -> (out: JsonDoc)
    ensures
        out@ == outcome_model(Err("missing code/state"@)),
{
    outcome_answer(&Err("missing code/state".to_string()))
}

/// The response to a request: its id with the result.
pub fn respond_to(req: &JsonRpcRequest, result: JsonDoc) -> (out: JsonRpcResponse)
    ensures
        out.id == req.id,
        out.result == result,
{
    JsonRpcResponse { id: req.id, result }
}

} // verus!
