//! The headers that the gateway sends upstream and hands back to its
//! client.

use vstd::prelude::*;
use vstd::string::StringExecFns;
use crate::records::Account;
use crate::text::{
    chars_of, eq_ignore_case, has_prefix, is_blank, is_prefix_of, lower, lower_between,
    str_eq_ignore_case, trimmed,
};

verus! {

/// A header that is never sent upstream: the client's own credentials, the
/// headers of its connection, the account header of an earlier session, and
/// the fingerprint headers of client libraries.
pub open spec fn is_dropped(name: Seq<char>) -> bool {
    ||| eq_ignore_case(name, "Authorization"@)
    ||| eq_ignore_case(name, "x-api-key"@)
    ||| eq_ignore_case(name, "Host"@)
    ||| eq_ignore_case(name, "Content-Length"@)
    ||| is_prefix_of("anthropic-"@, lower(name))
    ||| is_prefix_of("x-stainless-"@, lower(name))
    ||| eq_ignore_case(name, "ChatGPT-Account-Id"@)
}

/// A header that ties a conversation to one upstream account.
pub open spec fn is_session_affinity(name: Seq<char>) -> bool {
    eq_ignore_case(name, "session_id"@) || eq_ignore_case(name, "x-codex-turn-state"@)
}

/// A header that is not sent on an attempt: the session headers go as well
/// once the gateway has left the first account.
pub open spec fn is_dropped_on(name: Seq<char>, failover: bool) -> bool {
    is_dropped(name) || (failover && is_session_affinity(name))
}

/// Whether an incoming header is kept from every upstream request.
pub fn should_drop_incoming_header(name: &str) -> (out: bool)
    ensures
        out == is_dropped(name@),
{
    let chars = chars_of(name);
    let lowered = lower_between(chars.as_slice(), 0, chars.len());
    assert(chars@.subrange(0, chars@.len() as int) == chars@);
    let anthropic = chars_of("anthropic-");
    let stainless = chars_of("x-stainless-");
    str_eq_ignore_case(name, "Authorization") || str_eq_ignore_case(name, "x-api-key")
        || str_eq_ignore_case(name, "Host") || str_eq_ignore_case(name, "Content-Length")
        || has_prefix(lowered.as_slice(), anthropic.as_slice()) || has_prefix(
        lowered.as_slice(),
        stainless.as_slice(),
    ) || str_eq_ignore_case(name, "ChatGPT-Account-Id")
}

/// Whether an incoming header ties the conversation to an account.
pub fn should_drop_session_affinity_header(name: &str) -> (out: bool)
    ensures
        out == is_session_affinity(name@),
{
    str_eq_ignore_case(name, "session_id") || str_eq_ignore_case(name, "x-codex-turn-state")
}

/// Whether an incoming header is kept from a request to a later candidate.
pub fn should_drop_incoming_header_for_failover(name: &str) -> (out: bool)
    ensures
        out == is_dropped_on(name@, true),
{
    should_drop_incoming_header(name) || should_drop_session_affinity_header(name)
}

/// The fingerprint headers of client libraries are dropped on every
/// attempt.
pub proof fn lemma_fingerprint_headers_always_dropped(name: Seq<char>, failover: bool)
    requires
        is_prefix_of("anthropic-"@, lower(name)) || is_prefix_of("x-stainless-"@, lower(name)),
    ensures
        is_dropped_on(name, failover),
{
}

/// What is dropped on the first attempt is dropped on every later one.
pub proof fn lemma_failover_drops_no_less(name: Seq<char>)
    requires
        is_dropped_on(name, false),
    ensures
        is_dropped_on(name, true),
{
}

/// A session header goes upstream with the first attempt and is held back
/// from every later one.
pub proof fn lemma_session_headers_kept_on_first_attempt(name: Seq<char>)
    requires
        is_session_affinity(name),
    ensures
        !is_dropped_on(name, false),
        is_dropped_on(name, true),
{
    reveal_strlit("session_id");
    reveal_strlit("x-codex-turn-state");
    reveal_strlit("Authorization");
    reveal_strlit("x-api-key");
    reveal_strlit("Host");
    reveal_strlit("Content-Length");
    reveal_strlit("ChatGPT-Account-Id");
    reveal_strlit("anthropic-");
    reveal_strlit("x-stainless-");
    let l = lower(name);
    assert(l.len() == name.len());
    if eq_ignore_case(name, "session_id"@) {
        assert(l == lower("session_id"@));
        assert(l.len() == 10);
        assert(l[0] == lower("session_id"@)[0]);
        assert(l[0] == 's');
    } else {
        assert(l == lower("x-codex-turn-state"@));
        assert(l.len() == 18);
        assert(l[0] == lower("x-codex-turn-state"@)[0]);
        assert(l[2] == lower("x-codex-turn-state"@)[2]);
        assert(l[0] == 'x' && l[2] == 'c');
    }
    assert(lower("Authorization"@).len() == 13);
    assert(lower("x-api-key"@).len() == 9);
    assert(lower("Host"@).len() == 4);
    assert(lower("Content-Length"@).len() == 14);
    assert(lower("ChatGPT-Account-Id"@).len() == 18);
    assert(lower("ChatGPT-Account-Id"@)[0] == 'c');
    if is_prefix_of("anthropic-"@, l) {
        assert(l.subrange(0, 10)[0] == 'a');
    }
    if is_prefix_of("x-stainless-"@, l) {
        assert(l.subrange(0, 12)[0] == 'x');
        assert(l.subrange(0, 12)[2] == 's');
    }
}

/// A character of an HTTP token: a letter, a digit, or one of
/// ``!#$%&'*+-.^_`|~``.
pub open spec fn is_token_char(c: char) -> bool {
    let n = c as u32;
    n == 33 || (35 <= n && n <= 39) || n == 42 || n == 43 || n == 45 || n == 46 || (48 <= n && n
        <= 57) || (65 <= n && n <= 90) || (94 <= n && n <= 122) || n == 124 || n == 126
}

/// All characters are token characters.
pub open spec fn is_token(text: Seq<char>) -> bool {
    forall|i: int| 0 <= i < text.len() ==> is_token_char(#[trigger] text[i])
}

/// The longest header name, in bytes.
pub const MAX_HEADER_NAME_LEN: usize = 65535;

/// A text that may stand as a header name: a token that is not empty and
/// not longer than the longest name.
pub open spec fn is_header_name(name: Seq<char>) -> bool {
    1 <= name.len() <= MAX_HEADER_NAME_LEN && is_token(name)
}

/// A text that may stand as a request method: a token that is not empty.
pub open spec fn is_method_text(method: Seq<char>) -> bool {
    1 <= method.len() && is_token(method)
}

/// A character that may stand in a header value: a tab, or any character
/// from the space on but DEL.
pub open spec fn is_value_char(c: char) -> bool {
    c == '\t' || (c >= ' ' && c != '\x7f')
}

/// A text that may stand as a header value.
pub open spec fn is_header_value(value: Seq<char>) -> bool {
    forall|i: int| 0 <= i < value.len() ==> is_value_char(#[trigger] value[i])
}

/// `HeaderName::from_bytes` of the `http` crate, as `reqwest` hands it on:
/// it takes one to 65535 bytes that are all token characters, which is to say
/// a text of so many such characters.
#[verifier::external_body]
pub(crate) fn header_name_accepted(name: &str) -> (out: bool)
    ensures
        out == is_header_name(name@),
{
    reqwest::header::HeaderName::from_bytes(name.as_bytes()).is_ok()
}

/// `HeaderValue::from_str` of the `http` crate, as `reqwest` hands it on:
/// it takes a text whose bytes are all a tab or at least 32 and not 127,
/// which is to say a text of such characters.
#[verifier::external_body]
pub(crate) fn header_value_accepted(value: &str) -> (out: bool)
    ensures
        out == is_header_value(value@),
{
    reqwest::header::HeaderValue::from_str(value).is_ok()
}

/// `Method::from_bytes` of the `http` crate, as `reqwest` hands it on: it
/// takes one or more bytes that are all token characters, which is to say a
/// text of such characters that is not empty.
#[verifier::external_body]
pub(crate) fn method_accepted(method: &str) -> (out: bool)
    ensures
        out == is_method_text(method@),
{
    reqwest::Method::from_bytes(method.as_bytes()).is_ok()
}

/// `Header::from_bytes` of `tiny_http`: it takes a name and a value that
/// hold ASCII only.
#[verifier::external_body]
pub(crate) fn response_header_accepted(name: &str, value: &[u8]) -> (out: bool)
    ensures
        out == (is_ascii_text(name@) && is_ascii_bytes(value@)),
{
    tiny_http::Header::from_bytes(name.as_bytes(), value).is_ok()
}

/// All characters are ASCII.
pub open spec fn is_ascii_text(text: Seq<char>) -> bool {
    forall|i: int| 0 <= i < text.len() ==> (#[trigger] text[i]) as u32 <= 127
}

/// All bytes are below 128.
pub open spec fn is_ascii_bytes(bytes: Seq<u8>) -> bool {
    forall|i: int| 0 <= i < bytes.len() ==> (#[trigger] bytes[i]) < 128
}

/// The texts of a list of headers.
pub open spec fn pairs_view(headers: Seq<(String, String)>) -> Seq<(Seq<char>, Seq<char>)> {
    headers.map_values(|h: (String, String)| (h.0@, h.1@))
}

/// An incoming header is sent on when it is not dropped and both its name
/// and its value can stand in an upstream request.
pub open spec fn is_forwarded(name: Seq<char>, value: Seq<char>, failover: bool) -> bool {
    !is_dropped_on(name, failover) && is_header_name(name) && is_header_value(value)
}

/// The headers among the first `n` incoming ones that are sent on, in order.
pub open spec fn forwarded_upto(
    incoming: Seq<(Seq<char>, Seq<char>)>,
    failover: bool,
    n: int,
) -> Seq<(Seq<char>, Seq<char>)>
    decreases n,
{
    if n <= 0 {
        Seq::empty()
    } else {
        let rest = forwarded_upto(incoming, failover, n - 1);
        let h = incoming[n - 1];
        if is_forwarded(h.0, h.1, failover) {
            rest.push(h)
        } else {
            rest
        }
    }
}

/// One of the incoming headers that are not dropped has the given name, up
/// to ASCII case.
pub open spec fn names_header(
    incoming: Seq<(Seq<char>, Seq<char>)>,
    failover: bool,
    name: Seq<char>,
) -> bool {
    exists|i: int|
        0 <= i < incoming.len() && !is_dropped_on((#[trigger] incoming[i]).0, failover)
            && eq_ignore_case(incoming[i].0, name)
}

/// What the gateway adds to the headers that it sends on: a default user
/// agent where the client named none, the configured cookie unless it is
/// blank, the bearer, the upstream account where it is known, and for a
/// streamed request the event-stream accept hint where the client accepts
/// nothing by name.
pub open spec fn added_headers(
    incoming: Seq<(Seq<char>, Seq<char>)>,
    auth_token: Seq<char>,
    account_id: Option<Seq<char>>,
    upstream_cookie: Option<Seq<char>>,
    failover: bool,
    is_stream: bool,
) -> Seq<(Seq<char>, Seq<char>)> {
    let agent = if names_header(incoming, failover, "User-Agent"@) {
        Seq::empty()
    } else {
        seq![("User-Agent"@, "codex-cli"@)]
    };
    let cookie = match upstream_cookie {
        Some(text) => if trimmed(text).len() == 0 {
            Seq::empty()
        } else {
            seq![("Cookie"@, text)]
        },
        None => Seq::empty(),
    };
    let bearer = seq![("Authorization"@, "Bearer "@ + auth_token)];
    let account = match account_id {
        Some(id) => seq![("ChatGPT-Account-Id"@, id)],
        None => Seq::empty(),
    };
    let accept = if is_stream && !names_header(incoming, failover, "Accept"@) {
        seq![("Accept"@, "text/event-stream"@)]
    } else {
        Seq::empty()
    };
    agent + cookie + bearer + account + accept
}

/// The headers of an upstream request: the incoming headers that are sent
/// on, then what the gateway adds.
pub open spec fn upstream_headers(
    incoming: Seq<(Seq<char>, Seq<char>)>,
    auth_token: Seq<char>,
    account_id: Option<Seq<char>>,
    upstream_cookie: Option<Seq<char>>,
    failover: bool,
    is_stream: bool,
) -> Seq<(Seq<char>, Seq<char>)> {
    forwarded_upto(incoming, failover, incoming.len() as int) + added_headers(
        incoming,
        auth_token,
        account_id,
        upstream_cookie,
        failover,
        is_stream,
    )
}

/// The view of an optional text.
pub open spec fn text_view(text: Option<&str>) -> Option<Seq<char>> {
    match text {
        Some(t) => Some(t@),
        None => None,
    }
}

/// The upstream-side id of an account: its account id, or else its
/// workspace id.
pub fn upstream_account_id(account: &Account) -> (out: Option<&str>)
    ensures
        text_view(out) == match account.chatgpt_account_id {
            Some(id) => Some(id@),
            None => match account.workspace_id {
                Some(id) => Some(id@),
                None => None,
            },
        },
{
    match &account.chatgpt_account_id {
        Some(id) => Some(id.as_str()),
        None => match &account.workspace_id {
            Some(id) => Some(id.as_str()),
            None => None,
        },
    }
}

fn dropped_on(name: &str, failover: bool) -> (out: bool)
    ensures
        out == is_dropped_on(name@, failover),
{
    if failover {
        should_drop_incoming_header_for_failover(name)
    } else {
        should_drop_incoming_header(name)
    }
}

fn push_header(out: &mut Vec<(String, String)>, name: &str, value: &str)
    ensures
        pairs_view(final(out)@) == pairs_view(old(out)@).push((name@, value@)),
{
    out.push((name.to_string(), value.to_string()));
    assert(pairs_view(out@) =~= pairs_view(old(out)@).push((name@, value@)));
}

/// Builds the headers of an upstream request from the incoming ones.
pub fn build_upstream_headers(
    incoming: &Vec<(String, String)>,
    auth_token: &str,
    account_id: Option<&str>,
    upstream_cookie: Option<&str>,
    strip_session_affinity: bool,
    is_stream: bool,
) -> (out: Vec<(String, String)>)
    ensures
        pairs_view(out@) == upstream_headers(
            pairs_view(incoming@),
            auth_token@,
            text_view(account_id),
            text_view(upstream_cookie),
            strip_session_affinity,
            is_stream,
        ),
{
    let ghost source = pairs_view(incoming@);
    let failover = strip_session_affinity;
    let mut out: Vec<(String, String)> = Vec::new();
    let mut has_user_agent = false;
    let mut has_accept = false;
    let mut i: usize = 0;
    assert(pairs_view(out@) =~= forwarded_upto(source, failover, 0));
    while i < incoming.len()
        invariant
            i <= incoming.len(),
            source == pairs_view(incoming@),
            failover == strip_session_affinity,
            pairs_view(out@) == forwarded_upto(source, failover, i as int),
            has_user_agent == (exists|k: int|
                0 <= k < i && !is_dropped_on((#[trigger] source[k]).0, failover) && eq_ignore_case(
                    source[k].0,
                    "User-Agent"@,
                )),
            has_accept == (exists|k: int|
                0 <= k < i && !is_dropped_on((#[trigger] source[k]).0, failover) && eq_ignore_case(
                    source[k].0,
                    "Accept"@,
                )),
        decreases incoming.len() - i,
    {
        let name = incoming[i].0.as_str();
        let value = incoming[i].1.as_str();
        assert(source[i as int] == (name@, value@));
        if !dropped_on(name, failover) {
            if str_eq_ignore_case(name, "User-Agent") {
                has_user_agent = true;
            }
            if str_eq_ignore_case(name, "Accept") {
                has_accept = true;
            }
            if header_name_accepted(name) && header_value_accepted(value) {
                push_header(&mut out, name, value);
            }
        }
        i += 1;
    }
    let ghost kept = pairs_view(out@);
    if !has_user_agent {
        push_header(&mut out, "User-Agent", "codex-cli");
    }
    if let Some(cookie) = upstream_cookie {
        if !is_blank(cookie) {
            push_header(&mut out, "Cookie", cookie);
        }
    }
    let mut bearer = "Bearer ".to_string();
    bearer.append(auth_token);
    push_header(&mut out, "Authorization", bearer.as_str());
    if let Some(id) = account_id {
        push_header(&mut out, "ChatGPT-Account-Id", id);
    }
    if is_stream && !has_accept {
        push_header(&mut out, "Accept", "text/event-stream");
    }
    assert(pairs_view(out@) =~= kept + added_headers(
        source,
        auth_token@,
        text_view(account_id),
        text_view(upstream_cookie),
        failover,
        is_stream,
    ));
    out
}

/// How an upstream answer is turned into the answer to the client.
#[derive(Debug, Clone, Copy, PartialEq, Eq, Structural)]
pub enum ResponseAdapter {
    Passthrough,
    AnthropicJson,
    AnthropicSse,
}

/// A header of the upstream answer that the gateway does not hand back:
/// those of the upstream connection, and the content type where the body is
/// converted.
pub open spec fn is_withheld(name: Seq<char>, adapter: ResponseAdapter) -> bool {
    ||| eq_ignore_case(name, "transfer-encoding"@)
    ||| eq_ignore_case(name, "content-length"@)
    ||| eq_ignore_case(name, "connection"@)
    ||| (adapter != ResponseAdapter::Passthrough && eq_ignore_case(name, "content-type"@))
}

/// The texts and bytes of a list of answer headers.
pub open spec fn response_view(headers: Seq<(String, Vec<u8>)>) -> Seq<(Seq<char>, Seq<u8>)> {
    headers.map_values(|h: (String, Vec<u8>)| (h.0@, h.1@))
}

/// The headers among the first `n` of the upstream answer that are handed
/// back: those not withheld whose name and value are ASCII.
pub open spec fn returned_upto(
    upstream: Seq<(Seq<char>, Seq<u8>)>,
    adapter: ResponseAdapter,
    n: int,
) -> Seq<(Seq<char>, Seq<u8>)>
    decreases n,
{
    if n <= 0 {
        Seq::empty()
    } else {
        let rest = returned_upto(upstream, adapter, n - 1);
        let h = upstream[n - 1];
        if !is_withheld(h.0, adapter) && is_ascii_text(h.0) && is_ascii_bytes(h.1) {
            rest.push(h)
        } else {
            rest
        }
    }
}

/// Selects the headers of the upstream answer that go back to the client.
pub fn filter_response_headers(upstream: &Vec<(String, Vec<u8>)>, adapter: ResponseAdapter) -> (out:
    Vec<(String, Vec<u8>)>)
    ensures
        response_view(out@) == returned_upto(
            response_view(upstream@),
            adapter,
            upstream.len() as int,
        ),
{
    let ghost source = response_view(upstream@);
    let mut out: Vec<(String, Vec<u8>)> = Vec::new();
    let mut i: usize = 0;
    assert(response_view(out@) =~= returned_upto(source, adapter, 0));
    while i < upstream.len()
        invariant
            i <= upstream.len(),
            source == response_view(upstream@),
            response_view(out@) == returned_upto(source, adapter, i as int),
        decreases upstream.len() - i,
    {
        let name = upstream[i].0.as_str();
        let value = &upstream[i].1;
        assert(source[i as int] == (name@, value@));
        let withheld = str_eq_ignore_case(name, "transfer-encoding") || str_eq_ignore_case(
            name,
            "content-length",
        ) || str_eq_ignore_case(name, "connection") || (match adapter {
            ResponseAdapter::Passthrough => false,
            _ => str_eq_ignore_case(name, "content-type"),
        });
        if !withheld && response_header_accepted(name, value.as_slice()) {
            let ghost before = response_view(out@);
            let copy = value.clone();
            assert(copy@ == value@);
            out.push((name.to_string(), copy));
            assert(response_view(out@) =~= before.push((name@, value@)));
        }
        i += 1;
    }
    out
}

} // verus!
