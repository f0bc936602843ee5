//! What the gateway reads from a request body, and the overrides that a
//! platform key lays over it.

use vstd::prelude::*;
use crate::json::{
    empty_object, encode_document, flag_of, json_decoded, json_encoded, lemma_with_member,
    member_of, parse_document, text_of, with_member, JsonDoc, JsonModel,
};
use crate::text::{
    chars_of, lower, lower_between, nonblank, nonblank_text, owned_view, same_chars, slice_view,
    trim_range, trimmed,
};

verus! {

/// The canonical name of a reasoning effort: trimmed and in lower case,
/// `low`, `medium`, `high` and `xhigh` are themselves, `extra_high` and
/// `extra-high` are `xhigh`, and nothing else is an effort.
pub open spec fn canonical_effort(raw: Seq<char>) -> Option<Seq<char>> {
    let t = lower(trimmed(raw));
    if t == "low"@ {
        Some("low"@)
    } else if t == "medium"@ {
        Some("medium"@)
    } else if t == "high"@ {
        Some("high"@)
    } else if t == "xhigh"@ || t == "extra_high"@ || t == "extra-high"@ {
        Some("xhigh"@)
    } else {
        None
    }
}

/// The view of an optional static text.
pub open spec fn static_view(text: Option<&'static str>) -> Option<Seq<char>> {
    match text {
        Some(t) => Some(t@),
        None => None,
    }
}

/// Maps a reasoning effort to its canonical name.
pub fn normalize_reasoning_effort(raw: &str) -> (out: Option<&'static str>)
    ensures
        static_view(out) == canonical_effort(raw@),
{
    let chars = chars_of(raw);
    let (from, to) = trim_range(chars.as_slice());
    let folded = lower_between(chars.as_slice(), from, to);
    let t = folded.as_slice();
    if same_chars(t, chars_of("low").as_slice()) {
        Some("low")
    } else if same_chars(t, chars_of("medium").as_slice()) {
        Some("medium")
    } else if same_chars(t, chars_of("high").as_slice()) {
        Some("high")
    } else if same_chars(t, chars_of("xhigh").as_slice()) || same_chars(
        t,
        chars_of("extra_high").as_slice(),
    ) || same_chars(t, chars_of("extra-high").as_slice()) {
        Some("xhigh")
    } else {
        None
    }
}

/// The text that a document holds under a name, if it holds a string there.
pub open spec fn text_member(doc: JsonModel, name: Seq<char>) -> Option<Seq<char>> {
    match member_of(doc, name) {
        Some(member) => text_of(member),
        None => None,
    }
}

/// The model that a document names: its member `model`, where that is a
/// string and not blank.
pub open spec fn document_model(doc: JsonModel) -> Option<Seq<char>> {
    nonblank(text_member(doc, "model"@))
}

/// The reasoning effort that a document names: `effort` under `reasoning`,
/// or else the flat member `reasoning_effort`, each where it is a string
/// and not blank.
pub open spec fn document_effort(doc: JsonModel) -> Option<Seq<char>> {
    let nested = match member_of(doc, "reasoning"@) {
        Some(reasoning) => nonblank(text_member(reasoning, "effort"@)),
        None => None,
    };
    if nested is Some {
        nested
    } else {
        nonblank(text_member(doc, "reasoning_effort"@))
    }
}

/// Whether a document asks for a streamed answer: its member `stream`,
/// where that is `true` or `false`.
pub open spec fn document_stream(doc: JsonModel) -> Option<bool> {
    match member_of(doc, "stream"@) {
        Some(member) => flag_of(member),
        None => None,
    }
}

/// The document of a body: nothing where the body is empty or no JSON.
pub open spec fn body_document(body: Seq<u8>) -> Option<JsonModel> {
    if body.len() == 0 {
        None
    } else {
        json_decoded(body)
    }
}

/// The model that a body names.
pub open spec fn request_model(body: Seq<u8>) -> Option<Seq<char>> {
    match body_document(body) {
        Some(doc) => document_model(doc),
        None => None,
    }
}

/// The reasoning effort that a body names.
pub open spec fn request_effort(body: Seq<u8>) -> Option<Seq<char>> {
    match body_document(body) {
        Some(doc) => document_effort(doc),
        None => None,
    }
}

/// Whether a body asks for a streamed answer.
pub open spec fn request_stream(body: Seq<u8>) -> Option<bool> {
    match body_document(body) {
        Some(doc) => document_stream(doc),
        None => None,
    }
}

fn member_text(doc: &JsonDoc, name: &str) -> (out: Option<String>)
    ensures
        owned_view(out) == nonblank(text_member(doc@, name@)),
{
    match doc.member(name) {
        Some(member) => nonblank_text(member.as_text()),
        None => None,
    }
}

/// Reads the model from a request document.
pub fn read_document_model(doc: &JsonDoc) -> (out: Option<String>)
    ensures
        owned_view(out) == document_model(doc@),
{
    member_text(doc, "model")
}

/// Reads the reasoning effort from a request document.
pub fn read_document_effort(doc: &JsonDoc) -> (out: Option<String>)
    ensures
        owned_view(out) == document_effort(doc@),
{
    let nested = match doc.member("reasoning") {
        Some(reasoning) => member_text(reasoning, "effort"),
        None => None,
    };
    if nested.is_some() {
        nested
    } else {
        member_text(doc, "reasoning_effort")
    }
}

/// Reads the stream flag from a request document.
pub fn read_document_stream(doc: &JsonDoc) -> (out: Option<bool>)
    ensures
        out == document_stream(doc@),
{
    match doc.member("stream") {
        Some(member) => member.as_flag(),
        None => None,
    }
}

fn read_body(body: &[u8]) -> (out: Option<JsonDoc>)
    ensures
        match out {
            Some(doc) => body_document(body@) == Some(doc@),
            None => body_document(body@) is None,
        },
{
    if body.len() == 0 {
        return None;
    }
    parse_document(body)
}

/// The model that a request body names.
pub fn extract_request_model(body: &[u8]) -> (out: Option<String>)
    ensures
        owned_view(out) == request_model(body@),
{
    match read_body(body) {
        Some(doc) => read_document_model(&doc),
        None => None,
    }
}

/// The reasoning effort that a request body names.
pub fn extract_request_reasoning_effort(body: &[u8]) -> (out: Option<String>)
    ensures
        owned_view(out) == request_effort(body@),
{
    match read_body(body) {
        Some(doc) => read_document_effort(&doc),
        None => None,
    }
}

/// Whether a request body asks for a streamed answer.
pub fn extract_request_stream(body: &[u8]) -> (out: Option<bool>)
    ensures
        out == request_stream(body@),
{
    match read_body(body) {
        Some(doc) => read_document_stream(&doc),
        None => None,
    }
}

/// The object to which an effort override is added: the object under
/// `reasoning`, or an empty one where there is none.
pub open spec fn reasoning_base(doc: JsonModel) -> JsonModel {
    match member_of(doc, "reasoning"@) {
        Some(reasoning) => if reasoning is Object {
            reasoning
        } else {
            empty_object()
        },
        None => empty_object(),
    }
}

/// A document with the overrides laid over it: a model override stands as
/// the string under `model`; an effort override stands as the string under
/// `effort` of the object under `reasoning`, which keeps what it held
/// otherwise; every other member is as it was. A document that is no object
/// is itself.
pub open spec fn overridden(
    doc: JsonModel,
    model: Option<Seq<char>>,
    effort: Option<Seq<char>>,
) -> JsonModel {
    let with_model = match model {
        Some(m) => with_member(doc, "model"@, JsonModel::Text(m)),
        None => doc,
    };
    match effort {
        Some(e) => with_member(
            with_model,
            "reasoning"@,
            with_member(reasoning_base(with_model), "effort"@, JsonModel::Text(e)),
        ),
        None => with_model,
    }
}

/// Lays a model and an effort over a request document.
pub fn apply_overrides_to_document(doc: JsonDoc, model: Option<&str>, effort: Option<&str>) -> (out:
    JsonDoc)
    ensures
        out@ == overridden(doc@, slice_view(model), slice_view(effort)),
{
    let with_model = match model {
        Some(m) => doc.with("model", JsonDoc::text(m)),
        None => doc,
    };
    match effort {
        Some(e) => {
            let base = match with_model.member("reasoning") {
                Some(prior) => if prior.is_object() {
                    prior.copy()
                } else {
                    JsonDoc::object()
                },
                None => JsonDoc::object(),
            };
            let reasoning = base.with("effort", JsonDoc::text(e));
            with_model.with("reasoning", reasoning)
        },
        None => with_model,
    }
}

/// The effort override that is in force: the canonical name of the effort
/// that the key names, where it names one.
pub open spec fn effort_in_force(effort: Option<Seq<char>>) -> Option<Seq<char>> {
    match effort {
        Some(raw) => canonical_effort(raw),
        None => None,
    }
}

/// The bytes that a document is written as, or else the given bytes.
pub open spec fn written_or(doc: JsonModel, otherwise: Seq<u8>) -> Seq<u8> {
    match json_encoded(doc) {
        Some(bytes) => bytes,
        None => otherwise,
    }
}

/// The body that goes upstream. Without an override in force the body is
/// the one that came in: a model override is in force unless it is blank, an
/// effort override where it names an effort. A body that is no JSON object
/// is left as it is as well, and so is one whose new document cannot be
/// written. Otherwise the body is its document with the overrides laid over
/// it, written out again.
pub open spec fn overridden_body(
    body: Seq<u8>,
    model: Option<Seq<char>>,
    effort: Option<Seq<char>>,
) -> Seq<u8> {
    let m = nonblank(model);
    let e = effort_in_force(effort);
    if m is None && e is None {
        body
    } else {
        match json_decoded(body) {
            None => body,
            Some(doc) => if doc is Object {
                written_or(overridden(doc, m, e), body)
            } else {
                body
            },
        }
    }
}

/// Lays the overrides of a platform key over a request body.
pub fn apply_request_overrides(
    path: &str,
    body: Vec<u8>,
    model_slug: Option<&str>,
    reasoning_effort: Option<&str>,
) -> (out: Vec<u8>)
    ensures
        out@ == overridden_body(body@, slice_view(model_slug), slice_view(reasoning_effort)),
{
    let model = nonblank_text(model_slug);
    let effort = match reasoning_effort {
        Some(raw) => normalize_reasoning_effort(raw),
        None => None,
    };
    if model.is_none() && effort.is_none() {
        return body;
    }
    let doc = match parse_document(body.as_slice()) {
        Some(doc) => doc,
        None => return body,
    };
    if !doc.is_object() {
        return body;
    }
    let model_text = match &model {
        Some(m) => Some(m.as_str()),
        None => None,
    };
    let changed = apply_overrides_to_document(doc, model_text, effort);
    match encode_document(&changed) {
        Some(bytes) => bytes,
        None => body,
    }
}

/// An override that is laid over an object can be read from it again: the
/// model under `model`, the effort under `effort` of `reasoning`.
pub proof fn lemma_overrides_can_be_read(
    doc: JsonModel,
    model: Option<Seq<char>>,
    effort: Option<Seq<char>>,
)
    requires
        doc is Object,
    ensures
        overridden(doc, model, effort) is Object,
        model matches Some(m) ==> text_member(overridden(doc, model, effort), "model"@) == Some(m),
        effort matches Some(e) ==> member_of(overridden(doc, model, effort), "reasoning"@) is Some
            && text_member(
            member_of(overridden(doc, model, effort), "reasoning"@)->0,
            "effort"@,
        ) == Some(e),
{
    reveal_strlit("model");
    reveal_strlit("reasoning");
    reveal_strlit("effort");
    assert("model"@ != "reasoning"@) by {
        assert("model"@.len() != "reasoning"@.len());
    }
    let with_model = match model {
        Some(m) => with_member(doc, "model"@, JsonModel::Text(m)),
        None => doc,
    };
    if model is Some {
        lemma_with_member(doc, "model"@, JsonModel::Text(model->0), "reasoning"@);
    }
    if effort is Some {
        let e = effort->0;
        let base = reasoning_base(with_model);
        let reasoning = with_member(base, "effort"@, JsonModel::Text(e));
        lemma_with_member(base, "effort"@, JsonModel::Text(e), "effort"@);
        lemma_with_member(with_model, "reasoning"@, reasoning, "model"@);
    }
}

/// Laying the overrides over an object leaves every member but `model` and
/// `reasoning` as it was.
pub proof fn lemma_overrides_keep_other_members(
    doc: JsonModel,
    model: Option<Seq<char>>,
    effort: Option<Seq<char>>,
    name: Seq<char>,
)
    requires
        doc is Object,
        name != "model"@,
        name != "reasoning"@,
    ensures
        member_of(overridden(doc, model, effort), name) == member_of(doc, name),
{
    let with_model = match model {
        Some(m) => with_member(doc, "model"@, JsonModel::Text(m)),
        None => doc,
    };
    if model is Some {
        lemma_with_member(doc, "model"@, JsonModel::Text(model->0), name);
    }
    if effort is Some {
        let e = effort->0;
        let reasoning = with_member(reasoning_base(with_model), "effort"@, JsonModel::Text(e));
        lemma_with_member(with_model, "reasoning"@, reasoning, name);
    }
}

} // verus!
