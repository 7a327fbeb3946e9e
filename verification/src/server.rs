//! The relay-server transport: what goes over the WebSocket and how a
//! connection moves from connecting through authentication to steady state
//! and back.

use vstd::prelude::*;
use vstd::string::*;
use vstd::utf8::encode_utf8;
use crate::config::{Config, ConfigView};
use crate::json::{bool_at, json_parsed, json_quoted, push_quoted, text_at, JsonDoc, JsonNode, JsonNodeView};
use crate::messages::{
    AuthResponsePayload, AuthResponsePayloadView, ClipboardBroadcastPayload,
    ClipboardBroadcastPayloadView, ClipboardUpdate, ClipboardUpdateView,
};
use crate::text::{owned, str_eq};

verus! {

/// Wire text of a clipboard update.
pub open spec fn update_text(u: ClipboardUpdateView) -> Seq<char> {
    "{\"type\":"@ + json_quoted(u.msg_type) + ",\"payload\":{\"content_type\":"@ + json_quoted(
        u.payload.content_type,
    ) + ",\"data\":"@ + json_quoted(u.payload.data) + ",\"sender_device_id\":"@ + json_quoted(
        u.payload.sender_device_id,
    ) + "}}"@
}

/// Writes a clipboard update as the text frame the server expects.
pub fn encode_update(update: &ClipboardUpdate) -> (r: String)
    ensures
        r@ == update_text(update@),
{
    let mut out = owned("{\"type\":");
    push_quoted(&mut out, update.msg_type.as_str());
    out.append(",\"payload\":{\"content_type\":");
    push_quoted(&mut out, update.payload.content_type.as_str());
    out.append(",\"data\":");
    push_quoted(&mut out, update.payload.data.as_str());
    out.append(",\"sender_device_id\":");
    push_quoted(&mut out, update.payload.sender_device_id.as_str());
    out.append("}}");
    out
}

/// What became of an inbound text frame.
#[derive(Debug, PartialEq, Eq)]
pub enum Inbound {
    /// Content for the local clipboard.
    Apply(ClipboardBroadcastPayload),
    /// A broadcast that names this device as its sender.
    OwnEcho,
    /// Neither of the two accepted shapes.
    Unrecognized,
}

pub enum InboundView {
    Apply(ClipboardBroadcastPayloadView),
    OwnEcho,
    Unrecognized,
}

impl View for Inbound {
    type V = InboundView;

    open spec fn view(&self) -> InboundView {
        match self {
            Inbound::Apply(p) => InboundView::Apply(p@),
            Inbound::OwnEcho => InboundView::OwnEcho,
            Inbound::Unrecognized => InboundView::Unrecognized,
        }
    }
}

/// The payload of a broadcast in its wrapped form, `{"type":..,"payload":{..}}`.
pub open spec fn wrapped_broadcast(nodes: Map<Seq<char>, JsonNodeView>) -> Option<
    ClipboardBroadcastPayloadView,
> {
    if text_at(nodes, "/type"@) is Some && text_at(nodes, "/payload/content_type"@) is Some
        && text_at(nodes, "/payload/data"@) is Some {
        Some(
            ClipboardBroadcastPayloadView {
                content_type: text_at(nodes, "/payload/content_type"@)->0,
                data: text_at(nodes, "/payload/data"@)->0,
            },
        )
    } else {
        None
    }
}

/// The payload of a broadcast in its flat form, `{"content_type":..,"data":..}`.
pub open spec fn flat_broadcast(nodes: Map<Seq<char>, JsonNodeView>) -> Option<
    ClipboardBroadcastPayloadView,
> {
    if text_at(nodes, "/content_type"@) is Some && text_at(nodes, "/data"@) is Some {
        Some(
            ClipboardBroadcastPayloadView {
                content_type: text_at(nodes, "/content_type"@)->0,
                data: text_at(nodes, "/data"@)->0,
            },
        )
    } else {
        None
    }
}

/// How a parsed frame is classified by a device called `own_id`: the wrapped
/// form is tried first, then the flat one.
pub open spec fn inbound_of(nodes: Map<Seq<char>, JsonNodeView>, own_id: Seq<char>) -> InboundView {
    match wrapped_broadcast(nodes) {
        Some(p) => if text_at(nodes, "/payload/sender_device_id"@) == Some(own_id) {
            InboundView::OwnEcho
        } else {
            InboundView::Apply(p)
        },
        None => match flat_broadcast(nodes) {
            Some(p) => if text_at(nodes, "/sender_device_id"@) == Some(own_id) {
                InboundView::OwnEcho
            } else {
                InboundView::Apply(p)
            },
            None => InboundView::Unrecognized,
        },
    }
}

/// How an inbound text frame is classified by a device called `own_id`.
pub open spec fn inbound_of_text(text: Seq<char>, own_id: Seq<char>) -> InboundView {
    match json_parsed(encode_utf8(text)) {
        Some(nodes) => inbound_of(nodes, own_id),
        None => InboundView::Unrecognized,
    }
}

fn names_sender(doc: &JsonDoc, pointer: &str, own_id: &str) -> (r: bool)
    ensures
        r == (text_at(doc.nodes(), pointer@) == Some(own_id@)),
{
    match doc.text(pointer) {
        Some(sender) => str_eq(sender.as_str(), own_id),
        None => false,
    }
}

/// Classifies a parsed frame.
pub fn classify_document(doc: &JsonDoc, own_id: &str) -> (r: Inbound)
    ensures
        r@ == inbound_of(doc.nodes(), own_id@),
{
    let wrapped_type = doc.text("/type");
    let wrapped_content = doc.text("/payload/content_type");
    let wrapped_data = doc.text("/payload/data");
    if let (Some(_), Some(content_type), Some(data)) = (wrapped_type, wrapped_content, wrapped_data) {
        if names_sender(doc, "/payload/sender_device_id", own_id) {
            return Inbound::OwnEcho;
        }
        return Inbound::Apply(ClipboardBroadcastPayload { content_type, data });
    }
    let flat_content = doc.text("/content_type");
    let flat_data = doc.text("/data");
    if let (Some(content_type), Some(data)) = (flat_content, flat_data) {
        if names_sender(doc, "/sender_device_id", own_id) {
            return Inbound::OwnEcho;
        }
        return Inbound::Apply(ClipboardBroadcastPayload { content_type, data });
    }
    Inbound::Unrecognized
}

/// Classifies an inbound text frame.
pub fn classify_inbound(text: &str, own_id: &str) -> (r: Inbound)
    ensures
        r@ == inbound_of_text(text@, own_id@),
{
    match JsonDoc::parse(text.as_bytes()) {
        Some(doc) => classify_document(&doc, own_id),
        None => Inbound::Unrecognized,
    }
}

/// Why a connection did not get past authentication.
#[derive(Debug, PartialEq, Eq)]
pub enum AuthError {
    /// Neither a token nor a user name is configured.
    MissingUsername,
    /// A user name is configured without a password.
    MissingPassword,
    /// The reply is not JSON.
    Malformed,
    /// The reply has a `payload` that lacks a required field.
    Incomplete,
    /// The server refused the credentials; carries its message.
    Rejected(String),
    /// The reply has neither `payload` nor `success`.
    Unrecognized,
    /// The reply is not a text frame.
    NotText,
    /// The transport failed before a reply arrived; carries its message.
    Transport(String),
    /// The server closed the connection without a reply.
    NoReply,
}

pub enum AuthErrorView {
    MissingUsername,
    MissingPassword,
    Malformed,
    Incomplete,
    Rejected(Seq<char>),
    Unrecognized,
    NotText,
    Transport(Seq<char>),
    NoReply,
}

impl View for AuthError {
    type V = AuthErrorView;

    open spec fn view(&self) -> AuthErrorView {
        match self {
            AuthError::MissingUsername => AuthErrorView::MissingUsername,
            AuthError::MissingPassword => AuthErrorView::MissingPassword,
            AuthError::Malformed => AuthErrorView::Malformed,
            AuthError::Incomplete => AuthErrorView::Incomplete,
            AuthError::Rejected(m) => AuthErrorView::Rejected(m@),
            AuthError::Unrecognized => AuthErrorView::Unrecognized,
            AuthError::NotText => AuthErrorView::NotText,
            AuthError::Transport(m) => AuthErrorView::Transport(m@),
            AuthError::NoReply => AuthErrorView::NoReply,
        }
    }
}

/// The text that describes an authentication failure.
pub open spec fn auth_error_text(e: AuthErrorView) -> Seq<char> {
    match e {
        AuthErrorView::MissingUsername => "missing username"@,
        AuthErrorView::MissingPassword => "missing password"@,
        AuthErrorView::Malformed => "authentication reply is not JSON"@,
        AuthErrorView::Incomplete => "authentication reply is incomplete"@,
        AuthErrorView::Rejected(m) => "authentication rejected: "@ + m,
        AuthErrorView::Unrecognized => "authentication reply not recognized"@,
        AuthErrorView::NotText => "authentication reply is not text"@,
        AuthErrorView::Transport(m) => "reading authentication reply failed: "@ + m,
        AuthErrorView::NoReply => "server sent no authentication reply"@,
    }
}

impl AuthError {
    /// Describes the failure; a rejection quotes the server's message.
    pub fn message(&self) -> (r: String)
        ensures
            r@ == auth_error_text(self@),
    {
        match self {
            AuthError::MissingUsername => owned("missing username"),
            AuthError::MissingPassword => owned("missing password"),
            AuthError::Malformed => owned("authentication reply is not JSON"),
            AuthError::Incomplete => owned("authentication reply is incomplete"),
            AuthError::Rejected(m) => crate::text::concat2("authentication rejected: ", m.as_str()),
            AuthError::Unrecognized => owned("authentication reply not recognized"),
            AuthError::NotText => owned("authentication reply is not text"),
            AuthError::Transport(m) => crate::text::concat2(
                "reading authentication reply failed: ",
                m.as_str(),
            ),
            AuthError::NoReply => owned("server sent no authentication reply"),
        }
    }
}

/// The authentication request for a configuration: the token where there is
/// one, else user name and password, both of which must then be present.
pub open spec fn auth_request_of(cfg: ConfigView) -> Result<Seq<char>, AuthErrorView> {
    match cfg.token {
        Some(t) => Ok("{\"token\":"@ + json_quoted(t) + "}"@),
        None => match cfg.username {
            None => Err(AuthErrorView::MissingUsername),
            Some(u) => match cfg.password {
                None => Err(AuthErrorView::MissingPassword),
                Some(p) => Ok(
                    "{\"username\":"@ + json_quoted(u) + ",\"password\":"@ + json_quoted(p) + "}"@,
                ),
            },
        },
    }
}

/// Builds the text frame that opens a connection.
pub fn auth_request_text(cfg: &Config) -> (r: Result<String, AuthError>)
    ensures
        match r {
            Ok(t) => auth_request_of(cfg@) == Ok::<Seq<char>, AuthErrorView>(t@),
            Err(e) => auth_request_of(cfg@) == Err::<Seq<char>, AuthErrorView>(e@),
        },
{
    match &cfg.token {
        Some(token) => {
            let mut out = owned("{\"token\":");
            push_quoted(&mut out, token.as_str());
            out.append("}");
            Ok(out)
        },
        None => match &cfg.username {
            None => Err(AuthError::MissingUsername),
            Some(username) => match &cfg.password {
                None => Err(AuthError::MissingPassword),
                Some(password) => {
                    let mut out = owned("{\"username\":");
                    push_quoted(&mut out, username.as_str());
                    out.append(",\"password\":");
                    push_quoted(&mut out, password.as_str());
                    out.append("}");
                    Ok(out)
                },
            },
        },
    }
}

/// The token of a wrapped reply: absent and `null` both mean none; anything
/// but a string is a fault.
pub open spec fn reply_token(nodes: Map<Seq<char>, JsonNodeView>) -> Option<Option<Seq<char>>> {
    if !nodes.contains_key("/payload/token"@) {
        Some(None)
    } else {
        match nodes["/payload/token"@] {
            JsonNodeView::Null => Some(None),
            JsonNodeView::Text(t) => Some(Some(t)),
            _ => None,
        }
    }
}

/// The verdict in a wrapped reply, `{"type":..,"payload":{"success":..,"message":..}}`.
pub open spec fn wrapped_reply(nodes: Map<Seq<char>, JsonNodeView>) -> Option<
    AuthResponsePayloadView,
> {
    if text_at(nodes, "/type"@) is Some && bool_at(nodes, "/payload/success"@) is Some && text_at(
        nodes,
        "/payload/message"@,
    ) is Some && reply_token(nodes) is Some {
        Some(
            AuthResponsePayloadView {
                success: bool_at(nodes, "/payload/success"@)->0,
                message: text_at(nodes, "/payload/message"@)->0,
                token: reply_token(nodes)->0,
            },
        )
    } else {
        None
    }
}

/// The verdict in a flat reply, `{"success":..,"message":..}`: a `success`
/// that is no boolean counts as failure, a `message` that is no string as
/// empty.
pub open spec fn flat_reply(nodes: Map<Seq<char>, JsonNodeView>) -> AuthResponsePayloadView {
    AuthResponsePayloadView {
        success: match bool_at(nodes, "/success"@) {
            Some(b) => b,
            None => false,
        },
        message: match text_at(nodes, "/message"@) {
            Some(m) => m,
            None => Seq::<char>::empty(),
        },
        token: None,
    }
}

/// Success with the server's verdict, or the rejection with its message.
pub open spec fn accept_or_reject(p: AuthResponsePayloadView) -> Result<
    AuthResponsePayloadView,
    AuthErrorView,
> {
    if p.success {
        Ok(p)
    } else {
        Err(AuthErrorView::Rejected(p.message))
    }
}

/// What a parsed authentication reply means. A reply with a `payload` is read
/// as wrapped, one with `success` as flat.
pub open spec fn reply_verdict(nodes: Map<Seq<char>, JsonNodeView>) -> Result<
    AuthResponsePayloadView,
    AuthErrorView,
> {
    if nodes.contains_key("/payload"@) {
        match wrapped_reply(nodes) {
            Some(p) => accept_or_reject(p),
            None => Err(AuthErrorView::Incomplete),
        }
    } else if nodes.contains_key("/success"@) {
        accept_or_reject(flat_reply(nodes))
    } else {
        Err(AuthErrorView::Unrecognized)
    }
}

/// What the text of an authentication reply means.
pub open spec fn reply_verdict_of_text(text: Seq<char>) -> Result<
    AuthResponsePayloadView,
    AuthErrorView,
> {
    match json_parsed(encode_utf8(text)) {
        Some(nodes) => reply_verdict(nodes),
        None => Err(AuthErrorView::Malformed),
    }
}

/// `r` is `expected`, value for value.
pub open spec fn verdict_matches(
    r: Result<AuthResponsePayload, AuthError>,
    expected: Result<AuthResponsePayloadView, AuthErrorView>,
) -> bool {
    match r {
        Ok(p) => expected == Ok::<AuthResponsePayloadView, AuthErrorView>(p@),
        Err(e) => expected == Err::<AuthResponsePayloadView, AuthErrorView>(e@),
    }
}

fn accept(p: AuthResponsePayload) -> (r: Result<AuthResponsePayload, AuthError>)
    ensures
        verdict_matches(r, accept_or_reject(p@)),
{
    if p.success {
        Ok(p)
    } else {
        Err(AuthError::Rejected(p.message))
    }
}

fn read_token(doc: &JsonDoc) -> (r: Option<Option<String>>)
    ensures
        match r {
            Some(Some(t)) => reply_token(doc.nodes()) == Some(Some(t@)),
            Some(None) => reply_token(doc.nodes()) == Some(None::<Seq<char>>),
            None => reply_token(doc.nodes()) is None,
        },
{
    match doc.lookup("/payload/token") {
        None => Some(None),
        Some(JsonNode::Null) => Some(None),
        Some(JsonNode::Text(t)) => Some(Some(t)),
        Some(_) => None,
    }
}

/// Reads the verdict out of a parsed authentication reply.
pub fn verdict_of_document(doc: &JsonDoc) -> (r: Result<AuthResponsePayload, AuthError>)
    ensures
        verdict_matches(r, reply_verdict(doc.nodes())),
{
    if doc.has("/payload") {
        let msg_type = doc.text("/type");
        let success = doc.boolean("/payload/success");
        let message = doc.text("/payload/message");
        let token = read_token(doc);
        if let (Some(_), Some(success), Some(message), Some(token)) = (
            msg_type,
            success,
            message,
            token,
        ) {
            accept(AuthResponsePayload { success, message, token })
        } else {
            Err(AuthError::Incomplete)
        }
    } else if doc.has("/success") {
        let success = match doc.boolean("/success") {
            Some(b) => b,
            None => false,
        };
        let message = match doc.text("/message") {
            Some(m) => m,
            None => String::new(),
        };
        accept(AuthResponsePayload { success, message, token: None })
    } else {
        Err(AuthError::Unrecognized)
    }
}

/// Reads the verdict out of the server's reply to the authentication request.
pub fn check_auth_reply(text: &str) -> (r: Result<AuthResponsePayload, AuthError>)
    ensures
        verdict_matches(r, reply_verdict_of_text(text@)),
{
    match JsonDoc::parse(text.as_bytes()) {
        Some(doc) => verdict_of_document(&doc),
        None => Err(AuthError::Malformed),
    }
}

} // verus!
