//! Messages exchanged with the relay server.

use vstd::prelude::*;
use vstd::string::*;
use crate::text::{opt_view, owned};

verus! {

/// The `type` of an outbound clipboard update.
pub const MSG_TYPE_CLIPBOARD_UPDATE: &'static str = "clipboard_update";

/// Content type of UTF-8 text.
pub const CONTENT_TYPE_TEXT: &'static str = "text/plain";

/// Content type of a base64-encoded PNG image.
pub const CONTENT_TYPE_IMAGE_PNG: &'static str = "image/png";

/// Credentials sent once per connection: a token, or a user name with a
/// password.
#[derive(Debug, Clone, PartialEq, Eq)]
pub struct AuthRequestPayload {
    pub token: Option<String>,
    pub username: Option<String>,
    pub password: Option<String>,
}

pub struct AuthRequestPayloadView {
    pub token: Option<Seq<char>>,
    pub username: Option<Seq<char>>,
    pub password: Option<Seq<char>>,
}

impl View for AuthRequestPayload {
    type V = AuthRequestPayloadView;

    open spec fn view(&self) -> AuthRequestPayloadView {
        AuthRequestPayloadView {
            token: opt_view(self.token),
            username: opt_view(self.username),
            password: opt_view(self.password),
        }
    }
}

/// The credentials in an envelope with a `type`.
#[derive(Debug, Clone, PartialEq, Eq)]
pub struct AuthRequest {
    pub msg_type: String,
    pub payload: AuthRequestPayload,
}

/// A local clipboard change on its way to the other devices.
#[derive(Debug, Clone, PartialEq, Eq)]
pub struct ClipboardUpdatePayload {
    pub content_type: String,
    pub data: String,
    pub sender_device_id: String,
}

pub struct ClipboardUpdatePayloadView {
    pub content_type: Seq<char>,
    pub data: Seq<char>,
    pub sender_device_id: Seq<char>,
}

impl View for ClipboardUpdatePayload {
    type V = ClipboardUpdatePayloadView;

    open spec fn view(&self) -> ClipboardUpdatePayloadView {
        ClipboardUpdatePayloadView {
            content_type: self.content_type@,
            data: self.data@,
            sender_device_id: self.sender_device_id@,
        }
    }
}

/// A clipboard change in its envelope; `msg_type` goes over the wire as
/// `type`.
#[derive(Debug, Clone, PartialEq, Eq)]
pub struct ClipboardUpdate {
    pub msg_type: String,
    pub payload: ClipboardUpdatePayload,
}

pub struct ClipboardUpdateView {
    pub msg_type: Seq<char>,
    pub payload: ClipboardUpdatePayloadView,
}

impl View for ClipboardUpdate {
    type V = ClipboardUpdateView;

    open spec fn view(&self) -> ClipboardUpdateView {
        ClipboardUpdateView { msg_type: self.msg_type@, payload: self.payload@ }
    }
}

/// The update that announces `data` of type `content_type` from `device_id`.
pub open spec fn update_of(content_type: Seq<char>, data: Seq<char>, device_id: Seq<char>)
    -> ClipboardUpdateView {
    ClipboardUpdateView {
        msg_type: MSG_TYPE_CLIPBOARD_UPDATE@,
        payload: ClipboardUpdatePayloadView { content_type, data, sender_device_id: device_id },
    }
}

impl ClipboardUpdate {
    /// Builds the update for one clipboard change.
    pub fn new(content_type: &str, data: String, device_id: &str) -> (r: ClipboardUpdate)
        ensures
            r@ == update_of(content_type@, data@, device_id@),
    {
        ClipboardUpdate {
            msg_type: owned(MSG_TYPE_CLIPBOARD_UPDATE),
            payload: ClipboardUpdatePayload {
                content_type: owned(content_type),
                data,
                sender_device_id: owned(device_id),
            },
        }
    }
}

/// The server's verdict on the credentials.
#[derive(Debug, Clone, PartialEq, Eq)]
pub struct AuthResponsePayload {
    pub success: bool,
    pub message: String,
    pub token: Option<String>,
}

pub struct AuthResponsePayloadView {
    pub success: bool,
    pub message: Seq<char>,
    pub token: Option<Seq<char>>,
}

impl View for AuthResponsePayload {
    type V = AuthResponsePayloadView;

    open spec fn view(&self) -> AuthResponsePayloadView {
        AuthResponsePayloadView {
            success: self.success,
            message: self.message@,
            token: opt_view(self.token),
        }
    }
}

/// The server's verdict in its envelope.
#[derive(Debug, Clone, PartialEq, Eq)]
pub struct AuthResponse {
    pub msg_type: String,
    pub payload: AuthResponsePayload,
}

pub struct AuthResponseView {
    pub msg_type: Seq<char>,
    pub payload: AuthResponsePayloadView,
}

impl View for AuthResponse {
    type V = AuthResponseView;

    open spec fn view(&self) -> AuthResponseView {
        AuthResponseView { msg_type: self.msg_type@, payload: self.payload@ }
    }
}

/// Clipboard content to be written to the local clipboard.
#[derive(Debug, Clone, PartialEq, Eq)]
pub struct ClipboardBroadcastPayload {
    pub content_type: String,
    pub data: String,
}

pub struct ClipboardBroadcastPayloadView {
    pub content_type: Seq<char>,
    pub data: Seq<char>,
}

impl View for ClipboardBroadcastPayload {
    type V = ClipboardBroadcastPayloadView;

    open spec fn view(&self) -> ClipboardBroadcastPayloadView {
        ClipboardBroadcastPayloadView { content_type: self.content_type@, data: self.data@ }
    }
}

/// Clipboard content from another device in its envelope.
#[derive(Debug, Clone, PartialEq, Eq)]
pub struct ClipboardBroadcast {
    pub msg_type: String,
    pub payload: ClipboardBroadcastPayload,
}

pub struct ClipboardBroadcastView {
    pub msg_type: Seq<char>,
    pub payload: ClipboardBroadcastPayloadView,
}

impl View for ClipboardBroadcast {
    type V = ClipboardBroadcastView;

    open spec fn view(&self) -> ClipboardBroadcastView {
        ClipboardBroadcastView { msg_type: self.msg_type@, payload: self.payload@ }
    }
}

/// Content as a client may hand it over: text, or the bytes of a PNG file.
#[derive(Debug, Clone, PartialEq, Eq)]
pub enum ClientMessage {
    Text { data: String },
    Image { data: Vec<u8> },
}

} // verus!
