//! The websocket wire protocol: a JSON envelope carries a version, a message
//! type tag and a string-to-string content map. The transport layer turns
//! JSON text into an [`AwspWrapper`] and back; everything between the
//! envelope and the core's typed frames — tag dispatch, content-field
//! lookup, identifier and status parsing — is done and specified here.
//! Unknown or ill-formed frames are rejected, never silently ignored; the
//! error kind of the reply is the protocol state machine's choice.

use vstd::prelude::*;

use crate::error::AzumaError;
use crate::ids::{parse_uuid, uuid_parse, uuid_str, uuid_to_string, ChannelId, Token, UserId};
use crate::message::ChatMessage;
use crate::stateactor::OnlineStatus;
use crate::util::{dec_str_i64, i64_to_dec_string};

verus! {

/// The message type tag of an envelope: what the sender tries to
/// communicate, and which content fields to expect.
#[derive(Clone, Copy, Debug, PartialEq, Eq, Structural)]
pub enum AwspMessageTypex {
    /// Authenticate the websocket session before any other communication.
    Auth,
    /// A successful `Auth` request.
    Welcome,
    /// A client attempts to send a message.
    SendMessage,
    /// A message was sent.
    MessageSent,
    /// A user's online status changed.
    ChangeOnlineStatus,
    /// A user started typing; ephemeral, never persisted.
    SendTyping,
    /// A user stopped typing; ephemeral, never persisted.
    StopTyping,
    /// An error occurred; the `errortype` content field says which.
    Error,
}

/// The envelope around every frame. The content map is kept as a list of
/// key/value pairs.
pub struct AwspWrapper {
    pub version: String,
    pub msg_type: AwspMessageTypex,
    pub content: Vec<(String, String)>,
}

/// The error kinds the protocol reports to clients.
#[derive(Clone, Copy, Debug, PartialEq, Eq, Structural)]
pub enum AwspErrorType {
    BadRequest,
    Unauthorized,
    AlreadyExists,
    InternalServerError,
    NotFound,
}

/// An error frame's payload.
pub struct AwspError {
    pub errortype: AwspErrorType,
}

/// The first value stored under `key`, if any.
pub open spec fn content_get(s: Seq<(String, String)>, key: Seq<char>) -> Option<Seq<char>>
    decreases s.len(),
{
    if s.len() == 0 {
        None
    } else if s[0].0@ == key {
        Some(s[0].1@)
    } else {
        content_get(s.drop_first(), key)
    }
}

/// Look a key up in a content map.
pub fn get_content<'a>(content: &'a Vec<(String, String)>, key: &str) -> (r: Option<&'a String>)
    ensures
        match r {
            Some(v) => content_get(content@, key@) == Some(v@),
            None => content_get(content@, key@) is None,
        },
{
    let key_s = String::from_str(key);
    let mut i: usize = 0;
    proof {
        assert(content@.skip(0) =~= content@);
    }
    while i < content.len()
        invariant
            i <= content@.len(),
            key_s@ == key@,
            content_get(content@, key@) == content_get(content@.skip(i as int), key@),
        decreases content@.len() - i,
    {
        proof {
            assert(content@.skip(i as int)[0] == content@[i as int]);
            assert(content@.skip(i as int).drop_first() =~= content@.skip(i as int + 1));
        }
        if content[i].0 == key_s {
            return Some(&content[i].1);
        }
        i += 1;
    }
    proof {
        assert(content@.skip(content@.len() as int).len() == 0);
    }
    None
}

impl AwspErrorType {
    /// The wire name of the error kind.
    pub open spec fn name_spec(self) -> Seq<char> {
        match self {
            AwspErrorType::BadRequest => "BadRequest"@,
            AwspErrorType::Unauthorized => "Unauthorized"@,
            AwspErrorType::AlreadyExists => "AlreadyExists"@,
            AwspErrorType::InternalServerError => "InternalServerError"@,
            AwspErrorType::NotFound => "NotFound"@,
        }
    }

    /// Render the wire name of the error kind.
    pub fn name(&self) -> (r: String)
        ensures
            r@ == self.name_spec(),
    {
        match self {
            AwspErrorType::BadRequest => String::from_str("BadRequest"),
            AwspErrorType::Unauthorized => String::from_str("Unauthorized"),
            AwspErrorType::AlreadyExists => String::from_str("AlreadyExists"),
            AwspErrorType::InternalServerError => String::from_str("InternalServerError"),
            AwspErrorType::NotFound => String::from_str("NotFound"),
        }
    }

    /// The content map of an error frame reporting this kind.
    pub fn into_hm(&self) -> (r: Vec<(String, String)>)
        ensures
            r@.len() == 1,
            r@[0].0@ == "errortype"@,
            r@[0].1@ == self.name_spec(),
    {
        let mut hm: Vec<(String, String)> = Vec::new();
        hm.push((String::from_str("errortype"), self.name()));
        hm
    }

    /// The full error frame reporting this kind.
    pub fn into_wrapper(&self, version: &str) -> (r: AwspWrapper)
        ensures
            r.version@ == version@,
            r.is_error(*self),
    {
        AwspWrapper {
            version: String::from_str(version),
            msg_type: AwspMessageTypex::Error,
            content: self.into_hm(),
        }
    }

    /// The wire kind reporting an internal error kind. The wire has no
    /// `Forbidden`: a forbidden action reads as unauthorized to a websocket
    /// client.
    pub open spec fn of_azuma_spec(e: AzumaError) -> AwspErrorType {
        match e {
            AzumaError::AlreadyExists => AwspErrorType::AlreadyExists,
            AzumaError::BadRequest => AwspErrorType::BadRequest,
            AzumaError::Forbidden => AwspErrorType::Unauthorized,
            AzumaError::InternalServerError => AwspErrorType::InternalServerError,
            AzumaError::NotFound => AwspErrorType::NotFound,
            AzumaError::Unauthorized => AwspErrorType::Unauthorized,
        }
    }

    /// Map an internal error kind to the wire kind reporting it.
    pub fn of_azuma(e: &AzumaError) -> (r: AwspErrorType)
        ensures
            r == AwspErrorType::of_azuma_spec(*e),
    {
        match e {
            AzumaError::AlreadyExists => AwspErrorType::AlreadyExists,
            AzumaError::BadRequest => AwspErrorType::BadRequest,
            AzumaError::Forbidden => AwspErrorType::Unauthorized,
            AzumaError::InternalServerError => AwspErrorType::InternalServerError,
            AzumaError::NotFound => AwspErrorType::NotFound,
            AzumaError::Unauthorized => AwspErrorType::Unauthorized,
        }
    }
}

impl AwspWrapper {
    /// Whether this envelope is the error frame reporting `e`.
    pub open spec fn is_error(self, e: AwspErrorType) -> bool {
        &&& self.msg_type == AwspMessageTypex::Error
        &&& self.content@.len() == 1
        &&& self.content@[0].0@ == "errortype"@
        &&& self.content@[0].1@ == e.name_spec()
    }
}

/// The status a client-supplied wire string denotes. `"OFFLINE"` maps to
/// `AppearAsOffline`: a client can never request the derived `Offline`
/// state.
pub open spec fn status_parse(s: Seq<char>) -> Option<OnlineStatus> {
    if s == "ONLINE"@ {
        Some(OnlineStatus::Online)
    } else if s == "AFK"@ {
        Some(OnlineStatus::Afk)
    } else if s == "DND"@ {
        Some(OnlineStatus::Dnd)
    } else if s == "OFFLINE"@ || s == "APPEAR_AS_OFFLINE"@ {
        Some(OnlineStatus::AppearAsOffline)
    } else {
        None
    }
}

/// The wire string for a status. `Offline` and `AppearAsOffline` render
/// identically, so an observer cannot distinguish really-offline from
/// appearing-offline.
pub open spec fn status_str(st: OnlineStatus) -> Seq<char> {
    match st {
        OnlineStatus::Online => "ONLINE"@,
        OnlineStatus::Afk => "AFK"@,
        OnlineStatus::Dnd => "DND"@,
        OnlineStatus::AppearAsOffline => "OFFLINE"@,
        OnlineStatus::Offline => "OFFLINE"@,
    }
}

/// A client can never denote the derived `Offline` state: no string the
/// status decoder accepts yields it.
pub proof fn lemma_offline_unparseable(s: Seq<char>)
    ensures
        status_parse(s) != Some(OnlineStatus::Offline),
{
}

/// What a rendered status reads back as: the settable statuses survive the
/// round trip, and both offline forms read back as `AppearAsOffline`, so an
/// observer of the wire cannot distinguish really-offline from
/// appearing-offline.
pub proof fn lemma_status_render_round_trip(st: OnlineStatus)
    ensures
        status_parse(status_str(st)) == Some(
            match st {
                OnlineStatus::Offline => OnlineStatus::AppearAsOffline,
                OnlineStatus::AppearAsOffline => OnlineStatus::AppearAsOffline,
                other => other,
            },
        ),
{
    reveal_strlit("ONLINE");
    reveal_strlit("AFK");
    reveal_strlit("DND");
    reveal_strlit("OFFLINE");
    reveal_strlit("APPEAR_AS_OFFLINE");
    assert("AFK"@ != "ONLINE"@) by {
        assert("AFK"@.len() != "ONLINE"@.len());
    }
    assert("DND"@ != "ONLINE"@) by {
        assert("DND"@.len() != "ONLINE"@.len());
    }
    assert("DND"@ != "AFK"@) by {
        if "DND"@ == "AFK"@ {
            assert("DND"@[0] == "AFK"@[0]);
        }
    }
    assert("OFFLINE"@ != "ONLINE"@) by {
        assert("OFFLINE"@.len() != "ONLINE"@.len());
    }
    assert("OFFLINE"@ != "AFK"@) by {
        assert("OFFLINE"@.len() != "AFK"@.len());
    }
    assert("OFFLINE"@ != "DND"@) by {
        assert("OFFLINE"@.len() != "DND"@.len());
    }
}

/// Parse a client-supplied status string.
pub fn parse_status(s: &String) -> (r: Option<OnlineStatus>)
    ensures
        r == status_parse(s@),
{
    if *s == String::from_str("ONLINE") {
        Some(OnlineStatus::Online)
    } else if *s == String::from_str("AFK") {
        Some(OnlineStatus::Afk)
    } else if *s == String::from_str("DND") {
        Some(OnlineStatus::Dnd)
    } else if *s == String::from_str("OFFLINE") || *s == String::from_str("APPEAR_AS_OFFLINE") {
        Some(OnlineStatus::AppearAsOffline)
    } else {
        None
    }
}

/// Render a status for the wire.
pub fn status_to_string(st: OnlineStatus) -> (r: String)
    ensures
        r@ == status_str(st),
{
    match st {
        OnlineStatus::Online => String::from_str("ONLINE"),
        OnlineStatus::Afk => String::from_str("AFK"),
        OnlineStatus::Dnd => String::from_str("DND"),
        OnlineStatus::AppearAsOffline => String::from_str("OFFLINE"),
        OnlineStatus::Offline => String::from_str("OFFLINE"),
    }
}

/// Why inbound text produced no client frame. The protocol state machine
/// chooses the reply from this together with the connection state: a
/// credential failure or an inadmissible frame is answered as unauthorized
/// while the connection is unauthenticated, and every failure is a bad
/// request once it is authenticated.
#[derive(Clone, Copy, Debug, PartialEq, Eq, Structural)]
pub enum DecodeError {
    /// The text did not parse as a protocol envelope at all.
    NotAnEnvelope,
    /// An `Auth` envelope whose token field is missing or not a UUID: a
    /// failed credential, not a structural fault.
    BadCredential,
    /// A well-formed envelope carrying no admissible client frame: a
    /// server-to-client tag, or missing or unparsable content fields.
    BadFrame,
}

/// A decoded client frame.
pub enum AwspFrame {
    Auth { token: Token },
    SendMessage { channel: ChannelId, content: String },
    ChangeOnlineStatus { status: OnlineStatus },
    SendTyping,
    StopTyping,
}

/// The mathematical value of a decoded client frame.
pub enum AwspFrameView {
    Auth { token: Token },
    SendMessage { channel: ChannelId, content: Seq<char> },
    ChangeOnlineStatus { status: OnlineStatus },
    SendTyping,
    StopTyping,
}

impl View for AwspFrame {
    type V = AwspFrameView;

    open spec fn view(&self) -> AwspFrameView {
        match self {
            AwspFrame::Auth { token } => AwspFrameView::Auth { token: *token },
            AwspFrame::SendMessage { channel, content } => AwspFrameView::SendMessage {
                channel: *channel,
                content: content@,
            },
            AwspFrame::ChangeOnlineStatus { status } => AwspFrameView::ChangeOnlineStatus {
                status: *status,
            },
            AwspFrame::SendTyping => AwspFrameView::SendTyping,
            AwspFrame::StopTyping => AwspFrameView::StopTyping,
        }
    }
}

/// The grammar of client frames: which envelopes decode to which frames,
/// and why the rest are refused. An `Auth` envelope whose token field is
/// missing or not a UUID fails as a credential, so that an unauthenticated
/// connection answers it — like every other frame it does not accept — as
/// unauthorized. Server-to-client tags are never accepted from a client.
pub open spec fn decode_spec(w: AwspWrapper) -> Result<AwspFrameView, DecodeError> {
    match w.msg_type {
        AwspMessageTypex::Auth => match content_get(w.content@, "token"@) {
            Some(t) => match uuid_parse(t) {
                Some(v) => Ok(AwspFrameView::Auth { token: v }),
                None => Err(DecodeError::BadCredential),
            },
            None => Err(DecodeError::BadCredential),
        },
        AwspMessageTypex::SendMessage => match content_get(w.content@, "channel"@) {
            Some(cs) => match uuid_parse(cs) {
                Some(ch) => match content_get(w.content@, "content"@) {
                    Some(body) => Ok(AwspFrameView::SendMessage { channel: ch, content: body }),
                    None => Err(DecodeError::BadFrame),
                },
                None => Err(DecodeError::BadFrame),
            },
            None => Err(DecodeError::BadFrame),
        },
        AwspMessageTypex::ChangeOnlineStatus => match content_get(w.content@, "status"@) {
            Some(s) => match status_parse(s) {
                Some(st) => Ok(AwspFrameView::ChangeOnlineStatus { status: st }),
                None => Err(DecodeError::BadFrame),
            },
            None => Err(DecodeError::BadFrame),
        },
        AwspMessageTypex::SendTyping => Ok(AwspFrameView::SendTyping),
        AwspMessageTypex::StopTyping => Ok(AwspFrameView::StopTyping),
        _ => Err(DecodeError::BadFrame),
    }
}

/// Decode an envelope into a typed frame, following [`decode_spec`].
pub fn decode_frame(w: &AwspWrapper) -> (r: Result<AwspFrame, DecodeError>)
    ensures
        r matches Ok(f) ==> decode_spec(*w) == Ok::<AwspFrameView, DecodeError>(f@),
        r matches Err(e) ==> decode_spec(*w) == Err::<AwspFrameView, DecodeError>(e),
{
    match w.msg_type {
        AwspMessageTypex::Auth => {
            match get_content(&w.content, "token") {
                Some(t) => match parse_uuid(t.as_str()) {
                    Some(v) => Ok(AwspFrame::Auth { token: v }),
                    None => Err(DecodeError::BadCredential),
                },
                None => Err(DecodeError::BadCredential),
            }
        }
        AwspMessageTypex::SendMessage => {
            match get_content(&w.content, "channel") {
                Some(cs) => match parse_uuid(cs.as_str()) {
                    Some(ch) => match get_content(&w.content, "content") {
                        Some(body) => Ok(
                            AwspFrame::SendMessage { channel: ch, content: body.clone() },
                        ),
                        None => Err(DecodeError::BadFrame),
                    },
                    None => Err(DecodeError::BadFrame),
                },
                None => Err(DecodeError::BadFrame),
            }
        }
        AwspMessageTypex::ChangeOnlineStatus => {
            match get_content(&w.content, "status") {
                Some(s) => match parse_status(s) {
                    Some(st) => Ok(AwspFrame::ChangeOnlineStatus { status: st }),
                    None => Err(DecodeError::BadFrame),
                },
                None => Err(DecodeError::BadFrame),
            }
        }
        AwspMessageTypex::SendTyping => Ok(AwspFrame::SendTyping),
        AwspMessageTypex::StopTyping => Ok(AwspFrame::StopTyping),
        AwspMessageTypex::Welcome => Err(DecodeError::BadFrame),
        AwspMessageTypex::MessageSent => Err(DecodeError::BadFrame),
        AwspMessageTypex::Error => Err(DecodeError::BadFrame),
    }
}

/// The welcome frame confirming authentication of `userid`.
pub fn welcome_wrapper(version: &str, userid: UserId) -> (r: AwspWrapper)
    ensures
        r.version@ == version@,
        r.msg_type == AwspMessageTypex::Welcome,
        r.content@.len() == 1,
        r.content@[0].0@ == "userid"@,
        r.content@[0].1@ == uuid_str(userid),
{
    let mut content: Vec<(String, String)> = Vec::new();
    content.push((String::from_str("userid"), uuid_to_string(userid)));
    AwspWrapper { version: String::from_str(version), msg_type: AwspMessageTypex::Welcome, content }
}

/// The frame announcing a sent message to a subscriber.
pub fn message_sent_wrapper(version: &str, m: &ChatMessage) -> (r: AwspWrapper)
    ensures
        r.version@ == version@,
        r.msg_type == AwspMessageTypex::MessageSent,
        r.content@.len() == 5,
        r.content@[0].0@ == "author"@ && r.content@[0].1@ == uuid_str(m.author),
        r.content@[1].0@ == "content"@ && r.content@[1].1@ == m.content@,
        r.content@[2].0@ == "id"@ && r.content@[2].1@ == uuid_str(m.id),
        r.content@[3].0@ == "channel"@ && r.content@[3].1@ == uuid_str(m.channel),
        r.content@[4].0@ == "timestamp"@ && r.content@[4].1@ == dec_str_i64(m.created_at as int),
{
    let mut content: Vec<(String, String)> = Vec::new();
    content.push((String::from_str("author"), uuid_to_string(m.author)));
    content.push((String::from_str("content"), m.content.clone()));
    content.push((String::from_str("id"), uuid_to_string(m.id)));
    content.push((String::from_str("channel"), uuid_to_string(m.channel)));
    content.push((String::from_str("timestamp"), i64_to_dec_string(m.created_at)));
    AwspWrapper {
        version: String::from_str(version),
        msg_type: AwspMessageTypex::MessageSent,
        content,
    }
}

/// The frame announcing a user's new online status.
pub fn status_wrapper(version: &str, user: UserId, status: OnlineStatus) -> (r: AwspWrapper)
    ensures
        r.version@ == version@,
        r.msg_type == AwspMessageTypex::ChangeOnlineStatus,
        r.content@.len() == 2,
        r.content@[0].0@ == "status"@ && r.content@[0].1@ == status_str(status),
        r.content@[1].0@ == "user"@ && r.content@[1].1@ == uuid_str(user),
{
    let mut content: Vec<(String, String)> = Vec::new();
    content.push((String::from_str("status"), status_to_string(status)));
    content.push((String::from_str("user"), uuid_to_string(user)));
    AwspWrapper {
        version: String::from_str(version),
        msg_type: AwspMessageTypex::ChangeOnlineStatus,
        content,
    }
}

} // verus!
