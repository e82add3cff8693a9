use vstd::prelude::*;

use crate::autogen;
use crate::codes::{result_code_of_value, result_code_value, ResultCode};
use crate::iscp::connect::ISCP_VERSION;
use crate::message::time::{lemma_secs_read_back, whole_secs_in_u32, wire_secs, TimeDelta};
use crate::message::{read_code, RequestId};

verus! {

/// An access token of a connect request.
#[derive(Clone, PartialEq, Eq, Default)]
pub struct AccessToken(String);

impl AccessToken {
    /// The access token of the given text.
    pub fn new(token: &str) -> (r: AccessToken)
        ensures
            r.text() == token@,
    {
        AccessToken(token.to_owned())
    }

    /// The text of the token.
    pub closed spec fn text(&self) -> Seq<char> {
        self.0@
    }
}

impl From<String> for AccessToken {
    fn from(s: String) -> (r: AccessToken) {
        AccessToken(s)
    }
}

impl vstd::std_specs::convert::FromSpecImpl<String> for AccessToken {
    open spec fn obeys_from_spec() -> bool {
        true
    }

    closed spec fn from_spec(s: String) -> AccessToken {
        AccessToken(s)
    }
}

impl From<AccessToken> for String {
    fn from(t: AccessToken) -> (r: String) {
        t.0
    }
}

impl vstd::std_specs::convert::FromSpecImpl<AccessToken> for String {
    open spec fn obeys_from_spec() -> bool {
        true
    }

    closed spec fn from_spec(t: AccessToken) -> String {
        t.0
    }
}

/// Taking the text of an access token made from a text gives that text back.
pub proof fn lemma_access_token_roundtrip(s: String)
    ensures
        <String as vstd::std_specs::convert::FromSpec<AccessToken>>::from_spec(
            <AccessToken as vstd::std_specs::convert::FromSpec<String>>::from_spec(s),
        ) == s,
{
}

/// The response to a connect request.
#[derive(Clone, PartialEq, Eq, Debug, Default)]
pub struct ConnectResponse {
    /// The id of the request this answers.
    pub request_id: RequestId,
    /// The protocol version of the broker.
    pub protocol_version: String,
    /// The result of the request.
    pub result_code: ResultCode,
    /// The result, in words.
    pub result_string: String,
}

impl ConnectResponse {
    /// Reads the wire message; its result code must be one the protocol defines.
    pub fn from_proto(p: autogen::ConnectResponse) -> (r: ConnectResponse)
        requires
            result_code_of_value(p.result_code) is Some,
        ensures
            r == (ConnectResponse {
                request_id: RequestId(p.request_id),
                protocol_version: p.protocol_version,
                result_code: result_code_of_value(p.result_code)->Some_0,
                result_string: p.result_string,
            }),
    {
        ConnectResponse {
            request_id: RequestId(p.request_id),
            protocol_version: p.protocol_version,
            result_code: read_code(p.result_code),
            result_string: p.result_string,
        }
    }
}

impl From<ConnectResponse> for autogen::ConnectResponse {
    /// The wire message.
    fn from(m: ConnectResponse) -> (r: autogen::ConnectResponse) {
        autogen::ConnectResponse {
            request_id: m.request_id.0,
            protocol_version: m.protocol_version,
            result_code: m.result_code.to_i32(),
            result_string: m.result_string,
        }
    }
}

impl vstd::std_specs::convert::FromSpecImpl<ConnectResponse> for autogen::ConnectResponse {
    open spec fn obeys_from_spec() -> bool {
        true
    }

    open spec fn from_spec(m: ConnectResponse) -> autogen::ConnectResponse {
        autogen::ConnectResponse {
            request_id: m.request_id.0,
            protocol_version: m.protocol_version,
            result_code: result_code_value(m.result_code),
            result_string: m.result_string,
        }
    }
}

/// The closing of a connection.
#[derive(Clone, PartialEq, Eq, Debug, Default)]
pub struct Disconnect {
    /// Why the connection closes.
    pub result_code: ResultCode,
    /// Why, in words.
    pub result_string: String,
}

impl Disconnect {
    /// Reads the wire message; its result code must be one the protocol defines.
    pub fn from_proto(p: autogen::Disconnect) -> (r: Disconnect)
        requires
            result_code_of_value(p.result_code) is Some,
        ensures
            r == (Disconnect {
                result_code: result_code_of_value(p.result_code)->Some_0,
                result_string: p.result_string,
            }),
    {
        Disconnect { result_code: read_code(p.result_code), result_string: p.result_string }
    }
}

impl From<Disconnect> for autogen::Disconnect {
    /// The wire message.
    fn from(m: Disconnect) -> (r: autogen::Disconnect) {
        autogen::Disconnect { result_code: m.result_code.to_i32(), result_string: m.result_string }
    }
}

impl vstd::std_specs::convert::FromSpecImpl<Disconnect> for autogen::Disconnect {
    open spec fn obeys_from_spec() -> bool {
        true
    }

    open spec fn from_spec(m: Disconnect) -> autogen::Disconnect {
        autogen::Disconnect {
            result_code: result_code_value(m.result_code),
            result_string: m.result_string,
        }
    }
}
/// The texts of optional strings.
pub open spec fn opt_text(o: Option<String>) -> Option<Seq<char>> {
    match o {
        Some(s) => Some(s@),
        None => None,
    }
}

/// The texts of optional access tokens.
pub open spec fn opt_token_text(o: Option<AccessToken>) -> Option<Seq<char>> {
    match o {
        Some(t) => Some(t.text()),
        None => None,
    }
}

/// The project uuid that a wire connect request names: the one in its intdash extension
/// fields, where that is not empty.
pub open spec fn wire_project(p: autogen::ConnectRequest) -> Option<Seq<char>> {
    match p.extension_fields {
        Some(e) => match e.intdash {
            Some(i) => if i.project_uuid@.len() > 0 {
                Some(i.project_uuid@)
            } else {
                None
            },
            None => None,
        },
        None => None,
    }
}

/// The access token that a wire connect request carries: the one of its extension fields,
/// where it has them.
pub open spec fn wire_token(p: autogen::ConnectRequest) -> Option<Seq<char>> {
    match p.extension_fields {
        Some(e) => Some(e.access_token@),
        None => None,
    }
}

/// A request to connect.
#[derive(Clone, PartialEq)]
pub struct ConnectRequest {
    /// The request id.
    pub request_id: RequestId,
    /// The protocol version.
    pub protocol_version: String,
    /// The id of the node that connects.
    pub node_id: String,
    /// The interval between pings.
    pub ping_interval: TimeDelta,
    /// How long a ping waits for its pong.
    pub ping_timeout: TimeDelta,
    /// The uuid of the project.
    pub project_uuid: Option<String>,
    /// The access token.
    pub access_token: Option<AccessToken>,
}

impl Default for ConnectRequest {
    fn default() -> (r: ConnectRequest)
        ensures
            r.request_id == RequestId(0),
            r.protocol_version@ == crate::iscp::connect::version_text(),
            r.node_id@ == Seq::<char>::empty(),
            r.ping_interval.total() == 10_000_000_000,
            r.ping_timeout.total() == 1_000_000_000,
            r.project_uuid is None,
            r.access_token is None,
    {
        let protocol_version = ISCP_VERSION.to_owned();
        proof {
            reveal_strlit("2.0.0");
            assert(protocol_version@ =~= crate::iscp::connect::version_text());
        }
        ConnectRequest {
            request_id: RequestId(0),
            protocol_version,
            node_id: String::new(),
            ping_interval: TimeDelta::seconds(10),
            ping_timeout: TimeDelta::seconds(1),
            project_uuid: None,
            access_token: None,
        }
    }
}

impl ConnectRequest {
    /// Whether this is what the wire request reads as.
    pub open spec fn reads(self, p: autogen::ConnectRequest) -> bool {
        &&& self.request_id == RequestId(p.request_id)
        &&& self.protocol_version@ == p.protocol_version@
        &&& self.node_id@ == p.node_id@
        &&& self.ping_interval.total() == p.ping_interval * 1_000_000_000
        &&& self.ping_timeout.total() == p.ping_timeout * 1_000_000_000
        &&& opt_text(self.project_uuid) == wire_project(p)
        &&& opt_token_text(self.access_token) == wire_token(p)
    }

    /// Whether the wire request is what this writes as: the spans in whole seconds, and
    /// extension fields where there is an access token or a project uuid; a project uuid
    /// without an access token goes with an empty token.
    pub open spec fn writes(self, p: autogen::ConnectRequest) -> bool {
        &&& p.request_id == self.request_id.0
        &&& p.protocol_version@ == self.protocol_version@
        &&& p.node_id@ == self.node_id@
        &&& p.ping_interval == wire_secs(self.ping_interval)
        &&& p.ping_timeout == wire_secs(self.ping_timeout)
        &&& if self.access_token is None && self.project_uuid is None {
            p.extension_fields is None
        } else {
            &&& p.extension_fields matches Some(e)
            &&& e.access_token@ == match self.access_token {
                Some(t) => t.text(),
                None => Seq::<char>::empty(),
            }
            &&& match self.project_uuid {
                Some(u) => e.intdash matches Some(i) && i.project_uuid@ == u@,
                None => e.intdash is None,
            }
        }
    }

    /// Reads the wire request.
    pub fn from_proto(p: autogen::ConnectRequest) -> (r: ConnectRequest)
        ensures
            r.reads(p),
    {
        let (access_token, project_uuid) = match p.extension_fields {
            Some(e) => {
                let project_uuid = match e.intdash {
                    Some(i) => if i.project_uuid.as_str().unicode_len() > 0 {
                        Some(i.project_uuid)
                    } else {
                        None
                    },
                    None => None,
                };
                (Some(AccessToken(e.access_token)), project_uuid)
            },
            None => (None, None),
        };
        ConnectRequest {
            request_id: RequestId(p.request_id),
            protocol_version: p.protocol_version,
            node_id: p.node_id,
            ping_interval: TimeDelta::seconds(p.ping_interval as i64),
            ping_timeout: TimeDelta::seconds(p.ping_timeout as i64),
            project_uuid,
            access_token,
        }
    }

    /// The wire request.
    pub fn to_proto(self) -> (r: autogen::ConnectRequest)
        ensures
            self.writes(r),
    {
        let ping_interval = #[verifier::truncate] (self.ping_interval.num_seconds() as u32);
        let ping_timeout = #[verifier::truncate] (self.ping_timeout.num_seconds() as u32);
        let intdash = match self.project_uuid {
            Some(u) => Some(autogen::IntdashExtensionFields { project_uuid: u }),
            None => None,
        };
        let extension_fields = match self.access_token {
            Some(t) => Some(autogen::ConnectRequestExtensionFields { access_token: t.0, intdash }),
            None => match intdash {
                Some(i) => Some(
                    autogen::ConnectRequestExtensionFields {
                        access_token: String::new(),
                        intdash: Some(i),
                    },
                ),
                None => None,
            },
        };
        autogen::ConnectRequest {
            request_id: self.request_id.0,
            protocol_version: self.protocol_version,
            node_id: self.node_id,
            ping_interval,
            ping_timeout,
            extension_fields,
        }
    }
}

impl ConnectResponse {
    /// Whether the wire message can be read: its codes are ones the protocol defines.
    pub open spec fn readable(p: autogen::ConnectResponse) -> bool {
        result_code_of_value(p.result_code) is Some
    }

    /// Whether this is what the wire message reads as.
    pub open spec fn reads(self, p: autogen::ConnectResponse) -> bool {
        &&& self.request_id == RequestId(p.request_id)
        &&& self.protocol_version@ == p.protocol_version@
        &&& Some(self.result_code) == result_code_of_value(p.result_code)
        &&& self.result_string@ == p.result_string@
    }

    /// Whether the wire message is what this writes as.
    pub open spec fn writes(self, p: autogen::ConnectResponse) -> bool {
        &&& p.request_id == self.request_id.0
        &&& p.protocol_version@ == self.protocol_version@
        &&& p.result_code == result_code_value(self.result_code)
        &&& p.result_string@ == self.result_string@
    }
}

impl Disconnect {
    /// Whether the wire message can be read: its codes are ones the protocol defines.
    pub open spec fn readable(p: autogen::Disconnect) -> bool {
        result_code_of_value(p.result_code) is Some
    }

    /// Whether this is what the wire message reads as.
    pub open spec fn reads(self, p: autogen::Disconnect) -> bool {
        &&& Some(self.result_code) == result_code_of_value(p.result_code)
        &&& self.result_string@ == p.result_string@
    }

    /// Whether the wire message is what this writes as.
    pub open spec fn writes(self, p: autogen::Disconnect) -> bool {
        &&& p.result_code == result_code_value(self.result_code)
        &&& p.result_string@ == self.result_string@
    }
}

impl ConnectRequest {
    /// Whether the wire carries this request exactly: its spans are whole seconds that fit in
    /// a `u32`, its project uuid, if any, is not empty, and it has an access token wherever it
    /// names a project (a project alone goes with an empty token, which reads back as a
    /// token).
    pub open spec fn exact(self) -> bool {
        &&& whole_secs_in_u32(self.ping_interval)
        &&& whole_secs_in_u32(self.ping_timeout)
        &&& self.project_uuid matches Some(u) ==> u@.len() > 0
        &&& self.project_uuid is Some ==> self.access_token is Some
    }
}

/// A connect request that the wire carries exactly reads back as itself from what it writes.
pub proof fn lemma_connect_request_read_back(m: ConnectRequest, p: autogen::ConnectRequest)
    requires
        m.writes(p),
        m.exact(),
    ensures
        m.reads(p),
{
    lemma_secs_read_back(m.ping_interval);
    lemma_secs_read_back(m.ping_timeout);
}

} // verus!
