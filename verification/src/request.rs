//! Requests: what the host asks for, how one is written on the wire, and how
//! one is shown in a message.
use vstd::prelude::*;
use vstd::string::StringExecFns;

verus! {

/// The commands of the peer family.
#[derive(Debug, Clone, Copy, PartialEq, Eq, Structural)]
pub enum PeerCommand {
    Create,
    Status,
    Delete,
}

/// The commands of the data family.
#[derive(Debug, Clone, Copy, PartialEq, Eq, Structural)]
pub enum DataCommand {
    Create,
    Delete,
    Connect,
    Redirect,
    Disconnect,
    Status,
}

/// The commands of the media family.
#[derive(Debug, Clone, Copy, PartialEq, Eq, Structural)]
pub enum MediaCommand {
    ContentCreate,
    ContentDelete,
    RtcpCreate,
    RtcpDelete,
    Call,
    Answer,
    Disconnect,
    Status,
}

impl PeerCommand {
    /// The command's tag on the wire.
    pub open spec fn tag_spec(self) -> Seq<char> {
        match self {
            PeerCommand::Create => "CREATE"@,
            PeerCommand::Status => "STATUS"@,
            PeerCommand::Delete => "DELETE"@,
        }
    }

    /// The command's name in a rendering.
    pub open spec fn name_spec(self) -> Seq<char> {
        match self {
            PeerCommand::Create => "Create"@,
            PeerCommand::Status => "Status"@,
            PeerCommand::Delete => "Delete"@,
        }
    }

    pub fn tag(self) -> (tag: &'static str)
        ensures
            tag@ == self.tag_spec(),
    {
        match self {
            PeerCommand::Create => "CREATE",
            PeerCommand::Status => "STATUS",
            PeerCommand::Delete => "DELETE",
        }
    }

    pub fn name(self) -> (name: &'static str)
        ensures
            name@ == self.name_spec(),
    {
        match self {
            PeerCommand::Create => "Create",
            PeerCommand::Status => "Status",
            PeerCommand::Delete => "Delete",
        }
    }
}

impl DataCommand {
    /// The command's tag on the wire.
    pub open spec fn tag_spec(self) -> Seq<char> {
        match self {
            DataCommand::Create => "CREATE"@,
            DataCommand::Delete => "DELETE"@,
            DataCommand::Connect => "CONNECT"@,
            DataCommand::Redirect => "REDIRECT"@,
            DataCommand::Disconnect => "DISCONNECT"@,
            DataCommand::Status => "STATUS"@,
        }
    }

    /// The command's name in a rendering.
    pub open spec fn name_spec(self) -> Seq<char> {
        match self {
            DataCommand::Create => "Create"@,
            DataCommand::Delete => "Delete"@,
            DataCommand::Connect => "Connect"@,
            DataCommand::Redirect => "Redirect"@,
            DataCommand::Disconnect => "Disconnect"@,
            DataCommand::Status => "Status"@,
        }
    }

    pub fn tag(self) -> (tag: &'static str)
        ensures
            tag@ == self.tag_spec(),
    {
        match self {
            DataCommand::Create => "CREATE",
            DataCommand::Delete => "DELETE",
            DataCommand::Connect => "CONNECT",
            DataCommand::Redirect => "REDIRECT",
            DataCommand::Disconnect => "DISCONNECT",
            DataCommand::Status => "STATUS",
        }
    }

    pub fn name(self) -> (name: &'static str)
        ensures
            name@ == self.name_spec(),
    {
        match self {
            DataCommand::Create => "Create",
            DataCommand::Delete => "Delete",
            DataCommand::Connect => "Connect",
            DataCommand::Redirect => "Redirect",
            DataCommand::Disconnect => "Disconnect",
            DataCommand::Status => "Status",
        }
    }
}

impl MediaCommand {
    /// The command's tag on the wire.
    pub open spec fn tag_spec(self) -> Seq<char> {
        match self {
            MediaCommand::ContentCreate => "CONTENT_CREATE"@,
            MediaCommand::ContentDelete => "CONTENT_DELETE"@,
            MediaCommand::RtcpCreate => "RTCP_CREATE"@,
            MediaCommand::RtcpDelete => "RTCP_DELETE"@,
            MediaCommand::Call => "CALL"@,
            MediaCommand::Answer => "ANSWER"@,
            MediaCommand::Disconnect => "DISCONNECT"@,
            MediaCommand::Status => "STATUS"@,
        }
    }

    /// The command's name in a rendering.
    pub open spec fn name_spec(self) -> Seq<char> {
        match self {
            MediaCommand::ContentCreate => "ContentCreate"@,
            MediaCommand::ContentDelete => "ContentDelete"@,
            MediaCommand::RtcpCreate => "RtcpCreate"@,
            MediaCommand::RtcpDelete => "RtcpDelete"@,
            MediaCommand::Call => "Call"@,
            MediaCommand::Answer => "Answer"@,
            MediaCommand::Disconnect => "Disconnect"@,
            MediaCommand::Status => "Status"@,
        }
    }

    pub fn tag(self) -> (tag: &'static str)
        ensures
            tag@ == self.tag_spec(),
    {
        match self {
            MediaCommand::ContentCreate => "CONTENT_CREATE",
            MediaCommand::ContentDelete => "CONTENT_DELETE",
            MediaCommand::RtcpCreate => "RTCP_CREATE",
            MediaCommand::RtcpDelete => "RTCP_DELETE",
            MediaCommand::Call => "CALL",
            MediaCommand::Answer => "ANSWER",
            MediaCommand::Disconnect => "DISCONNECT",
            MediaCommand::Status => "STATUS",
        }
    }

    pub fn name(self) -> (name: &'static str)
        ensures
            name@ == self.name_spec(),
    {
        match self {
            MediaCommand::ContentCreate => "ContentCreate",
            MediaCommand::ContentDelete => "ContentDelete",
            MediaCommand::RtcpCreate => "RtcpCreate",
            MediaCommand::RtcpDelete => "RtcpDelete",
            MediaCommand::Call => "Call",
            MediaCommand::Answer => "Answer",
            MediaCommand::Disconnect => "Disconnect",
            MediaCommand::Status => "Status",
        }
    }
}

/// Whether two texts are the same.
fn same(left: &str, right: &str) -> (equal: bool)
    ensures
        equal == (left@ == right@),
{
    let left = String::from_str(left);
    let right = String::from_str(right);
    left == right
}

impl PeerCommand {
    /// The command that a tag stands for, if it stands for one.
    pub open spec fn from_tag_spec(tag: Seq<char>) -> Option<PeerCommand> {
        if tag == "CREATE"@ {
            Some(PeerCommand::Create)
        } else if tag == "STATUS"@ {
            Some(PeerCommand::Status)
        } else if tag == "DELETE"@ {
            Some(PeerCommand::Delete)
        } else {
            None
        }
    }

    /// The command whose tag this is, if it is the tag of one.
    pub fn from_tag(tag: &str) -> (command: Option<PeerCommand>)
        ensures
            command == Self::from_tag_spec(tag@),
    {
        if same(tag, "CREATE") {
            Some(PeerCommand::Create)
        } else if same(tag, "STATUS") {
            Some(PeerCommand::Status)
        } else if same(tag, "DELETE") {
            Some(PeerCommand::Delete)
        } else {
            None
        }
    }
}

impl DataCommand {
    /// The command that a tag stands for, if it stands for one.
    pub open spec fn from_tag_spec(tag: Seq<char>) -> Option<DataCommand> {
        if tag == "CREATE"@ {
            Some(DataCommand::Create)
        } else if tag == "DELETE"@ {
            Some(DataCommand::Delete)
        } else if tag == "CONNECT"@ {
            Some(DataCommand::Connect)
        } else if tag == "REDIRECT"@ {
            Some(DataCommand::Redirect)
        } else if tag == "DISCONNECT"@ {
            Some(DataCommand::Disconnect)
        } else if tag == "STATUS"@ {
            Some(DataCommand::Status)
        } else {
            None
        }
    }

    /// The command whose tag this is, if it is the tag of one.
    pub fn from_tag(tag: &str) -> (command: Option<DataCommand>)
        ensures
            command == Self::from_tag_spec(tag@),
    {
        if same(tag, "CREATE") {
            Some(DataCommand::Create)
        } else if same(tag, "DELETE") {
            Some(DataCommand::Delete)
        } else if same(tag, "CONNECT") {
            Some(DataCommand::Connect)
        } else if same(tag, "REDIRECT") {
            Some(DataCommand::Redirect)
        } else if same(tag, "DISCONNECT") {
            Some(DataCommand::Disconnect)
        } else if same(tag, "STATUS") {
            Some(DataCommand::Status)
        } else {
            None
        }
    }
}

impl MediaCommand {
    /// The command that a tag stands for, if it stands for one.
    pub open spec fn from_tag_spec(tag: Seq<char>) -> Option<MediaCommand> {
        if tag == "CONTENT_CREATE"@ {
            Some(MediaCommand::ContentCreate)
        } else if tag == "CONTENT_DELETE"@ {
            Some(MediaCommand::ContentDelete)
        } else if tag == "RTCP_CREATE"@ {
            Some(MediaCommand::RtcpCreate)
        } else if tag == "RTCP_DELETE"@ {
            Some(MediaCommand::RtcpDelete)
        } else if tag == "CALL"@ {
            Some(MediaCommand::Call)
        } else if tag == "ANSWER"@ {
            Some(MediaCommand::Answer)
        } else if tag == "DISCONNECT"@ {
            Some(MediaCommand::Disconnect)
        } else if tag == "STATUS"@ {
            Some(MediaCommand::Status)
        } else {
            None
        }
    }

    /// The command whose tag this is, if it is the tag of one.
    pub fn from_tag(tag: &str) -> (command: Option<MediaCommand>)
        ensures
            command == Self::from_tag_spec(tag@),
    {
        if same(tag, "CONTENT_CREATE") {
            Some(MediaCommand::ContentCreate)
        } else if same(tag, "CONTENT_DELETE") {
            Some(MediaCommand::ContentDelete)
        } else if same(tag, "RTCP_CREATE") {
            Some(MediaCommand::RtcpCreate)
        } else if same(tag, "RTCP_DELETE") {
            Some(MediaCommand::RtcpDelete)
        } else if same(tag, "CALL") {
            Some(MediaCommand::Call)
        } else if same(tag, "ANSWER") {
            Some(MediaCommand::Answer)
        } else if same(tag, "DISCONNECT") {
            Some(MediaCommand::Disconnect)
        } else if same(tag, "STATUS") {
            Some(MediaCommand::Status)
        } else {
            None
        }
    }
}

/// A peer command with its parameters, the latter as JSON text that the
/// bridge carries and never reads.
#[derive(Debug, Clone, PartialEq, Eq)]
pub struct PeerServiceParams {
    pub command: PeerCommand,
    pub params: String,
}

/// A data command with its parameters as JSON text.
#[derive(Debug, Clone, PartialEq, Eq)]
pub struct DataServiceParams {
    pub command: DataCommand,
    pub params: String,
}

/// A media command with its parameters as JSON text.
#[derive(Debug, Clone, PartialEq, Eq)]
pub struct MediaServiceParams {
    pub command: MediaCommand,
    pub params: String,
}

pub struct PeerServiceParamsView {
    pub command: PeerCommand,
    pub params: Seq<char>,
}

pub struct DataServiceParamsView {
    pub command: DataCommand,
    pub params: Seq<char>,
}

pub struct MediaServiceParamsView {
    pub command: MediaCommand,
    pub params: Seq<char>,
}

impl View for PeerServiceParams {
    type V = PeerServiceParamsView;

    open spec fn view(&self) -> PeerServiceParamsView {
        PeerServiceParamsView { command: self.command, params: self.params@ }
    }
}

impl View for DataServiceParams {
    type V = DataServiceParamsView;

    open spec fn view(&self) -> DataServiceParamsView {
        DataServiceParamsView { command: self.command, params: self.params@ }
    }
}

impl View for MediaServiceParams {
    type V = MediaServiceParamsView;

    open spec fn view(&self) -> MediaServiceParamsView {
        MediaServiceParamsView { command: self.command, params: self.params@ }
    }
}

/// A request the worker can be sent: one family, one command of it, and
/// the command's parameters.
#[derive(Debug, Clone, PartialEq, Eq)]
pub enum Request {
    Peer(PeerServiceParams),
    Data(DataServiceParams),
    Media(MediaServiceParams),
}

pub enum RequestView {
    Peer(PeerServiceParamsView),
    Data(DataServiceParamsView),
    Media(MediaServiceParamsView),
}

impl View for Request {
    type V = RequestView;

    open spec fn view(&self) -> RequestView {
        match self {
            Request::Peer(inner) => RequestView::Peer(inner@),
            Request::Data(inner) => RequestView::Data(inner@),
            Request::Media(inner) => RequestView::Media(inner@),
        }
    }
}

/// The text of a request on the wire: an object that names the family under
/// `type` and the command under `command`, and holds the parameters under
/// `params`.
pub open spec fn wire_text(family: Seq<char>, command: Seq<char>, params: Seq<char>) -> Seq<char> {
    "{\"type\":\""@ + family + "\",\"command\":\""@ + command + "\",\"params\":"@ + params + "}"@
}

/// The text by which a request is shown in a message: the family's name, and
/// in brackets the command's name with the parameters.
pub open spec fn shown_text(family: Seq<char>, command: Seq<char>, params: Seq<char>) -> Seq<char> {
    family + "("@ + command + " { params: "@ + params + " })"@
}

fn write_wire(family: &str, command: &str, params: &str) -> (payload: String)
    ensures
        payload@ == wire_text(family@, command@, params@),
{
    let mut payload = String::from_str("{\"type\":\"");
    payload.append(family);
    payload.append("\",\"command\":\"");
    payload.append(command);
    payload.append("\",\"params\":");
    payload.append(params);
    payload.append("}");
    payload
}

fn write_shown(family: &str, command: &str, params: &str) -> (text: String)
    ensures
        text@ == shown_text(family@, command@, params@),
{
    let mut text = String::from_str(family);
    text.append("(");
    text.append(command);
    text.append(" { params: ");
    text.append(params);
    text.append(" })");
    text
}

impl RequestView {
    /// The family's tag on the wire.
    pub open spec fn family_tag(self) -> Seq<char> {
        match self {
            RequestView::Peer(_) => "PEER"@,
            RequestView::Data(_) => "DATA"@,
            RequestView::Media(_) => "MEDIA"@,
        }
    }

    /// The command's tag on the wire.
    pub open spec fn command_tag(self) -> Seq<char> {
        match self {
            RequestView::Peer(inner) => inner.command.tag_spec(),
            RequestView::Data(inner) => inner.command.tag_spec(),
            RequestView::Media(inner) => inner.command.tag_spec(),
        }
    }

    /// The parameters, as the text they were given in.
    pub open spec fn params(self) -> Seq<char> {
        match self {
            RequestView::Peer(inner) => inner.params,
            RequestView::Data(inner) => inner.params,
            RequestView::Media(inner) => inner.params,
        }
    }

    /// The payload that goes to the worker for this request.
    pub open spec fn wire(self) -> Seq<char> {
        wire_text(self.family_tag(), self.command_tag(), self.params())
    }

    /// The rendering of this request.
    pub open spec fn shown(self) -> Seq<char> {
        match self {
            RequestView::Peer(inner) => shown_text(
                "Peer"@,
                inner.command.name_spec(),
                inner.params,
            ),
            RequestView::Data(inner) => shown_text(
                "Data"@,
                inner.command.name_spec(),
                inner.params,
            ),
            RequestView::Media(inner) => shown_text(
                "Media"@,
                inner.command.name_spec(),
                inner.params,
            ),
        }
    }
}

impl Request {
    /// Writes the request as the payload that goes to the worker. Every
    /// request has one: there is no request that cannot be written.
    pub fn to_wire(&self) -> (payload: String)
        ensures
            payload@ == self@.wire(),
    {
        match self {
            Request::Peer(inner) => write_wire("PEER", inner.command.tag(), inner.params.as_str()),
            Request::Data(inner) => write_wire("DATA", inner.command.tag(), inner.params.as_str()),
            Request::Media(inner) => write_wire(
                "MEDIA",
                inner.command.tag(),
                inner.params.as_str(),
            ),
        }
    }

    /// Writes the request as it is shown in a message.
    pub fn render(&self) -> (text: String)
        ensures
            text@ == self@.shown(),
    {
        match self {
            Request::Peer(inner) => write_shown(
                "Peer",
                inner.command.name(),
                inner.params.as_str(),
            ),
            Request::Data(inner) => write_shown(
                "Data",
                inner.command.name(),
                inner.params.as_str(),
            ),
            Request::Media(inner) => write_shown(
                "Media",
                inner.command.name(),
                inner.params.as_str(),
            ),
        }
    }
}

/// A request as the host hands it over, before any service has looked at
/// it. Besides the three families it has a shape that no service serves.
#[derive(Debug, Clone, PartialEq, Eq)]
pub enum RequestDto {
    Peer(PeerServiceParams),
    Data(DataServiceParams),
    Media(MediaServiceParams),
    Test,
}

pub enum RequestDtoView {
    Peer(PeerServiceParamsView),
    Data(DataServiceParamsView),
    Media(MediaServiceParamsView),
    Test,
}

impl View for RequestDto {
    type V = RequestDtoView;

    open spec fn view(&self) -> RequestDtoView {
        match self {
            RequestDto::Peer(inner) => RequestDtoView::Peer(inner@),
            RequestDto::Data(inner) => RequestDtoView::Data(inner@),
            RequestDto::Media(inner) => RequestDtoView::Media(inner@),
            RequestDto::Test => RequestDtoView::Test,
        }
    }
}

impl RequestDtoView {
    /// The request this stands for, if it stands for one.
    pub open spec fn request(self) -> Option<RequestView> {
        match self {
            RequestDtoView::Peer(inner) => Some(RequestView::Peer(inner)),
            RequestDtoView::Data(inner) => Some(RequestView::Data(inner)),
            RequestDtoView::Media(inner) => Some(RequestView::Media(inner)),
            RequestDtoView::Test => None,
        }
    }

    /// The rendering: that of the request it stands for, or the bare name
    /// of the shape.
    pub open spec fn shown(self) -> Seq<char> {
        match self.request() {
            Some(request) => request.shown(),
            None => "Test"@,
        }
    }
}

impl RequestDto {
    /// Writes the request as it is shown in a message.
    pub fn render(&self) -> (text: String)
        ensures
            text@ == self@.shown(),
    {
        match self {
            RequestDto::Peer(inner) => write_shown(
                "Peer",
                inner.command.name(),
                inner.params.as_str(),
            ),
            RequestDto::Data(inner) => write_shown(
                "Data",
                inner.command.name(),
                inner.params.as_str(),
            ),
            RequestDto::Media(inner) => write_shown(
                "Media",
                inner.command.name(),
                inner.params.as_str(),
            ),
            RequestDto::Test => String::from_str("Test"),
        }
    }
}

/// The request that the three parts of a written request stand for: the
/// family under `type`, the command under `command`, and the parameters.
/// Parts that name no family, or no command of the family they name, stand
/// for nothing.
pub open spec fn from_parts_spec(
    family: Seq<char>,
    command: Seq<char>,
    params: Seq<char>,
) -> Option<RequestView> {
    if family == "PEER"@ {
        match PeerCommand::from_tag_spec(command) {
            Some(command) => Some(RequestView::Peer(PeerServiceParamsView { command, params })),
            None => None,
        }
    } else if family == "DATA"@ {
        match DataCommand::from_tag_spec(command) {
            Some(command) => Some(RequestView::Data(DataServiceParamsView { command, params })),
            None => None,
        }
    } else if family == "MEDIA"@ {
        match MediaCommand::from_tag_spec(command) {
            Some(command) => Some(RequestView::Media(MediaServiceParamsView { command, params })),
            None => None,
        }
    } else {
        None
    }
}

impl RequestDto {
    /// Puts a request together from the three parts of a written one.
    /// `None` says that the tags name no family and command that exist.
    pub fn from_parts(family: &str, command: &str, params: String) -> (message: Option<
        RequestDto,
    >)
        ensures
            match message {
                Some(message) => message@.request() is Some && message@.request()
                    == from_parts_spec(family@, command@, params@),
                None => from_parts_spec(family@, command@, params@) is None,
            },
    {
        if same(family, "PEER") {
            match PeerCommand::from_tag(command) {
                Some(command) => Some(RequestDto::Peer(PeerServiceParams { command, params })),
                None => None,
            }
        } else if same(family, "DATA") {
            match DataCommand::from_tag(command) {
                Some(command) => Some(RequestDto::Data(DataServiceParams { command, params })),
                None => None,
            }
        } else if same(family, "MEDIA") {
            match MediaCommand::from_tag(command) {
                Some(command) => Some(RequestDto::Media(MediaServiceParams { command, params })),
                None => None,
            }
        } else {
            None
        }
    }
}

/// Each peer command is the one that its own tag stands for.
pub proof fn lemma_peer_tag_round_trip(command: PeerCommand)
    ensures
        PeerCommand::from_tag_spec(command.tag_spec()) == Some(command),
{
    reveal_strlit("CREATE");
    reveal_strlit("STATUS");
    reveal_strlit("DELETE");
    assert("STATUS"@[0] != "CREATE"@[0]);
    assert("DELETE"@[0] != "CREATE"@[0]);
    assert("DELETE"@[0] != "STATUS"@[0]);
}

/// Each data command is the one that its own tag stands for.
pub proof fn lemma_data_tag_round_trip(command: DataCommand)
    ensures
        DataCommand::from_tag_spec(command.tag_spec()) == Some(command),
{
    reveal_strlit("CREATE");
    reveal_strlit("DELETE");
    reveal_strlit("CONNECT");
    reveal_strlit("REDIRECT");
    reveal_strlit("DISCONNECT");
    reveal_strlit("STATUS");
    assert("DELETE"@[0] != "CREATE"@[0]);
    assert("CONNECT"@.len() != "CREATE"@.len());
    assert("CONNECT"@.len() != "DELETE"@.len());
    assert("REDIRECT"@.len() != "CREATE"@.len());
    assert("REDIRECT"@.len() != "DELETE"@.len());
    assert("REDIRECT"@.len() != "CONNECT"@.len());
    assert("DISCONNECT"@.len() != "CREATE"@.len());
    assert("DISCONNECT"@.len() != "DELETE"@.len());
    assert("DISCONNECT"@.len() != "CONNECT"@.len());
    assert("DISCONNECT"@.len() != "REDIRECT"@.len());
    assert("STATUS"@[0] != "CREATE"@[0]);
    assert("STATUS"@[0] != "DELETE"@[0]);
    assert("STATUS"@.len() != "CONNECT"@.len());
    assert("STATUS"@.len() != "REDIRECT"@.len());
    assert("STATUS"@.len() != "DISCONNECT"@.len());
}

/// Each media command is the one that its own tag stands for.
pub proof fn lemma_media_tag_round_trip(command: MediaCommand)
    ensures
        MediaCommand::from_tag_spec(command.tag_spec()) == Some(command),
{
    reveal_strlit("CONTENT_CREATE");
    reveal_strlit("CONTENT_DELETE");
    reveal_strlit("RTCP_CREATE");
    reveal_strlit("RTCP_DELETE");
    reveal_strlit("CALL");
    reveal_strlit("ANSWER");
    reveal_strlit("DISCONNECT");
    reveal_strlit("STATUS");
    assert("CONTENT_DELETE"@[8] != "CONTENT_CREATE"@[8]);
    assert("RTCP_CREATE"@.len() != "CONTENT_CREATE"@.len());
    assert("RTCP_CREATE"@.len() != "CONTENT_DELETE"@.len());
    assert("RTCP_DELETE"@.len() != "CONTENT_CREATE"@.len());
    assert("RTCP_DELETE"@.len() != "CONTENT_DELETE"@.len());
    assert("RTCP_DELETE"@[5] != "RTCP_CREATE"@[5]);
    assert("CALL"@.len() == 4);
    assert("ANSWER"@.len() == 6);
    assert("DISCONNECT"@.len() == 10);
    assert("STATUS"@.len() == 6);
    assert("STATUS"@[0] != "ANSWER"@[0]);
}

/// What is written for a request is read back as that request: the tags
/// that [`Request::to_wire`] writes, with the parameters, are the parts
/// that [`RequestDto::from_parts`] puts together into the same request.
pub proof fn lemma_written_request_is_read_back(request: RequestView)
    ensures
        from_parts_spec(request.family_tag(), request.command_tag(), request.params()) == Some(
            request,
        ),
{
    reveal_strlit("PEER");
    reveal_strlit("DATA");
    reveal_strlit("MEDIA");
    assert("DATA"@[0] != "PEER"@[0]);
    assert("MEDIA"@.len() != "PEER"@.len());
    assert("MEDIA"@.len() != "DATA"@.len());
    match request {
        RequestView::Peer(inner) => lemma_peer_tag_round_trip(inner.command),
        RequestView::Data(inner) => lemma_data_tag_round_trip(inner.command),
        RequestView::Media(inner) => lemma_media_tag_round_trip(inner.command),
    }
}

} // verus!
