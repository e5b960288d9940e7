//! What a probe and its driver say to each other.
//!
//! A probe performs no input or output. It is asked what to do next, given
//! the evidence gathered so far, and answers with an [`Action`]: read a
//! file, fetch a document from a metadata server, or stop with a verdict.
//! The driver performs the action and adds what it observed to the
//! [`Evidence`].

use vstd::prelude::*;
use vstd::string::StringExecFns;

verus! {

/// What was found at a path of the local file system.
#[derive(Debug, Clone, PartialEq, Eq)]
pub enum FileEvidence {
    /// There is no regular file at the path.
    Absent,
    /// There is a file, but it could not be read as text.
    Unreadable,
    /// The content of the file.
    Content(String),
}

/// The mathematical value of a [`FileEvidence`].
pub enum FileEvidenceView {
    Absent,
    Unreadable,
    Content(Seq<char>),
}

impl View for FileEvidence {
    type V = FileEvidenceView;

    open spec fn view(&self) -> FileEvidenceView {
        match self {
            FileEvidence::Absent => FileEvidenceView::Absent,
            FileEvidence::Unreadable => FileEvidenceView::Unreadable,
            FileEvidence::Content(text) => FileEvidenceView::Content(text@),
        }
    }
}

/// One header of a request.
#[derive(Debug, Clone, PartialEq, Eq)]
pub struct Header {
    pub name: String,
    pub value: String,
}

/// The mathematical value of a [`Header`].
pub struct HeaderView {
    pub name: Seq<char>,
    pub value: Seq<char>,
}

impl View for Header {
    type V = HeaderView;

    open spec fn view(&self) -> HeaderView {
        HeaderView { name: self.name@, value: self.value@ }
    }
}

/// How the driver is to decode the response to a request.
#[derive(Debug, Clone, Copy, PartialEq, Eq, Structural)]
pub enum Expect {
    /// Only the status line matters; the body is not read.
    Status,
    /// The body as text.
    Text,
    /// The body as the instance description of Akamai's metadata service.
    AkamaiInstance,
    /// The body as the instance identity document of AWS.
    AwsIdentity,
    /// The body as the instance description of Azure's metadata service.
    AzureInstance,
    /// The body as the droplet description of DigitalOcean.
    Droplet,
    /// The body as the instance metadata of OCI.
    OciInstance,
    /// The body as the instance description of Vultr.
    VultrInstance,
}

/// A GET request to a metadata server.
#[derive(Debug, Clone, PartialEq, Eq)]
pub struct Request {
    /// The address to fetch.
    pub url: String,
    /// The headers to send, in order.
    pub headers: Vec<Header>,
    /// The time allowed for the whole exchange, in seconds.
    pub timeout: u64,
    /// What to decode from the response.
    pub expect: Expect,
}

/// The mathematical value of a [`Request`].
pub struct RequestView {
    pub url: Seq<char>,
    pub headers: Seq<HeaderView>,
    pub timeout: u64,
    pub expect: Expect,
}

impl View for Request {
    type V = RequestView;

    open spec fn view(&self) -> RequestView {
        RequestView {
            url: self.url@,
            headers: self.headers@.map_values(|h: Header| h@),
            timeout: self.timeout,
            expect: self.expect,
        }
    }
}

impl Request {
    /// A request for `url` without headers.
    pub fn get(url: String, timeout: u64, expect: Expect) -> (request: Request)
        ensures
            request@ == (RequestView { url: url@, headers: Seq::empty(), timeout, expect }),
    {
        let request = Request { url, headers: Vec::new(), timeout, expect };
        assert(request@.headers =~= Seq::empty());
        request
    }

    /// The same request with one more header at the end.
    pub fn header(self, name: &str, value: &str) -> (request: Request)
        ensures
            request@ == (RequestView {
                headers: self@.headers.push(HeaderView { name: name@, value: value@ }),
                ..self@
            }),
    {
        let ghost before = self@;
        let mut request = self;
        let header = Header { name: String::from_str(name), value: String::from_str(value) };
        request.headers.push(header);
        assert(request@.headers =~= before.headers.push(
            HeaderView { name: name@, value: value@ },
        ));
        request
    }
}

/// The address of `path` on the server at `base`.
pub fn join(base: &str, path: &str) -> (url: String)
    ensures
        url@ == base@ + path@,
{
    String::from_str(base).concat(path)
}

/// What was decoded from the body of a response.
#[derive(Debug, Clone, PartialEq, Eq)]
pub enum Body {
    /// The body was not read.
    Empty,
    /// The body as text.
    Text(String),
    /// Akamai's instance description.
    AkamaiInstance { id: isize, host_uuid: String },
    /// The instance identity document of AWS.
    AwsIdentity { image_id: String, instance_id: String },
    /// Azure's instance description, reduced to the identifier of the
    /// virtual machine.
    AzureInstance { vm_id: String },
    /// DigitalOcean's droplet description.
    Droplet { droplet_id: usize },
    /// The instance metadata of OCI.
    OciInstance { oke_tm: String },
    /// Vultr's instance description.
    VultrInstance { instance_id: String },
}

/// The mathematical value of a [`Body`].
pub enum BodyView {
    Empty,
    Text(Seq<char>),
    AkamaiInstance { id: isize, host_uuid: Seq<char> },
    AwsIdentity { image_id: Seq<char>, instance_id: Seq<char> },
    AzureInstance { vm_id: Seq<char> },
    Droplet { droplet_id: usize },
    OciInstance { oke_tm: Seq<char> },
    VultrInstance { instance_id: Seq<char> },
}

impl View for Body {
    type V = BodyView;

    open spec fn view(&self) -> BodyView {
        match self {
            Body::Empty => BodyView::Empty,
            Body::Text(text) => BodyView::Text(text@),
            Body::AkamaiInstance { id, host_uuid } => BodyView::AkamaiInstance {
                id: *id,
                host_uuid: host_uuid@,
            },
            Body::AwsIdentity { image_id, instance_id } => BodyView::AwsIdentity {
                image_id: image_id@,
                instance_id: instance_id@,
            },
            Body::AzureInstance { vm_id } => BodyView::AzureInstance { vm_id: vm_id@ },
            Body::Droplet { droplet_id } => BodyView::Droplet { droplet_id: *droplet_id },
            Body::OciInstance { oke_tm } => BodyView::OciInstance { oke_tm: oke_tm@ },
            Body::VultrInstance { instance_id } => BodyView::VultrInstance {
                instance_id: instance_id@,
            },
        }
    }
}

/// What came of a request.
#[derive(Debug, Clone, PartialEq, Eq)]
pub enum Reply {
    /// The request could not be sent, or no response arrived in time.
    Unreachable,
    /// A response arrived, but its body could not be read or decoded as
    /// the request expected.
    Undecodable,
    /// A response arrived and was decoded.
    Received { status: u16, body: Body },
}

/// The mathematical value of a [`Reply`].
pub enum ReplyView {
    Unreachable,
    Undecodable,
    Received { status: u16, body: BodyView },
}

impl View for Reply {
    type V = ReplyView;

    open spec fn view(&self) -> ReplyView {
        match self {
            Reply::Unreachable => ReplyView::Unreachable,
            Reply::Undecodable => ReplyView::Undecodable,
            Reply::Received { status, body } => ReplyView::Received {
                status: *status,
                body: body@,
            },
        }
    }
}

/// The value of a reply that may not have arrived yet.
pub open spec fn arrived(reply: Option<&Reply>) -> Option<ReplyView> {
    match reply {
        Some(r) => Some(r@),
        None => None,
    }
}

/// Where a check against a metadata server stands: it either needs a
/// request sent, or it has reached its verdict.
#[derive(Debug, Clone, PartialEq, Eq)]
pub enum Exchange {
    /// The request to send next.
    Ask(Request),
    /// The verdict of the check.
    Decided(bool),
}

/// The mathematical value of an [`Exchange`].
pub enum ExchangeView {
    Ask(RequestView),
    Decided(bool),
}

impl View for Exchange {
    type V = ExchangeView;

    open spec fn view(&self) -> ExchangeView {
        match self {
            Exchange::Ask(request) => ExchangeView::Ask(request@),
            Exchange::Decided(verdict) => ExchangeView::Decided(*verdict),
        }
    }
}

/// What a probe asks its driver to do next.
#[derive(Debug, Clone, PartialEq, Eq)]
pub enum Action {
    /// Read the file at this path and add what was found to the evidence.
    ReadFile(String),
    /// Send this request and add the reply to the evidence.
    Fetch(Request),
    /// Stop: the probe has identified its provider, or it has not.
    Done(bool),
}

/// The mathematical value of an [`Action`].
pub enum ActionView {
    ReadFile(Seq<char>),
    Fetch(RequestView),
    Done(bool),
}

impl View for Action {
    type V = ActionView;

    open spec fn view(&self) -> ActionView {
        match self {
            Action::ReadFile(path) => ActionView::ReadFile(path@),
            Action::Fetch(request) => ActionView::Fetch(request@),
            Action::Done(matched) => ActionView::Done(*matched),
        }
    }
}

/// What the driver of one probe has observed so far: the files it was
/// asked to read and the replies to the requests it was asked to send,
/// each in the order asked.
#[derive(Debug, Clone, PartialEq, Eq)]
pub struct Evidence {
    pub files: Vec<FileEvidence>,
    pub replies: Vec<Reply>,
}

/// The mathematical value of an [`Evidence`].
pub struct EvidenceView {
    pub files: Seq<FileEvidenceView>,
    pub replies: Seq<ReplyView>,
}

impl View for Evidence {
    type V = EvidenceView;

    open spec fn view(&self) -> EvidenceView {
        EvidenceView {
            files: self.files@.map_values(|f: FileEvidence| f@),
            replies: self.replies@.map_values(|r: Reply| r@),
        }
    }
}

impl EvidenceView {
    /// The evidence of a probe that has not observed anything yet.
    pub open spec fn empty() -> EvidenceView {
        EvidenceView { files: Seq::empty(), replies: Seq::empty() }
    }

    /// The reply at `index`, if it has arrived.
    pub open spec fn reply(self, index: int) -> Option<ReplyView> {
        if 0 <= index < self.replies.len() {
            Some(self.replies[index])
        } else {
            None
        }
    }
}

impl Evidence {
    /// The evidence of a probe that has not observed anything yet.
    pub fn new() -> (evidence: Evidence)
        ensures
            evidence@ == EvidenceView::empty(),
    {
        let evidence = Evidence { files: Vec::new(), replies: Vec::new() };
        assert(evidence@.files =~= Seq::empty());
        assert(evidence@.replies =~= Seq::empty());
        evidence
    }

    /// The reply at `index`, if it has arrived.
    pub fn reply(&self, index: usize) -> (reply: Option<&Reply>)
        ensures
            arrived(reply) == self@.reply(index as int),
    {
        if index < self.replies.len() {
            Some(&self.replies[index])
        } else {
            None
        }
    }

    /// Adds what was found at a path that the probe asked to read.
    pub fn add_file(&mut self, file: FileEvidence)
        ensures
            final(self)@.files == old(self)@.files.push(file@),
            final(self)@.replies == old(self)@.replies,
    {
        self.files.push(file);
        assert(self@.files =~= old(self)@.files.push(file@));
    }

    /// Adds the reply to a request that the probe asked to send.
    pub fn add_reply(&mut self, reply: Reply)
        ensures
            final(self)@.replies == old(self)@.replies.push(reply@),
            final(self)@.files == old(self)@.files,
    {
        self.replies.push(reply);
        assert(self@.replies =~= old(self)@.replies.push(reply@));
    }
}

/// The action that follows from where a metadata check stands: send what
/// it asks for, or stop with its verdict.
pub open spec fn action_of(exchange: ExchangeView) -> ActionView {
    match exchange {
        ExchangeView::Ask(request) => ActionView::Fetch(request),
        ExchangeView::Decided(verdict) => ActionView::Done(verdict),
    }
}

/// Turns the state of a metadata check into the probe's next action.
pub fn into_action(exchange: Exchange) -> (action: Action)
    ensures
        action@ == action_of(exchange@),
{
    match exchange {
        Exchange::Ask(request) => Action::Fetch(request),
        Exchange::Decided(verdict) => Action::Done(verdict),
    }
}

/// Whether a status code lies in the range of success, 200 to 299.
pub open spec fn success_status(status: u16) -> bool {
    200 <= status < 300
}

/// Whether a status code lies in the range of success, 200 to 299.
pub fn is_success(status: u16) -> (success: bool)
    ensures
        success == success_status(status),
{
    200 <= status && status < 300
}

} // verus!
