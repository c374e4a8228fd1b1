//! Clients of remote tool servers (MCP) over three transports, and the tools
//! they expose. The wire sessions themselves are opened and driven by the
//! caller; this module holds what each client is, when a session must be
//! opened or closed, and how remote output becomes a tool result.

use vstd::prelude::*;
use crate::capability::ToolCapability;
use crate::text::digits;
use crate::tool::{ToolCall, ToolResult};

verus! {

/// How to reach a remote tool server.
#[derive(Clone, Debug)]
pub enum McpConfig {
    Stdio { command: String, args: Vec<String> },
    Http { url: String, bearer_token: Option<String> },
    Sse { url: String },
}

pub open spec fn config_text(c: McpConfig) -> Seq<char> {
    match c {
        McpConfig::Stdio { command, .. } => "stdio: "@ + command@,
        McpConfig::Http { url, bearer_token } => if bearer_token is Some {
            "http: "@ + url@ + " (authenticated)"@
        } else {
            "http: "@ + url@
        },
        McpConfig::Sse { url } => "sse: "@ + url@,
    }
}

impl McpConfig {
    /// A one-line description for listings.
    pub fn describe(&self) -> (r: String)
        ensures
            r@ == config_text(*self),
    {
        match self {
            McpConfig::Stdio { command, .. } => {
                let mut s = String::from_str("stdio: ");
                s.append(command.as_str());
                s
            }
            McpConfig::Http { url, bearer_token } => {
                let mut s = String::from_str("http: ");
                s.append(url.as_str());
                if bearer_token.is_some() {
                    s.append(" (authenticated)");
                }
                s
            }
            McpConfig::Sse { url } => {
                let mut s = String::from_str("sse: ");
                s.append(url.as_str());
                s
            }
        }
    }
}

/// The shared behaviour of the three clients: a session is opened at most
/// once, and closing without one is no error.
pub trait McpClient: Sized {
    spec fn connected(&self) -> bool;

    /// The two clients reach the same server the same way.
    spec fn same_config(&self, other: &Self) -> bool;

    fn is_connected(&self) -> (r: bool)
        ensures
            r == self.connected();

    /// Whether a session must be opened now; none while one is open.
    fn needs_connect(&self) -> (r: bool)
        ensures
            r == !self.connected();

    /// Records that the session was opened.
    fn mark_connected(&mut self)
        ensures
            final(self).connected(),
            final(self).same_config(old(self));

    /// Closes the session: says whether there was one to cancel. A client
    /// without a session is left exactly as it was.
    fn disconnect(&mut self) -> (r: bool)
        ensures
            r == old(self).connected(),
            !final(self).connected(),
            final(self).same_config(old(self)),
            !old(self).connected() ==> *final(self) == *old(self);
}

/// A server run as a child process, spoken to over its standard streams.
#[derive(Clone, Debug)]
pub struct StdioClient {
    pub command: String,
    pub args: Vec<String>,
    pub connected: bool,
}

/// A server reached over streamable HTTP, with an optional bearer token sent
/// on every request.
#[derive(Clone, Debug)]
pub struct HttpClient {
    pub url: String,
    pub bearer_token: Option<String>,
    pub connected: bool,
}

/// A server reached over a server-sent event stream and its request channel.
#[derive(Clone, Debug)]
pub struct SseClient {
    pub url: String,
    pub connected: bool,
}

impl StdioClient {
    pub fn new(command: String, args: Vec<String>) -> (r: StdioClient)
        ensures
            r.command == command,
            r.args == args,
            !r.connected(),
    {
        StdioClient { command, args, connected: false }
    }
}

impl HttpClient {
    pub fn new(url: String) -> (r: HttpClient)
        ensures
            r.url == url,
            r.bearer_token is None,
            !r.connected(),
    {
        HttpClient::new_with_auth(url, None)
    }

    pub fn new_with_auth(url: String, bearer_token: Option<String>) -> (r: HttpClient)
        ensures
            r.url == url,
            r.bearer_token == bearer_token,
            !r.connected(),
    {
        HttpClient { url, bearer_token, connected: false }
    }

    /// The `Authorization` header value sent with every request, if any.
    pub fn authorization_header(&self) -> (r: Option<String>)
        ensures
            match self.bearer_token {
                Some(t) => r matches Some(h) && h@ == "Bearer "@ + t@,
                None => r is None,
            },
    {
        match &self.bearer_token {
            Some(t) => {
                let mut h = String::from_str("Bearer ");
                h.append(t.as_str());
                Some(h)
            }
            None => None,
        }
    }
}

impl SseClient {
    pub fn new(url: String) -> (r: SseClient)
        ensures
            r.url == url,
            !r.connected(),
    {
        SseClient { url, connected: false }
    }
}

impl McpClient for StdioClient {
    open spec fn connected(&self) -> bool {
        self.connected
    }

    open spec fn same_config(&self, other: &Self) -> bool {
        self.command == other.command && self.args == other.args
    }

    fn is_connected(&self) -> (r: bool) {
        self.connected
    }

    fn needs_connect(&self) -> (r: bool) {
        !self.connected
    }

    fn mark_connected(&mut self) {
        self.connected = true;
    }

    fn disconnect(&mut self) -> (r: bool) {
        let was = self.connected;
        self.connected = false;
        was
    }
}

impl McpClient for HttpClient {
    open spec fn connected(&self) -> bool {
        self.connected
    }

    open spec fn same_config(&self, other: &Self) -> bool {
        self.url == other.url && self.bearer_token == other.bearer_token
    }

    fn is_connected(&self) -> (r: bool) {
        self.connected
    }

    fn needs_connect(&self) -> (r: bool) {
        !self.connected
    }

    fn mark_connected(&mut self) {
        self.connected = true;
    }

    fn disconnect(&mut self) -> (r: bool) {
        let was = self.connected;
        self.connected = false;
        was
    }
}

impl McpClient for SseClient {
    open spec fn connected(&self) -> bool {
        self.connected
    }

    open spec fn same_config(&self, other: &Self) -> bool {
        self.url == other.url
    }

    fn is_connected(&self) -> (r: bool) {
        self.connected
    }

    fn needs_connect(&self) -> (r: bool) {
        !self.connected
    }

    fn mark_connected(&mut self) {
        self.connected = true;
    }

    fn disconnect(&mut self) -> (r: bool) {
        let was = self.connected;
        self.connected = false;
        was
    }
}

/// One of the three clients, as the factory makes them.
#[derive(Clone, Debug)]
pub enum AnyMcpClient {
    Stdio(StdioClient),
    Http(HttpClient),
    Sse(SseClient),
}

impl AnyMcpClient {
    pub open spec fn connected(&self) -> bool {
        match self {
            AnyMcpClient::Stdio(c) => c.connected(),
            AnyMcpClient::Http(c) => c.connected(),
            AnyMcpClient::Sse(c) => c.connected(),
        }
    }

    /// `connect` opens a session only when none is open.
    pub open spec fn connect_opens(&self) -> bool {
        !self.connected()
    }

    /// `disconnect` cancels a session only when one is open.
    pub open spec fn disconnect_cancels(&self) -> bool {
        self.connected()
    }

    pub fn needs_connect(&self) -> (r: bool)
        ensures
            r == self.connect_opens(),
    {
        match self {
            AnyMcpClient::Stdio(c) => c.needs_connect(),
            AnyMcpClient::Http(c) => c.needs_connect(),
            AnyMcpClient::Sse(c) => c.needs_connect(),
        }
    }

    pub fn mark_connected(&mut self)
        ensures
            final(self).connected(),
            *old(self) is Stdio <==> *final(self) is Stdio,
            *old(self) is Http <==> *final(self) is Http,
    {
        match self {
            AnyMcpClient::Stdio(c) => c.mark_connected(),
            AnyMcpClient::Http(c) => c.mark_connected(),
            AnyMcpClient::Sse(c) => c.mark_connected(),
        }
    }

    pub fn disconnect(&mut self) -> (r: bool)
        ensures
            r == old(self).disconnect_cancels(),
            !final(self).connected(),
            !old(self).connected() ==> *final(self) == *old(self),
    {
        match self {
            AnyMcpClient::Stdio(c) => c.disconnect(),
            AnyMcpClient::Http(c) => c.disconnect(),
            AnyMcpClient::Sse(c) => c.disconnect(),
        }
    }
}

/// Makes the client that a configuration names; it starts without a session.
pub fn create_mcp_client(config: McpConfig) -> (r: AnyMcpClient)
    ensures
        !r.connected(),
        match config {
            McpConfig::Stdio { command, args } => r matches AnyMcpClient::Stdio(c) && c.command == command && c.args == args,
            McpConfig::Http { url, bearer_token } => r matches AnyMcpClient::Http(c) && c.url == url && c.bearer_token == bearer_token,
            McpConfig::Sse { url } => r matches AnyMcpClient::Sse(c) && c.url == url,
        },
{
    match config {
        McpConfig::Stdio { command, args } => AnyMcpClient::Stdio(StdioClient::new(command, args)),
        McpConfig::Http { url, bearer_token } => AnyMcpClient::Http(HttpClient::new_with_auth(url, bearer_token)),
        McpConfig::Sse { url } => AnyMcpClient::Sse(SseClient::new(url)),
    }
}

/// Connecting twice opens one session: once `connect` has recorded its
/// session, a second `connect` opens nothing. A client that never connected
/// (as the factory makes it, or after `disconnect`) has nothing for
/// `disconnect` to cancel, so disconnecting it is no error.
pub proof fn lemma_connect_disconnect_idempotent(made: AnyMcpClient, after_connect: AnyMcpClient, after_disconnect: AnyMcpClient)
    requires
        // what `create_mcp_client`, `mark_connected` and `disconnect` ensure
        !made.connected(),
        after_connect.connected(),
        !after_disconnect.connected(),
    ensures
        made.connect_opens(),
        !after_connect.connect_opens(),
        !made.disconnect_cancels(),
        !after_disconnect.disconnect_cancels(),
{
}

/// One item of a remote tool's output.
#[derive(Clone, Debug)]
pub enum ContentPart {
    Text(String),
    Image { bytes: usize },
    Resource,
    Audio { bytes: usize },
}

/// The fixed, lossy projection of one item to text.
pub open spec fn part_text(p: ContentPart) -> Seq<char> {
    match p {
        ContentPart::Text(t) => t@,
        ContentPart::Image { bytes } => "[Image: "@ + digits(bytes as nat) + " bytes]"@,
        ContentPart::Resource => "[Resource]"@,
        ContentPart::Audio { bytes } => "[Audio: "@ + digits(bytes as nat) + " bytes]"@,
    }
}

/// The items' texts, separated by newlines.
pub open spec fn joined_parts(parts: Seq<ContentPart>) -> Seq<char>
    decreases parts.len(),
{
    if parts.len() == 0 {
        Seq::empty()
    } else if parts.len() == 1 {
        part_text(parts[0])
    } else {
        joined_parts(parts.drop_last()) + seq!['\n'] + part_text(parts.last())
    }
}

pub fn part_to_text(p: &ContentPart) -> (r: String)
    ensures
        r@ == part_text(*p),
{
    match p {
        ContentPart::Text(t) => t.clone(),
        ContentPart::Image { bytes } => {
            let mut s = String::from_str("[Image: ");
            let n = crate::text::count_to_text(*bytes as u64);
            s.append(n.as_str());
            s.append(" bytes]");
            s
        }
        ContentPart::Resource => String::from_str("[Resource]"),
        ContentPart::Audio { bytes } => {
            let mut s = String::from_str("[Audio: ");
            let n = crate::text::count_to_text(*bytes as u64);
            s.append(n.as_str());
            s.append(" bytes]");
            s
        }
    }
}

/// The output of a remote call as one text.
pub fn project_content(parts: &Vec<ContentPart>) -> (r: String)
    ensures
        r@ == joined_parts(parts@),
{
    let mut s = String::new();
    let mut i: usize = 0;
    while i < parts.len()
        invariant
            i <= parts@.len(),
            s@ == joined_parts(parts@.subrange(0, i as int)),
        decreases parts@.len() - i,
    {
        let t = part_to_text(&parts[i]);
        proof {
            let next = parts@.subrange(0, i + 1);
            assert(next.drop_last() =~= parts@.subrange(0, i as int));
            assert(next.last() == parts@[i as int]);
        }
        if i > 0 {
            s.append("\n");
        } else {
            proof {
                assert(s@ =~= Seq::<char>::empty());
            }
        }
        s.append(t.as_str());
        proof {
            if i == 0 {
                assert(s@ =~= t@);
            } else {
                reveal_strlit("\n");
            }
        }
        i += 1;
    }
    assert(parts@.subrange(0, parts@.len() as int) =~= parts@);
    s
}

/// The result of a remote call that returned: its output as one text, an
/// error when the server flagged the call as failed.
pub fn remote_result(parts: &Vec<ContentPart>, is_error: bool) -> (r: ToolResult)
    ensures
        r is Success <==> !is_error,
        r.text() == joined_parts(parts@),
{
    let text = project_content(parts);
    if is_error { ToolResult::error(text) } else { ToolResult::success(text) }
}

/// A tool as a remote server describes it.
#[derive(Clone, Debug)]
pub struct McpToolDescription {
    pub name: String,
    pub description: String,
    pub parameters_schema: serde_json::Value,
}

/// A remote tool bound to the server it came from. Its calls go through the
/// server's one client, one call at a time.
#[derive(Clone, Debug)]
pub struct WrappedMcpTool {
    pub desc: McpToolDescription,
    pub mcp_name: String,
}

/// Relies on `uuid::Uuid::new_v4` and its `Display`: a random identifier,
/// written as 36 characters in the hyphenated form.
#[verifier::external_body]
pub(crate) fn random_uuid() -> (r: String)
    ensures
        r@.len() == 36,
        r@[8] == '-' && r@[13] == '-' && r@[18] == '-' && r@[23] == '-',
{
    uuid::Uuid::new_v4().to_string()
}

impl WrappedMcpTool {
    pub fn name(&self) -> (r: String)
        ensures
            r@ == self.desc.name@,
    {
        self.desc.name.clone()
    }

    pub fn description(&self) -> (r: String)
        ensures
            r@ == self.desc.description@,
    {
        self.desc.description.clone()
    }

    pub fn group(&self) -> (r: &str)
        ensures
            r@ == self.mcp_name@,
    {
        self.mcp_name.as_str()
    }

    /// Every remote tool may reach the network, and nothing else.
    pub fn capabilities(&self) -> (r: Vec<ToolCapability>)
        ensures
            r@ == seq![ToolCapability::Network],
    {
        let mut v = Vec::new();
        v.push(ToolCapability::Network);
        v
    }

    /// A call of this tool, with a fresh `mcp-` identifier.
    pub fn new_call(&self, parameters: serde_json::Value) -> (r: ToolCall)
        ensures
            r.tool_name@ == self.desc.name@,
            r.parameters == parameters,
            r.tool_call_id@.len() == 40,
            r.tool_call_id@.subrange(0, 4) == "mcp-"@,
    {
        let mut id = String::from_str("mcp-");
        let u = random_uuid();
        id.append(u.as_str());
        proof {
            reveal_strlit("mcp-");
            assert(id@.subrange(0, 4) =~= "mcp-"@);
        }
        ToolCall { tool_call_id: id, tool_name: self.desc.name.clone(), parameters }
    }

    /// The result of a call that the client could not complete.
    pub fn failed_call(&self, reason: &str) -> (r: ToolResult)
        ensures
            r is Error,
            r.text() == "MCP tool execution failed: "@ + reason@,
    {
        let mut s = String::from_str("MCP tool execution failed: ");
        s.append(reason);
        ToolResult::error(s)
    }
}

/// The tools that one server lists, each bound to the server's name.
pub fn wrap_tools(descriptions: Vec<McpToolDescription>, mcp_name: &str) -> (r: Vec<WrappedMcpTool>)
    ensures
        r@.len() == descriptions@.len(),
        forall|i: int| 0 <= i < r@.len() ==> (#[trigger] r@[i]).desc == descriptions@[i] && r@[i].mcp_name@ == mcp_name@,
{
    let mut r: Vec<WrappedMcpTool> = Vec::new();
    let mut rest = descriptions;
    let ghost all = rest@;
    // take the descriptions from the back, then restore their order
    let mut backwards: Vec<McpToolDescription> = Vec::new();
    while rest.len() > 0
        invariant
            rest@.len() + backwards@.len() == all.len(),
            rest@ == all.subrange(0, rest@.len() as int),
            forall|j: int| 0 <= j < backwards@.len() ==> #[trigger] backwards@[j] == all[all.len() - 1 - j],
        decreases rest@.len(),
    {
        let d = rest.pop().unwrap();
        backwards.push(d);
    }
    while backwards.len() > 0
        invariant
            r@.len() + backwards@.len() == all.len(),
            forall|j: int| 0 <= j < backwards@.len() ==> #[trigger] backwards@[j] == all[all.len() - 1 - j],
            forall|j: int| 0 <= j < r@.len() ==> (#[trigger] r@[j]).desc == all[j] && r@[j].mcp_name@ == mcp_name@,
        decreases backwards@.len(),
    {
        let d = backwards.pop().unwrap();
        r.push(WrappedMcpTool { desc: d, mcp_name: String::from_str(mcp_name) });
    }
    r
}

} // verus!
