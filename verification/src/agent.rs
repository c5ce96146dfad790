use vstd::prelude::*;

use crate::goalstate::GoalState;
use crate::health::{health_report_xml, law_health_report_names_its_ids, mk_health_report, occurs_in};

verus! {

/// Base URL of the Azure wire server.
pub const WIRESERVER_PREFIX: &'static str = "http://168.63.129.16/";

/// Base URL of the Azure instance metadata service.
pub const IMDS_PREFIX: &'static str = "http://169.254.169.254/metadata/";

/// Directory where the agent keeps its own state between boots.
pub const AGENT_STATE_DIR: &'static str = "/var/lib/azure-linux-boot-agent/";

/// State file that records the id of the VM that was last provisioned.
pub const VMID_FILENAME: &'static str = "vmid";

/// State file that keeps a copy of the OVF environment document.
pub const OVFENV_FILENAME: &'static str = "ovf-env.xml";

/// State file where custom data is stashed.
pub const CUSTOMDATA_FILENAME: &'static str = "customData.raw";

pub const WIRESERVER_VERSION_HEADER: &'static str = "x-ms-version";

pub const WIRESERVER_VERSION: &'static str = "2012-11-30";

pub const CONTENT_TYPE_HEADER: &'static str = "Content-Type";

pub const HEALTH_CONTENT_TYPE: &'static str = "text/xml;charset=utf-8";

pub const AGENT_NAME_HEADER: &'static str = "x-ms-agent-name";

pub const AGENT_NAME: &'static str = "agent-linux-boot-agent";

pub const METADATA_HEADER: &'static str = "Metadata";

pub const METADATA_HEADER_VALUE: &'static str = "true";

pub const API_VERSION_KEY: &'static str = "api-version";

pub const METADATA_API_VERSION: &'static str = "2019-06-01";

pub const FORMAT_KEY: &'static str = "format";

pub const FORMAT_TEXT: &'static str = "text";

pub const GOALSTATE_PATH: &'static str = "machine?comp=goalstate";

pub const HEALTH_PATH: &'static str = "/machine?comp=health";

pub const VMID_PATH: &'static str = "instance/compute/vmId";

pub const HOSTNAME_PATH: &'static str = "instance/compute/name";

pub const CUSTOMDATA_PATH: &'static str = "instance/compute/customData";

pub const PUBLIC_KEYS_PATH: &'static str = "instance/compute/publicKeys";

/// The error type of the HTTP client.
#[verifier::external_type_specification]
#[verifier::external_body]
pub struct ExHttpError(reqwest::Error);

/// The error type of file and process I/O.
#[verifier::external_type_specification]
#[verifier::external_body]
pub struct ExIoError(std::io::Error);

/// What the agent does with the custom data that the VM was created with.
#[derive(PartialEq, Eq, Structural, Debug, Clone, Copy)]
pub enum AgentMetadataMode {
    NoOp,
    Apply,
    Stash,
}

/// Which optional provisioning steps run.
#[derive(Clone, Copy)]
pub struct AgentOptions {
    pub metadata_mode: AgentMetadataMode,
    pub seed_entropy: bool,
    pub create_users: bool,
}

/// Why provisioning did not complete.
#[derive(Debug)]
pub enum AgentError {
    /// The VM was already provisioned: its recorded id is the advertised one.
    ProvisionNotNeeded,
    /// User-supplied custom data failed to apply.
    ProvisionFailedBadCustomData,
    /// A request to the wire server or the metadata service failed.
    ProvisionFailedNetworkError(reqwest::Error),
    /// The agent experienced an internal error.
    ProvisionFailedInternalError,
    /// A file or process operation failed.
    ProvisionFailedIOError(std::io::Error),
}

/// The HTTP methods the agent uses.
#[derive(PartialEq, Eq, Structural, Debug, Clone, Copy)]
pub enum HttpMethod {
    Get,
    Post,
}

/// A request to send: where, with which query pairs and headers, and with
/// which body.
pub struct HttpRequest {
    pub method: HttpMethod,
    pub url: String,
    pub query: Vec<(String, String)>,
    pub headers: Vec<(String, String)>,
    pub body: Option<String>,
}

pub struct HttpRequestView {
    pub method: HttpMethod,
    pub url: Seq<char>,
    pub query: Seq<(Seq<char>, Seq<char>)>,
    pub headers: Seq<(Seq<char>, Seq<char>)>,
    pub body: Option<Seq<char>>,
}

impl View for HttpRequest {
    type V = HttpRequestView;

    open spec fn view(&self) -> HttpRequestView {
        HttpRequestView {
            method: self.method,
            url: self.url@,
            query: self.query.deep_view(),
            headers: self.headers.deep_view(),
            body: match self.body {
                Some(b) => Some(b@),
                None => None,
            },
        }
    }
}

pub open spec fn request_option_view(r: Option<HttpRequest>) -> Option<HttpRequestView> {
    match r {
        Some(req) => Some(req@),
        None => None,
    }
}

/// The URL that `reqwest::Url::parse(base)` followed by `Url::join(input)`
/// serializes to, or `None` where either step fails.
pub uninterp spec fn url_join_spec(base: Seq<char>, input: Seq<char>) -> Option<Seq<char>>;

/// Resolves `input` against the URL `base` with `reqwest::Url` (the `url`
/// crate): `Url::parse(base)`, then `Url::join(input)`, then `Url::as_str`.
/// Trusted: the result is the named result of those calls on these two
/// strings, `None` exactly where parsing or joining reports an error.
#[verifier::external_body]
fn join_url(base: &str, input: &str) -> (r: Option<String>)
    ensures
        r is Some <==> url_join_spec(base@, input@) is Some,
        r matches Some(u) ==> u@ == url_join_spec(base@, input@)->0,
{
    match reqwest::Url::parse(base) {
        Ok(b) => match b.join(input) {
            Ok(u) => Some(u.as_str().to_string()),
            Err(_) => None,
        },
        Err(_) => None,
    }
}

fn string_pair(a: &str, b: &str) -> (r: (String, String))
    ensures
        r.0@ == a@,
        r.1@ == b@,
{
    (String::from_str(a), String::from_str(b))
}

/// The GET request that reads `path` from the wire server.
pub open spec fn wireserver_request_spec(path: Seq<char>) -> Option<HttpRequestView> {
    match url_join_spec(WIRESERVER_PREFIX@, path) {
        Some(url) => Some(
            HttpRequestView {
                method: HttpMethod::Get,
                url,
                query: seq![],
                headers: seq![(WIRESERVER_VERSION_HEADER@, WIRESERVER_VERSION@)],
                body: None,
            },
        ),
        None => None,
    }
}

/// The GET request that reads `path` from the metadata service as text.
pub open spec fn metadata_request_spec(path: Seq<char>) -> Option<HttpRequestView> {
    match url_join_spec(IMDS_PREFIX@, path) {
        Some(url) => Some(
            HttpRequestView {
                method: HttpMethod::Get,
                url,
                query: seq![
                    (API_VERSION_KEY@, METADATA_API_VERSION@),
                    (FORMAT_KEY@, FORMAT_TEXT@),
                ],
                headers: seq![(METADATA_HEADER@, METADATA_HEADER_VALUE@)],
                body: None,
            },
        ),
        None => None,
    }
}

/// The GET request that reads the VM's SSH public keys as JSON.
pub open spec fn ssh_keys_request_spec() -> Option<HttpRequestView> {
    match url_join_spec(IMDS_PREFIX@, PUBLIC_KEYS_PATH@) {
        Some(url) => Some(
            HttpRequestView {
                method: HttpMethod::Get,
                url,
                query: seq![(API_VERSION_KEY@, METADATA_API_VERSION@)],
                headers: seq![(METADATA_HEADER@, METADATA_HEADER_VALUE@)],
                body: None,
            },
        ),
        None => None,
    }
}

/// The POST request that reports role instance `instance_id` of container
/// `container_id` ready.
pub open spec fn health_report_request_spec(container_id: Seq<char>, instance_id: Seq<char>) -> Option<
    HttpRequestView,
> {
    match url_join_spec(WIRESERVER_PREFIX@, HEALTH_PATH@) {
        Some(url) => Some(
            HttpRequestView {
                method: HttpMethod::Post,
                url,
                query: seq![],
                headers: seq![
                    (WIRESERVER_VERSION_HEADER@, WIRESERVER_VERSION@),
                    (CONTENT_TYPE_HEADER@, HEALTH_CONTENT_TYPE@),
                    (AGENT_NAME_HEADER@, AGENT_NAME@),
                ],
                body: Some(health_report_xml(container_id, instance_id)),
            },
        ),
        None => None,
    }
}

/// Builds the request that reads `path` from the wire server; `None` where the
/// URL cannot be built.
pub fn wireserver_request(path: &str) -> (r: Option<HttpRequest>)
    ensures
        request_option_view(r) == wireserver_request_spec(path@),
{
    let url = join_url(WIRESERVER_PREFIX, path);
    match url {
        Some(url) => {
            let mut headers: Vec<(String, String)> = Vec::new();
            headers.push(string_pair(WIRESERVER_VERSION_HEADER, WIRESERVER_VERSION));
            let req = HttpRequest {
                method: HttpMethod::Get,
                url,
                query: Vec::new(),
                headers,
                body: None,
            };
            assert(req@.query =~= seq![]);
            assert(req@.headers =~= seq![(WIRESERVER_VERSION_HEADER@, WIRESERVER_VERSION@)]);
            Some(req)
        },
        None => None,
    }
}

/// Builds the request that reads `path` from the metadata service as text;
/// `None` where the URL cannot be built.
pub fn metadata_request(path: &str) -> (r: Option<HttpRequest>)
    ensures
        request_option_view(r) == metadata_request_spec(path@),
{
    let url = join_url(IMDS_PREFIX, path);
    match url {
        Some(url) => {
            let mut query: Vec<(String, String)> = Vec::new();
            query.push(string_pair(API_VERSION_KEY, METADATA_API_VERSION));
            query.push(string_pair(FORMAT_KEY, FORMAT_TEXT));
            let mut headers: Vec<(String, String)> = Vec::new();
            headers.push(string_pair(METADATA_HEADER, METADATA_HEADER_VALUE));
            let req = HttpRequest { method: HttpMethod::Get, url, query, headers, body: None };
            assert(req@.query =~= seq![
                (API_VERSION_KEY@, METADATA_API_VERSION@),
                (FORMAT_KEY@, FORMAT_TEXT@),
            ]);
            assert(req@.headers =~= seq![(METADATA_HEADER@, METADATA_HEADER_VALUE@)]);
            Some(req)
        },
        None => None,
    }
}

/// Builds the request that reads the VM's SSH public keys; `None` where the
/// URL cannot be built.
pub fn ssh_keys_request() -> (r: Option<HttpRequest>)
    ensures
        request_option_view(r) == ssh_keys_request_spec(),
{
    let url = join_url(IMDS_PREFIX, PUBLIC_KEYS_PATH);
    match url {
        Some(url) => {
            let mut query: Vec<(String, String)> = Vec::new();
            query.push(string_pair(API_VERSION_KEY, METADATA_API_VERSION));
            let mut headers: Vec<(String, String)> = Vec::new();
            headers.push(string_pair(METADATA_HEADER, METADATA_HEADER_VALUE));
            let req = HttpRequest { method: HttpMethod::Get, url, query, headers, body: None };
            assert(req@.query =~= seq![(API_VERSION_KEY@, METADATA_API_VERSION@)]);
            assert(req@.headers =~= seq![(METADATA_HEADER@, METADATA_HEADER_VALUE@)]);
            Some(req)
        },
        None => None,
    }
}

/// Builds the request that reports the role instance ready; `None` where the
/// URL cannot be built.
pub fn health_report_request(container_id: &str, instance_id: &str) -> (r: Option<HttpRequest>)
    ensures
        request_option_view(r) == health_report_request_spec(container_id@, instance_id@),
{
    let url = join_url(WIRESERVER_PREFIX, HEALTH_PATH);
    match url {
        Some(url) => {
            let payload = match mk_health_report(container_id, instance_id) {
                Ok(xml) => xml,
                Err(_) => String::new(),
            };
            let mut headers: Vec<(String, String)> = Vec::new();
            headers.push(string_pair(WIRESERVER_VERSION_HEADER, WIRESERVER_VERSION));
            headers.push(string_pair(CONTENT_TYPE_HEADER, HEALTH_CONTENT_TYPE));
            headers.push(string_pair(AGENT_NAME_HEADER, AGENT_NAME));
            let req = HttpRequest {
                method: HttpMethod::Post,
                url,
                query: Vec::new(),
                headers,
                body: Some(payload),
            };
            assert(req@.query =~= seq![]);
            assert(req@.headers =~= seq![
                (WIRESERVER_VERSION_HEADER@, WIRESERVER_VERSION@),
                (CONTENT_TYPE_HEADER@, HEALTH_CONTENT_TYPE@),
                (AGENT_NAME_HEADER@, AGENT_NAME@),
            ]);
            Some(req)
        },
        None => None,
    }
}

/// Whether an HTTP status code reports success: the codes from 200 to 299.
pub fn status_is_success(status: u16) -> (r: bool)
    ensures
        r == (200 <= status && status < 300),
{
    200 <= status && status < 300
}

/// The identity of this VM on the wire server, and where the agent keeps its
/// state.
pub struct Agent {
    pub instance_id: String,
    pub container_id: String,
    pub state_dir: String,
}

impl Agent {
    /// Takes the container id and the role instance id from the goal state
    /// that the wire server served; the state directory is the agent's own.
    pub fn from_goal_state(goalstate: GoalState) -> (agent: Agent)
        ensures
            agent.container_id@ == goalstate.Container.ContainerId@,
            agent.instance_id@ == goalstate.Container.RoleInstanceList.RoleInstance.InstanceId@,
            agent.state_dir@ == AGENT_STATE_DIR@,
    {
        Agent {
            instance_id: goalstate.Container.RoleInstanceList.RoleInstance.InstanceId,
            container_id: goalstate.Container.ContainerId,
            state_dir: String::from_str(AGENT_STATE_DIR),
        }
    }

    /// The request that reads the goal state from the wire server.
    pub fn goal_state_request() -> (r: Option<HttpRequest>)
        ensures
            request_option_view(r) == wireserver_request_spec(GOALSTATE_PATH@),
    {
        wireserver_request(GOALSTATE_PATH)
    }

    /// The request that reports this role instance ready.
    pub fn report_ready_request(&self) -> (r: Option<HttpRequest>)
        ensures
            request_option_view(r) == health_report_request_spec(
                self.container_id@,
                self.instance_id@,
            ),
    {
        health_report_request(self.container_id.as_str(), self.instance_id.as_str())
    }

    /// The request that reads the VM id that the metadata service advertises.
    pub fn advertised_vmid_request() -> (r: Option<HttpRequest>)
        ensures
            request_option_view(r) == metadata_request_spec(VMID_PATH@),
    {
        metadata_request(VMID_PATH)
    }
}

/// Every text request to the metadata service, whatever the path, is a GET
/// of the path resolved against `http://169.254.169.254/metadata/`, carries
/// the `Metadata: true` header and the query `api-version=2019-06-01`,
/// `format=text`, and has no body; it exists exactly when the URL resolves.
pub proof fn law_metadata_requests_are_uniform(path: Seq<char>)
    ensures
        metadata_request_spec(path) is Some <==> url_join_spec(
            "http://169.254.169.254/metadata/"@,
            path,
        ) is Some,
        metadata_request_spec(path) matches Some(r) ==> {
            &&& r.method == HttpMethod::Get
            &&& r.url == url_join_spec("http://169.254.169.254/metadata/"@, path)->0
            &&& r.headers == seq![("Metadata"@, "true"@)]
            &&& r.query == seq![("api-version"@, "2019-06-01"@), ("format"@, "text"@)]
            &&& r.body is None
        },
{
}

/// Every request to the wire server, whatever the path, is a GET of the path
/// resolved against `http://168.63.129.16/` with the header
/// `x-ms-version: 2012-11-30`, no query and no body.
pub proof fn law_wireserver_requests_are_uniform(path: Seq<char>)
    ensures
        wireserver_request_spec(path) is Some <==> url_join_spec("http://168.63.129.16/"@, path) is Some,
        wireserver_request_spec(path) matches Some(r) ==> {
            &&& r.method == HttpMethod::Get
            &&& r.url == url_join_spec("http://168.63.129.16/"@, path)->0
            &&& r.headers == seq![("x-ms-version"@, "2012-11-30"@)]
            &&& r.query.len() == 0
            &&& r.body is None
        },
{
}

/// The SSH key request is a GET of `instance/compute/publicKeys` on the
/// metadata service with the `Metadata: true` header and only the API version
/// as query (the keys come back as JSON).
pub proof fn law_ssh_keys_request()
    ensures
        ssh_keys_request_spec() matches Some(r) ==> {
            &&& r.method == HttpMethod::Get
            &&& r.url == url_join_spec(
                "http://169.254.169.254/metadata/"@,
                "instance/compute/publicKeys"@,
            )->0
            &&& r.headers == seq![("Metadata"@, "true"@)]
            &&& r.query == seq![("api-version"@, "2019-06-01"@)]
            &&& r.body is None
        },
{
}

/// The ready report request posts, to `machine?comp=health` on the wire
/// server, the health report document for the same ids: a document that names
/// the container and the role instance verbatim and announces `Ready`.
pub proof fn law_ready_report_request_carries_the_report(container_id: Seq<char>, instance_id: Seq<char>)
    ensures
        health_report_request_spec(container_id, instance_id) is Some <==> url_join_spec(
            "http://168.63.129.16/"@,
            "/machine?comp=health"@,
        ) is Some,
        health_report_request_spec(container_id, instance_id) matches Some(r) ==> {
            &&& r.method == HttpMethod::Post
            &&& r.url == url_join_spec("http://168.63.129.16/"@, "/machine?comp=health"@)->0
            &&& r.headers == seq![
                ("x-ms-version"@, "2012-11-30"@),
                ("Content-Type"@, "text/xml;charset=utf-8"@),
                ("x-ms-agent-name"@, "agent-linux-boot-agent"@),
            ]
            &&& r.query.len() == 0
            &&& r.body == Some(health_report_xml(container_id, instance_id))
            &&& occurs_in("<State>Ready</State>"@, r.body->0)
            &&& occurs_in("<ContainerId>"@ + container_id + "</ContainerId>"@, r.body->0)
            &&& occurs_in("<InstanceId>"@ + instance_id + "</InstanceId>"@, r.body->0)
        },
{
    law_health_report_names_its_ids(container_id, instance_id);
}

} // verus!
