use vstd::prelude::*;

use crate::agent::{
    health_report_request, health_report_request_spec, metadata_request, metadata_request_spec,
    ssh_keys_request, ssh_keys_request_spec, Agent, AgentError, AgentMetadataMode, AgentOptions,
    HttpRequest, HttpRequestView, CUSTOMDATA_FILENAME, CUSTOMDATA_PATH, HOSTNAME_PATH,
    OVFENV_FILENAME, VMID_FILENAME, VMID_PATH,
};
use crate::metadata::{keys_view, PublicKey, PublicKeyView};
use crate::osutil::{command1, CommandSpec, CommandView};

verus! {

/// Where a provisioning run stands: which outcome it waits for.
#[derive(PartialEq, Eq, Structural, Debug, Clone, Copy)]
pub enum Phase {
    Start,
    AwaitCurrentVmid,
    AwaitAdvertisedVmid,
    AwaitHostname { second: bool },
    AwaitHostnameCommand { second: bool },
    AwaitHostnameFile { second: bool },
    AwaitOvfEnv,
    AwaitOvfEnvStored,
    AwaitCustomData,
    AwaitCustomDataStashed,
    AwaitCustomDataApplied,
    AwaitEntropy,
    AwaitSshKeys,
    AwaitUserCreated,
    AwaitReadyReport,
    AwaitVmidStored,
    Finished,
}

/// Why a run stops without a result: the agent gives up on the whole boot.
#[derive(PartialEq, Eq, Structural, Debug, Clone, Copy)]
pub enum AbortReason {
    /// A request URL could not be built.
    UrlUnavailable,
    /// The `hostname` command could not be run.
    HostnameCommandFailed,
    /// The host name could not be fetched the second time.
    HostnameUpdateFailed,
    /// The custom data could not be applied.
    CustomDataNotApplied,
    /// The random pool could not be seeded.
    EntropyNotSeeded,
    /// The ready report could not be sent.
    ReadyReportFailed,
    /// The wire server did not accept the ready report.
    ReadyReportRejected,
}

/// The outcome of the last action, handed back to the machine.
pub enum Event {
    /// Starts the run.
    Begin,
    /// Text that was read or fetched.
    Text(String),
    /// The action succeeded and has nothing to report.
    Completed,
    /// A command ran and exited, successfully or not.
    CommandExited(bool),
    /// The SSH keys that the metadata service lists.
    Keys(Vec<PublicKey>),
    /// Whether the wire server accepted the ready report.
    ReportAccepted(bool),
    /// A request failed.
    NetworkError(reqwest::Error),
    /// A file or process operation failed.
    IoError(std::io::Error),
    /// The action failed in a way the agent does not recover from.
    Failed,
}

/// What the machine asks its driver to do next.
pub enum Action {
    /// Read this state file; answer `Text` or `IoError`.
    ReadStateFile(String),
    /// Write these contents to this state file; answer `Completed` or `IoError`.
    WriteStateFile(String, String),
    /// Send this request and return the body as text; answer `Text` or `NetworkError`.
    Fetch(HttpRequest),
    /// Send this request and decode the body as SSH keys; answer `Keys` or `NetworkError`.
    FetchSshKeys(HttpRequest),
    /// Run this command; answer `CommandExited`, or `Failed` where it cannot start.
    RunCommand(CommandSpec),
    /// Write the host name to `/etc/hostname`; answer `Completed` or `IoError`.
    WriteHostnameFile(String),
    /// Extract the OVF environment document; answer `Text` or `IoError`.
    ReadOvfEnv,
    /// Apply the custom data to the system; answer `Completed` or `Failed`.
    ApplyCustomData(String),
    /// Seed the random pool from firmware entropy; answer `Completed` or `IoError`.
    SeedEntropy,
    /// Create the user that owns this key and install the key; answer
    /// `Completed` or `IoError`.
    CreateUser(PublicKey),
    /// Send this ready report; answer `ReportAccepted` or `NetworkError`.
    ReportReady(HttpRequest),
    /// The run is over with this result.
    Finish(Result<(), AgentError>),
    /// The run is over: the agent gives up.
    Abort(AbortReason),
}

pub enum EventView {
    Begin,
    Text(Seq<char>),
    Completed,
    CommandExited(bool),
    Keys(Seq<PublicKeyView>),
    ReportAccepted(bool),
    NetworkError(reqwest::Error),
    IoError(std::io::Error),
    Failed,
}

pub enum ActionView {
    ReadStateFile(Seq<char>),
    WriteStateFile(Seq<char>, Seq<char>),
    Fetch(HttpRequestView),
    FetchSshKeys(HttpRequestView),
    RunCommand(CommandView),
    WriteHostnameFile(Seq<char>),
    ReadOvfEnv,
    ApplyCustomData(Seq<char>),
    SeedEntropy,
    CreateUser(PublicKeyView),
    ReportReady(HttpRequestView),
    Finish(Result<(), AgentError>),
    Abort(AbortReason),
}

impl View for Event {
    type V = EventView;

    open spec fn view(&self) -> EventView {
        match self {
            Event::Begin => EventView::Begin,
            Event::Text(t) => EventView::Text(t@),
            Event::Completed => EventView::Completed,
            Event::CommandExited(ok) => EventView::CommandExited(*ok),
            Event::Keys(keys) => EventView::Keys(keys_view(keys@)),
            Event::ReportAccepted(ok) => EventView::ReportAccepted(*ok),
            Event::NetworkError(e) => EventView::NetworkError(*e),
            Event::IoError(e) => EventView::IoError(*e),
            Event::Failed => EventView::Failed,
        }
    }
}

impl View for Action {
    type V = ActionView;

    open spec fn view(&self) -> ActionView {
        match self {
            Action::ReadStateFile(f) => ActionView::ReadStateFile(f@),
            Action::WriteStateFile(f, c) => ActionView::WriteStateFile(f@, c@),
            Action::Fetch(r) => ActionView::Fetch(r@),
            Action::FetchSshKeys(r) => ActionView::FetchSshKeys(r@),
            Action::RunCommand(c) => ActionView::RunCommand(c@),
            Action::WriteHostnameFile(h) => ActionView::WriteHostnameFile(h@),
            Action::ReadOvfEnv => ActionView::ReadOvfEnv,
            Action::ApplyCustomData(d) => ActionView::ApplyCustomData(d@),
            Action::SeedEntropy => ActionView::SeedEntropy,
            Action::CreateUser(k) => ActionView::CreateUser(k@),
            Action::ReportReady(r) => ActionView::ReportReady(r@),
            Action::Finish(r) => ActionView::Finish(*r),
            Action::Abort(why) => ActionView::Abort(*why),
        }
    }
}

/// The decisions of one provisioning run, one outcome at a time.
pub struct Provisioner {
    phase: Phase,
    options: AgentOptions,
    container_id: String,
    instance_id: String,
    current_vmid: String,
    advertised_vmid: String,
    hostname: String,
    keys: Vec<PublicKey>,
    next_key: usize,
}

#[verifier::ext_equal]
pub struct ProvisionerView {
    pub phase: Phase,
    pub options: AgentOptions,
    pub container_id: Seq<char>,
    pub instance_id: Seq<char>,
    pub current_vmid: Seq<char>,
    pub advertised_vmid: Seq<char>,
    pub hostname: Seq<char>,
    pub keys: Seq<PublicKeyView>,
    pub next_key: nat,
}

impl Provisioner {
    #[verifier::type_invariant]
    spec fn keys_in_range(self) -> bool {
        self.next_key <= self.keys.len()
    }
}

impl View for Provisioner {
    type V = ProvisionerView;

    closed spec fn view(&self) -> ProvisionerView {
        ProvisionerView {
            phase: self.phase,
            options: self.options,
            container_id: self.container_id@,
            instance_id: self.instance_id@,
            current_vmid: self.current_vmid@,
            advertised_vmid: self.advertised_vmid@,
            hostname: self.hostname@,
            keys: keys_view(self.keys@),
            next_key: self.next_key as nat,
        }
    }
}

/// The state a run starts in, for the agent with these ids.
pub open spec fn initial_spec(options: AgentOptions, container_id: Seq<char>, instance_id: Seq<char>) -> ProvisionerView {
    ProvisionerView {
        phase: Phase::Start,
        options,
        container_id,
        instance_id,
        current_vmid: seq![],
        advertised_vmid: seq![],
        hostname: seq![],
        keys: seq![],
        next_key: 0,
    }
}

/// Which outcomes a phase waits for.
pub open spec fn accepts_spec(phase: Phase, e: EventView) -> bool {
    match phase {
        Phase::Start => e is Begin,
        Phase::AwaitCurrentVmid => e is Text || e is IoError,
        Phase::AwaitAdvertisedVmid => e is Text || e is NetworkError,
        Phase::AwaitHostname { .. } => e is Text || e is NetworkError,
        Phase::AwaitHostnameCommand { .. } => e is CommandExited || e is Failed,
        Phase::AwaitHostnameFile { .. } => e is Completed || e is IoError,
        Phase::AwaitOvfEnv => e is Text || e is IoError,
        Phase::AwaitOvfEnvStored => e is Completed || e is IoError,
        Phase::AwaitCustomData => e is Text || e is NetworkError,
        Phase::AwaitCustomDataStashed => e is Completed || e is IoError,
        Phase::AwaitCustomDataApplied => e is Completed || e is Failed,
        Phase::AwaitEntropy => e is Completed || e is IoError,
        Phase::AwaitSshKeys => e is Keys || e is NetworkError,
        Phase::AwaitUserCreated => e is Completed || e is IoError,
        Phase::AwaitReadyReport => e is ReportAccepted || e is NetworkError,
        Phase::AwaitVmidStored => e is Completed || e is IoError,
        Phase::Finished => false,
    }
}

/// Moves to `phase` and asks for `action`.
pub open spec fn go(s: ProvisionerView, phase: Phase, action: ActionView) -> (ProvisionerView, ActionView) {
    (ProvisionerView { phase, ..s }, action)
}

/// Ends the run with `action`.
pub open spec fn stop(s: ProvisionerView, action: ActionView) -> (ProvisionerView, ActionView) {
    go(s, Phase::Finished, action)
}

/// Sends a text request to the metadata service for `path`, then waits in `phase`.
pub open spec fn fetch_metadata_spec(s: ProvisionerView, path: Seq<char>, phase: Phase) -> (ProvisionerView, ActionView) {
    match metadata_request_spec(path) {
        Some(r) => go(s, phase, ActionView::Fetch(r)),
        None => stop(s, ActionView::Abort(AbortReason::UrlUnavailable)),
    }
}

/// Starts updating the host name.
pub open spec fn update_hostname_spec(s: ProvisionerView, second: bool) -> (ProvisionerView, ActionView) {
    fetch_metadata_spec(s, HOSTNAME_PATH@, Phase::AwaitHostname { second })
}

/// Sends the ready report.
pub open spec fn report_ready_spec(s: ProvisionerView) -> (ProvisionerView, ActionView) {
    match health_report_request_spec(s.container_id, s.instance_id) {
        Some(r) => go(s, Phase::AwaitReadyReport, ActionView::ReportReady(r)),
        None => stop(s, ActionView::Abort(AbortReason::UrlUnavailable)),
    }
}

/// Installs the next key, or sends the ready report once every key is in.
pub open spec fn next_user_spec(s: ProvisionerView) -> (ProvisionerView, ActionView) {
    if s.next_key < s.keys.len() {
        (
            ProvisionerView { phase: Phase::AwaitUserCreated, next_key: s.next_key + 1, ..s },
            ActionView::CreateUser(s.keys[s.next_key as int]),
        )
    } else {
        report_ready_spec(s)
    }
}

/// Fetches the SSH keys where users are wanted; else sends the ready report.
pub open spec fn create_users_spec(s: ProvisionerView) -> (ProvisionerView, ActionView) {
    if s.options.create_users {
        match ssh_keys_request_spec() {
            Some(r) => go(s, Phase::AwaitSshKeys, ActionView::FetchSshKeys(r)),
            None => stop(s, ActionView::Abort(AbortReason::UrlUnavailable)),
        }
    } else {
        report_ready_spec(s)
    }
}

/// Seeds the random pool where wanted; else goes on with the users.
pub open spec fn seed_entropy_spec(s: ProvisionerView) -> (ProvisionerView, ActionView) {
    if s.options.seed_entropy {
        go(s, Phase::AwaitEntropy, ActionView::SeedEntropy)
    } else {
        create_users_spec(s)
    }
}

/// What a run does with one outcome: its next state and its next action.
pub open spec fn step_spec(s: ProvisionerView, e: EventView) -> (ProvisionerView, ActionView) {
    match s.phase {
        Phase::Start => go(s, Phase::AwaitCurrentVmid, ActionView::ReadStateFile(VMID_FILENAME@)),
        Phase::AwaitCurrentVmid => {
            let current = match e {
                EventView::Text(v) => v,
                _ => seq![],
            };
            fetch_metadata_spec(
                ProvisionerView { current_vmid: current, ..s },
                VMID_PATH@,
                Phase::AwaitAdvertisedVmid,
            )
        },
        Phase::AwaitAdvertisedVmid => match e {
            EventView::Text(v) => if s.current_vmid == v {
                stop(
                    ProvisionerView { advertised_vmid: v, ..s },
                    ActionView::Finish(Err(AgentError::ProvisionNotNeeded)),
                )
            } else {
                update_hostname_spec(ProvisionerView { advertised_vmid: v, ..s }, false)
            },
            EventView::NetworkError(err) => stop(
                s,
                ActionView::Finish(Err(AgentError::ProvisionFailedNetworkError(err))),
            ),
            _ => stop(s, ActionView::Abort(AbortReason::UrlUnavailable)),
        },
        Phase::AwaitHostname { second } => match e {
            EventView::Text(name) => go(
                ProvisionerView { hostname: name, ..s },
                Phase::AwaitHostnameCommand { second },
                ActionView::RunCommand(CommandView { program: "hostname"@, args: seq![name] }),
            ),
            EventView::NetworkError(err) => if second {
                stop(s, ActionView::Abort(AbortReason::HostnameUpdateFailed))
            } else {
                stop(s, ActionView::Finish(Err(AgentError::ProvisionFailedNetworkError(err))))
            },
            _ => stop(s, ActionView::Abort(AbortReason::HostnameUpdateFailed)),
        },
        Phase::AwaitHostnameCommand { second } => match e {
            EventView::CommandExited(_) => go(
                s,
                Phase::AwaitHostnameFile { second },
                ActionView::WriteHostnameFile(s.hostname),
            ),
            _ => stop(s, ActionView::Abort(AbortReason::HostnameCommandFailed)),
        },
        Phase::AwaitHostnameFile { second } => if second {
            seed_entropy_spec(s)
        } else {
            go(s, Phase::AwaitOvfEnv, ActionView::ReadOvfEnv)
        },
        Phase::AwaitOvfEnv => match e {
            EventView::Text(doc) => go(
                s,
                Phase::AwaitOvfEnvStored,
                ActionView::WriteStateFile(OVFENV_FILENAME@, doc),
            ),
            EventView::IoError(err) => stop(
                s,
                ActionView::Finish(Err(AgentError::ProvisionFailedIOError(err))),
            ),
            _ => stop(s, ActionView::Finish(Err(AgentError::ProvisionFailedInternalError))),
        },
        Phase::AwaitOvfEnvStored => match e {
            EventView::IoError(err) => stop(
                s,
                ActionView::Finish(Err(AgentError::ProvisionFailedIOError(err))),
            ),
            _ => fetch_metadata_spec(s, CUSTOMDATA_PATH@, Phase::AwaitCustomData),
        },
        Phase::AwaitCustomData => match e {
            EventView::Text(data) => match s.options.metadata_mode {
                AgentMetadataMode::NoOp => update_hostname_spec(s, true),
                AgentMetadataMode::Stash => go(
                    s,
                    Phase::AwaitCustomDataStashed,
                    ActionView::WriteStateFile(CUSTOMDATA_FILENAME@, data),
                ),
                AgentMetadataMode::Apply => go(
                    s,
                    Phase::AwaitCustomDataApplied,
                    ActionView::ApplyCustomData(data),
                ),
            },
            EventView::NetworkError(err) => stop(
                s,
                ActionView::Finish(Err(AgentError::ProvisionFailedNetworkError(err))),
            ),
            _ => stop(s, ActionView::Finish(Err(AgentError::ProvisionFailedInternalError))),
        },
        Phase::AwaitCustomDataStashed => match e {
            EventView::IoError(err) => stop(
                s,
                ActionView::Finish(Err(AgentError::ProvisionFailedIOError(err))),
            ),
            _ => update_hostname_spec(s, true),
        },
        Phase::AwaitCustomDataApplied => match e {
            EventView::Completed => update_hostname_spec(s, true),
            _ => stop(s, ActionView::Abort(AbortReason::CustomDataNotApplied)),
        },
        Phase::AwaitEntropy => match e {
            EventView::Completed => create_users_spec(s),
            _ => stop(s, ActionView::Abort(AbortReason::EntropyNotSeeded)),
        },
        Phase::AwaitSshKeys => match e {
            EventView::Keys(keys) => next_user_spec(ProvisionerView { keys, next_key: 0, ..s }),
            EventView::NetworkError(err) => stop(
                s,
                ActionView::Finish(Err(AgentError::ProvisionFailedNetworkError(err))),
            ),
            _ => stop(s, ActionView::Finish(Err(AgentError::ProvisionFailedInternalError))),
        },
        Phase::AwaitUserCreated => match e {
            EventView::IoError(err) => stop(
                s,
                ActionView::Finish(Err(AgentError::ProvisionFailedIOError(err))),
            ),
            _ => next_user_spec(s),
        },
        Phase::AwaitReadyReport => match e {
            EventView::ReportAccepted(true) => go(
                s,
                Phase::AwaitVmidStored,
                ActionView::WriteStateFile(VMID_FILENAME@, s.advertised_vmid),
            ),
            EventView::ReportAccepted(false) => stop(
                s,
                ActionView::Abort(AbortReason::ReadyReportRejected),
            ),
            _ => stop(s, ActionView::Abort(AbortReason::ReadyReportFailed)),
        },
        Phase::AwaitVmidStored => match e {
            EventView::IoError(err) => stop(
                s,
                ActionView::Finish(Err(AgentError::ProvisionFailedIOError(err))),
            ),
            _ => stop(s, ActionView::Finish(Ok(()))),
        },
        Phase::Finished => (s, ActionView::Abort(AbortReason::ReadyReportFailed)),
    }
}


impl Provisioner {
    /// A run for `agent` with these options, before its first step.
    pub fn new(agent: &Agent, options: AgentOptions) -> (p: Provisioner)
        ensures
            p@ == initial_spec(options, agent.container_id@, agent.instance_id@),
    {
        let p = Provisioner {
            phase: Phase::Start,
            options,
            container_id: agent.container_id.clone(),
            instance_id: agent.instance_id.clone(),
            current_vmid: String::new(),
            advertised_vmid: String::new(),
            hostname: String::new(),
            keys: Vec::new(),
            next_key: 0,
        };
        assert(p@.keys =~= seq![]);
        p
    }

    /// The phase the run is in.
    pub fn phase(&self) -> (r: Phase)
        ensures
            r == self@.phase,
    {
        self.phase
    }

    /// Whether the run waits for an outcome of this kind.
    pub fn accepts(&self, event: &Event) -> (r: bool)
        ensures
            r == accepts_spec(self@.phase, event@),
    {
        match self.phase {
            Phase::Start => matches!(event, Event::Begin),
            Phase::AwaitCurrentVmid => matches!(event, Event::Text(_) | Event::IoError(_)),
            Phase::AwaitAdvertisedVmid => matches!(event, Event::Text(_) | Event::NetworkError(_)),
            Phase::AwaitHostname { .. } => matches!(event, Event::Text(_) | Event::NetworkError(_)),
            Phase::AwaitHostnameCommand { .. } => matches!(event, Event::CommandExited(_) | Event::Failed),
            Phase::AwaitHostnameFile { .. } => matches!(event, Event::Completed | Event::IoError(_)),
            Phase::AwaitOvfEnv => matches!(event, Event::Text(_) | Event::IoError(_)),
            Phase::AwaitOvfEnvStored => matches!(event, Event::Completed | Event::IoError(_)),
            Phase::AwaitCustomData => matches!(event, Event::Text(_) | Event::NetworkError(_)),
            Phase::AwaitCustomDataStashed => matches!(event, Event::Completed | Event::IoError(_)),
            Phase::AwaitCustomDataApplied => matches!(event, Event::Completed | Event::Failed),
            Phase::AwaitEntropy => matches!(event, Event::Completed | Event::IoError(_)),
            Phase::AwaitSshKeys => matches!(event, Event::Keys(_) | Event::NetworkError(_)),
            Phase::AwaitUserCreated => matches!(event, Event::Completed | Event::IoError(_)),
            Phase::AwaitReadyReport => matches!(event, Event::ReportAccepted(_) | Event::NetworkError(_)),
            Phase::AwaitVmidStored => matches!(event, Event::Completed | Event::IoError(_)),
            Phase::Finished => false,
        }
    }

    fn go(&mut self, phase: Phase, action: Action) -> (r: Action)
        ensures
            (final(self)@, r@) == go(old(self)@, phase, action@),
    {
        proof {
            use_type_invariant(&*self);
        }
        self.phase = phase;
        action
    }

    fn stop(&mut self, action: Action) -> (r: Action)
        ensures
            (final(self)@, r@) == stop(old(self)@, action@),
    {
        self.go(Phase::Finished, action)
    }

    fn fetch_metadata(&mut self, path: &str, phase: Phase) -> (r: Action)
        ensures
            (final(self)@, r@) == fetch_metadata_spec(old(self)@, path@, phase),
    {
        match metadata_request(path) {
            Some(req) => self.go(phase, Action::Fetch(req)),
            None => self.stop(Action::Abort(AbortReason::UrlUnavailable)),
        }
    }

    fn update_hostname(&mut self, second: bool) -> (r: Action)
        ensures
            (final(self)@, r@) == update_hostname_spec(old(self)@, second),
    {
        self.fetch_metadata(HOSTNAME_PATH, Phase::AwaitHostname { second })
    }

    fn report_ready(&mut self) -> (r: Action)
        ensures
            (final(self)@, r@) == report_ready_spec(old(self)@),
    {
        match health_report_request(self.container_id.as_str(), self.instance_id.as_str()) {
            Some(req) => self.go(Phase::AwaitReadyReport, Action::ReportReady(req)),
            None => self.stop(Action::Abort(AbortReason::UrlUnavailable)),
        }
    }

    fn next_user(&mut self) -> (r: Action)
        ensures
            (final(self)@, r@) == next_user_spec(old(self)@),
    {
        proof {
            use_type_invariant(&*self);
        }
        if self.next_key < self.keys.len() {
            let key = self.keys[self.next_key].duplicate();
            self.next_key = self.next_key + 1;
            self.phase = Phase::AwaitUserCreated;
            Action::CreateUser(key)
        } else {
            self.report_ready()
        }
    }

    fn create_users(&mut self) -> (r: Action)
        ensures
            (final(self)@, r@) == create_users_spec(old(self)@),
    {
        if self.options.create_users {
            match ssh_keys_request() {
                Some(req) => self.go(Phase::AwaitSshKeys, Action::FetchSshKeys(req)),
                None => self.stop(Action::Abort(AbortReason::UrlUnavailable)),
            }
        } else {
            self.report_ready()
        }
    }

    fn seed_entropy(&mut self) -> (r: Action)
        ensures
            (final(self)@, r@) == seed_entropy_spec(old(self)@),
    {
        if self.options.seed_entropy {
            self.go(Phase::AwaitEntropy, Action::SeedEntropy)
        } else {
            self.create_users()
        }
    }

    /// Takes the outcome of the last action and decides the next action.
    pub fn step(&mut self, event: Event) -> (action: Action)
        requires
            accepts_spec(old(self)@.phase, event@),
        ensures
            (final(self)@, action@) == step_spec(old(self)@, event@),
    {
        proof {
            use_type_invariant(&*self);
        }
        match self.phase {
            Phase::Start => self.go(
                Phase::AwaitCurrentVmid,
                Action::ReadStateFile(String::from_str(VMID_FILENAME)),
            ),
            Phase::AwaitCurrentVmid => {
                let current = match event {
                    Event::Text(v) => v,
                    _ => String::new(),
                };
                self.current_vmid = current;
                self.fetch_metadata(VMID_PATH, Phase::AwaitAdvertisedVmid)
            },
            Phase::AwaitAdvertisedVmid => match event {
                Event::Text(v) => {
                    let same = self.current_vmid == v;
                    self.advertised_vmid = v;
                    if same {
                        self.stop(Action::Finish(Err(AgentError::ProvisionNotNeeded)))
                    } else {
                        self.update_hostname(false)
                    }
                },
                Event::NetworkError(err) => self.stop(
                    Action::Finish(Err(AgentError::ProvisionFailedNetworkError(err))),
                ),
                _ => self.stop(Action::Abort(AbortReason::UrlUnavailable)),
            },
            Phase::AwaitHostname { second } => match event {
                Event::Text(name) => {
                    let cmd = command1("hostname", name.as_str());
                    self.hostname = name;
                    self.go(Phase::AwaitHostnameCommand { second }, Action::RunCommand(cmd))
                },
                Event::NetworkError(err) => if second {
                    self.stop(Action::Abort(AbortReason::HostnameUpdateFailed))
                } else {
                    self.stop(Action::Finish(Err(AgentError::ProvisionFailedNetworkError(err))))
                },
                _ => self.stop(Action::Abort(AbortReason::HostnameUpdateFailed)),
            },
            Phase::AwaitHostnameCommand { second } => match event {
                Event::CommandExited(_) => {
                    let name = self.hostname.clone();
                    self.go(Phase::AwaitHostnameFile { second }, Action::WriteHostnameFile(name))
                },
                _ => self.stop(Action::Abort(AbortReason::HostnameCommandFailed)),
            },
            Phase::AwaitHostnameFile { second } => if second {
                self.seed_entropy()
            } else {
                self.go(Phase::AwaitOvfEnv, Action::ReadOvfEnv)
            },
            Phase::AwaitOvfEnv => match event {
                Event::Text(doc) => self.go(
                    Phase::AwaitOvfEnvStored,
                    Action::WriteStateFile(String::from_str(OVFENV_FILENAME), doc),
                ),
                Event::IoError(err) => self.stop(
                    Action::Finish(Err(AgentError::ProvisionFailedIOError(err))),
                ),
                _ => self.stop(Action::Finish(Err(AgentError::ProvisionFailedInternalError))),
            },
            Phase::AwaitOvfEnvStored => match event {
                Event::IoError(err) => self.stop(
                    Action::Finish(Err(AgentError::ProvisionFailedIOError(err))),
                ),
                _ => self.fetch_metadata(CUSTOMDATA_PATH, Phase::AwaitCustomData),
            },
            Phase::AwaitCustomData => match event {
                Event::Text(data) => match self.options.metadata_mode {
                    AgentMetadataMode::NoOp => self.update_hostname(true),
                    AgentMetadataMode::Stash => self.go(
                        Phase::AwaitCustomDataStashed,
                        Action::WriteStateFile(String::from_str(CUSTOMDATA_FILENAME), data),
                    ),
                    AgentMetadataMode::Apply => self.go(
                        Phase::AwaitCustomDataApplied,
                        Action::ApplyCustomData(data),
                    ),
                },
                Event::NetworkError(err) => self.stop(
                    Action::Finish(Err(AgentError::ProvisionFailedNetworkError(err))),
                ),
                _ => self.stop(Action::Finish(Err(AgentError::ProvisionFailedInternalError))),
            },
            Phase::AwaitCustomDataStashed => match event {
                Event::IoError(err) => self.stop(
                    Action::Finish(Err(AgentError::ProvisionFailedIOError(err))),
                ),
                _ => self.update_hostname(true),
            },
            Phase::AwaitCustomDataApplied => match event {
                Event::Completed => self.update_hostname(true),
                _ => self.stop(Action::Abort(AbortReason::CustomDataNotApplied)),
            },
            Phase::AwaitEntropy => match event {
                Event::Completed => self.create_users(),
                _ => self.stop(Action::Abort(AbortReason::EntropyNotSeeded)),
            },
            Phase::AwaitSshKeys => match event {
                Event::Keys(keys) => {
                    self.next_key = 0;
                    self.keys = keys;
                    self.next_user()
                },
                Event::NetworkError(err) => self.stop(
                    Action::Finish(Err(AgentError::ProvisionFailedNetworkError(err))),
                ),
                _ => self.stop(Action::Finish(Err(AgentError::ProvisionFailedInternalError))),
            },
            Phase::AwaitUserCreated => match event {
                Event::IoError(err) => self.stop(
                    Action::Finish(Err(AgentError::ProvisionFailedIOError(err))),
                ),
                _ => self.next_user(),
            },
            Phase::AwaitReadyReport => match event {
                Event::ReportAccepted(true) => {
                    let vmid = self.advertised_vmid.clone();
                    self.go(
                        Phase::AwaitVmidStored,
                        Action::WriteStateFile(String::from_str(VMID_FILENAME), vmid),
                    )
                },
                Event::ReportAccepted(false) => self.stop(
                    Action::Abort(AbortReason::ReadyReportRejected),
                ),
                _ => self.stop(Action::Abort(AbortReason::ReadyReportFailed)),
            },
            Phase::AwaitVmidStored => match event {
                Event::IoError(err) => self.stop(
                    Action::Finish(Err(AgentError::ProvisionFailedIOError(err))),
                ),
                _ => self.stop(Action::Finish(Ok(()))),
            },
            Phase::Finished => Action::Abort(AbortReason::ReadyReportFailed),
        }
    }
}


/// The state a run reaches, and the actions it asks for, when it is handed
/// these outcomes in order.
pub open spec fn run_spec(s: ProvisionerView, events: Seq<EventView>) -> (ProvisionerView, Seq<ActionView>)
    decreases events.len(),
{
    if events.len() == 0 {
        (s, seq![])
    } else {
        let (next, action) = step_spec(s, events[0]);
        let (last, rest) = run_spec(next, events.drop_first());
        (last, seq![action] + rest)
    }
}

/// What holds of every state a run can reach: the optional phases are entered
/// only when their option is on, and the next key is never past the last.
pub open spec fn consistent(s: ProvisionerView) -> bool {
    &&& s.next_key <= s.keys.len()
    &&& s.phase == Phase::AwaitEntropy ==> s.options.seed_entropy
    &&& (s.phase == Phase::AwaitSshKeys || s.phase == Phase::AwaitUserCreated)
        ==> s.options.create_users
    &&& s.phase == Phase::AwaitCustomDataStashed ==> s.options.metadata_mode
        == AgentMetadataMode::Stash
    &&& s.phase == Phase::AwaitCustomDataApplied ==> s.options.metadata_mode
        == AgentMetadataMode::Apply
}

proof fn lemma_state_file_names_differ()
    ensures
        OVFENV_FILENAME@ != VMID_FILENAME@,
        CUSTOMDATA_FILENAME@ != VMID_FILENAME@,
        CUSTOMDATA_FILENAME@ != OVFENV_FILENAME@,
{
    reveal_strlit("vmid");
    reveal_strlit("ovf-env.xml");
    reveal_strlit("customData.raw");
    assert(OVFENV_FILENAME@.len() != VMID_FILENAME@.len());
    assert(CUSTOMDATA_FILENAME@.len() != VMID_FILENAME@.len());
    assert(CUSTOMDATA_FILENAME@.len() != OVFENV_FILENAME@.len());
}

/// A run starts consistent, and every step keeps it consistent; the options
/// and the agent's ids never change during a run.
pub proof fn law_runs_stay_consistent(
    options: AgentOptions,
    container_id: Seq<char>,
    instance_id: Seq<char>,
    s: ProvisionerView,
    e: EventView,
)
    requires
        consistent(s),
        accepts_spec(s.phase, e),
    ensures
        consistent(initial_spec(options, container_id, instance_id)),
        consistent(step_spec(s, e).0),
        step_spec(s, e).0.options == s.options,
        step_spec(s, e).0.container_id == s.container_id,
        step_spec(s, e).0.instance_id == s.instance_id,
{
}

/// Provisioning happens once per VM: when the recorded VM id equals the one
/// the metadata service advertises, the run reads the record, asks for the
/// advertised id, and answers that provisioning is not needed, with nothing
/// written and nothing run; when they differ, the run goes on to set the host
/// name. (Where the metadata URL cannot be built the run gives up instead.)
pub proof fn law_provisioning_happens_once_per_vm(
    options: AgentOptions,
    container_id: Seq<char>,
    instance_id: Seq<char>,
    recorded: Seq<char>,
    advertised: Seq<char>,
)
    requires
        metadata_request_spec(VMID_PATH@) is Some,
    ensures
        ({
            let start = initial_spec(options, container_id, instance_id);
            let (last, actions) = run_spec(
                start,
                seq![EventView::Begin, EventView::Text(recorded), EventView::Text(advertised)],
            );
            &&& actions.len() == 3
            &&& actions[0] == ActionView::ReadStateFile(VMID_FILENAME@)
            &&& actions[1] == ActionView::Fetch(metadata_request_spec(VMID_PATH@)->0)
            &&& recorded == advertised ==> {
                &&& actions[2] == ActionView::Finish(Err(AgentError::ProvisionNotNeeded))
                &&& last.phase == Phase::Finished
            }
            &&& recorded != advertised ==> actions[2] == update_hostname_spec(
                ProvisionerView {
                    current_vmid: recorded,
                    advertised_vmid: advertised,
                    ..start
                },
                false,
            ).1
        }),
{
    reveal_with_fuel(run_spec, 4);
    let start = initial_spec(options, container_id, instance_id);
    let events = seq![EventView::Begin, EventView::Text(recorded), EventView::Text(advertised)];
    assert(events.drop_first() =~= seq![EventView::Text(recorded), EventView::Text(advertised)]);
    assert(events.drop_first().drop_first() =~= seq![EventView::Text(advertised)]);
    assert(events.drop_first().drop_first().drop_first() =~= Seq::<EventView>::empty());
}

/// A missing or unreadable VM id record counts as an empty one.
pub proof fn law_unreadable_record_reads_as_empty(s: ProvisionerView, err: std::io::Error)
    requires
        s.phase == Phase::AwaitCurrentVmid,
    ensures
        step_spec(s, EventView::IoError(err)) == step_spec(s, EventView::Text(seq![])),
{
}

/// The VM id is recorded only after the wire server accepted the ready
/// report, and what is recorded is the advertised id.
pub proof fn law_vmid_recorded_only_after_accepted_report(
    s: ProvisionerView,
    e: EventView,
    contents: Seq<char>,
)
    requires
        accepts_spec(s.phase, e),
        step_spec(s, e).1 == ActionView::WriteStateFile(VMID_FILENAME@, contents),
    ensures
        s.phase == Phase::AwaitReadyReport,
        e == EventView::ReportAccepted(true),
        contents == s.advertised_vmid,
{
    lemma_state_file_names_differ();
}

/// A run succeeds only by recording the VM id, after every other step.
pub proof fn law_success_only_after_vmid_recorded(s: ProvisionerView, e: EventView)
    requires
        accepts_spec(s.phase, e),
        step_spec(s, e).1 == ActionView::Finish(Ok(())),
    ensures
        s.phase == Phase::AwaitVmidStored,
        e is Completed,
{
}

/// Once a run has recorded the VM id, the next run of the same VM (whatever
/// its options) reads that record back, is served the same advertised id, and
/// ends at once: provisioning is not needed.
pub proof fn law_provisioned_vm_is_not_provisioned_again(
    s: ProvisionerView,
    e: EventView,
    contents: Seq<char>,
    options: AgentOptions,
)
    requires
        accepts_spec(s.phase, e),
        step_spec(s, e).1 == ActionView::WriteStateFile(VMID_FILENAME@, contents),
        metadata_request_spec(VMID_PATH@) is Some,
    ensures
        run_spec(
            initial_spec(options, s.container_id, s.instance_id),
            seq![
                EventView::Begin,
                EventView::Text(contents),
                EventView::Text(s.advertised_vmid),
            ],
        ).1.last() == ActionView::Finish(Err(AgentError::ProvisionNotNeeded)),
{
    law_vmid_recorded_only_after_accepted_report(s, e, contents);
    law_provisioning_happens_once_per_vm(
        options,
        s.container_id,
        s.instance_id,
        contents,
        s.advertised_vmid,
    );
}

/// The optional steps follow the options: the random pool is seeded only, and
/// always, when `seed_entropy` is on; SSH keys are fetched and users created
/// only when `create_users` is on, and then every listed key is installed, in
/// order, before the ready report; custom data is stashed only in `Stash`
/// mode and applied only in `Apply` mode; the ready report always names the
/// agent's own container and role instance.
pub proof fn law_optional_steps_follow_options(s: ProvisionerView, e: EventView)
    requires
        consistent(s),
        accepts_spec(s.phase, e),
    ensures
        ({
            let (next, action) = step_spec(s, e);
            &&& action is SeedEntropy ==> s.options.seed_entropy
            &&& s.phase == (Phase::AwaitHostnameFile { second: true }) ==> (action is SeedEntropy
                <==> s.options.seed_entropy)
            &&& (action is FetchSshKeys || action is CreateUser) ==> s.options.create_users
            &&& action matches ActionView::CreateUser(k) ==> {
                &&& 1 <= next.next_key <= next.keys.len()
                &&& k == next.keys[next.next_key - 1]
                &&& s.phase == Phase::AwaitUserCreated ==> next.next_key == s.next_key + 1
                &&& s.phase == Phase::AwaitSshKeys ==> next.next_key == 1
            }
            &&& action matches ActionView::ReportReady(r) ==> {
                &&& (!s.options.create_users || next.next_key == next.keys.len())
                &&& r == health_report_request_spec(s.container_id, s.instance_id)->0
            }
            &&& (action matches ActionView::WriteStateFile(name, _) && name == CUSTOMDATA_FILENAME@)
                ==> s.options.metadata_mode == AgentMetadataMode::Stash
            &&& action is ApplyCustomData ==> s.options.metadata_mode == AgentMetadataMode::Apply
        }),
{
    lemma_state_file_names_differ();
}

/// A run ends exactly when it answers with a result or gives up, and an ended
/// run takes no further outcome.
pub proof fn law_runs_end_with_finish_or_abort(s: ProvisionerView, e: EventView)
    requires
        accepts_spec(s.phase, e),
    ensures
        (step_spec(s, e).1 is Finish || step_spec(s, e).1 is Abort) <==> step_spec(s, e).0.phase
            == Phase::Finished,
        forall|e2: EventView| !accepts_spec(Phase::Finished, e2),
{
}

/// The host name that is set, and written to `/etc/hostname`, is the one the
/// metadata service serves.
pub proof fn law_hostname_is_the_served_name(s: ProvisionerView, second: bool, name: Seq<char>, exit_ok: bool)
    requires
        s.phase == (Phase::AwaitHostname { second }),
    ensures
        run_spec(s, seq![EventView::Text(name), EventView::CommandExited(exit_ok)]).1 == seq![
            ActionView::RunCommand(CommandView { program: "hostname"@, args: seq![name] }),
            ActionView::WriteHostnameFile(name),
        ],
{
    reveal_with_fuel(run_spec, 3);
    let events = seq![EventView::Text(name), EventView::CommandExited(exit_ok)];
    assert(events.drop_first() =~= seq![EventView::CommandExited(exit_ok)]);
    assert(events.drop_first().drop_first() =~= Seq::<EventView>::empty());
    let (s1, a1) = step_spec(s, events[0]);
    let (s2, a2) = step_spec(s1, events.drop_first()[0]);
    assert(run_spec(s, events).1 =~= seq![a1, a2]);
}

/// The advertised VM id that a run keeps is exactly the text the metadata
/// service served, for every text.
pub proof fn law_advertised_vmid_is_the_served_text(s: ProvisionerView, v: Seq<char>)
    requires
        s.phase == Phase::AwaitAdvertisedVmid,
    ensures
        step_spec(s, EventView::Text(v)).0.advertised_vmid == v,
{
}

/// Once served, the advertised VM id is never changed by a later step.
pub proof fn law_advertised_vmid_is_kept(s: ProvisionerView, e: EventView)
    requires
        accepts_spec(s.phase, e),
        s.phase != Phase::AwaitAdvertisedVmid,
    ensures
        step_spec(s, e).0.advertised_vmid == s.advertised_vmid,
{
}

/// A run of a new VM (its record differs from the advertised id `v`) that
/// goes through every step records `v` itself: with no optional step, the
/// outcomes "record, `v`, host name, hostname ran, /etc/hostname written, OVF
/// document, stored, custom data, host name, hostname ran, /etc/hostname
/// written, report accepted" end with writing `v` to the `vmid` file.
pub proof fn law_new_vm_records_the_served_id(
    container_id: Seq<char>,
    instance_id: Seq<char>,
    recorded: Seq<char>,
    v: Seq<char>,
    name: Seq<char>,
    ovf: Seq<char>,
    custom: Seq<char>,
)
    requires
        recorded != v,
        metadata_request_spec(VMID_PATH@) is Some,
        metadata_request_spec(HOSTNAME_PATH@) is Some,
        metadata_request_spec(CUSTOMDATA_PATH@) is Some,
        health_report_request_spec(container_id, instance_id) is Some,
    ensures
        ({
            let options = AgentOptions {
                metadata_mode: AgentMetadataMode::NoOp,
                seed_entropy: false,
                create_users: false,
            };
            let events = seq![
                EventView::Begin,
                EventView::Text(recorded),
                EventView::Text(v),
                EventView::Text(name),
                EventView::CommandExited(true),
                EventView::Completed,
                EventView::Text(ovf),
                EventView::Completed,
                EventView::Text(custom),
                EventView::Text(name),
                EventView::CommandExited(true),
                EventView::Completed,
                EventView::ReportAccepted(true),
            ];
            run_spec(initial_spec(options, container_id, instance_id), events).1.last()
                == ActionView::WriteStateFile("vmid"@, v)
        }),
{
    let options = AgentOptions {
        metadata_mode: AgentMetadataMode::NoOp,
        seed_entropy: false,
        create_users: false,
    };
    let events = seq![
        EventView::Begin,
        EventView::Text(recorded),
        EventView::Text(v),
        EventView::Text(name),
        EventView::CommandExited(true),
        EventView::Completed,
        EventView::Text(ovf),
        EventView::Completed,
        EventView::Text(custom),
        EventView::Text(name),
        EventView::CommandExited(true),
        EventView::Completed,
        EventView::ReportAccepted(true),
    ];
    let s0 = initial_spec(options, container_id, instance_id);
    let mut s = s0;
    let mut rest = events;
    lemma_run_last(s, rest);
    s = step_spec(s, rest[0]).0;
    rest = rest.drop_first();
    lemma_run_last(s, rest);
    s = step_spec(s, rest[0]).0;
    rest = rest.drop_first();
    lemma_run_last(s, rest);
    s = step_spec(s, rest[0]).0;
    rest = rest.drop_first();
    lemma_run_last(s, rest);
    s = step_spec(s, rest[0]).0;
    rest = rest.drop_first();
    lemma_run_last(s, rest);
    s = step_spec(s, rest[0]).0;
    rest = rest.drop_first();
    lemma_run_last(s, rest);
    s = step_spec(s, rest[0]).0;
    rest = rest.drop_first();
    lemma_run_last(s, rest);
    s = step_spec(s, rest[0]).0;
    rest = rest.drop_first();
    lemma_run_last(s, rest);
    s = step_spec(s, rest[0]).0;
    rest = rest.drop_first();
    lemma_run_last(s, rest);
    s = step_spec(s, rest[0]).0;
    rest = rest.drop_first();
    lemma_run_last(s, rest);
    s = step_spec(s, rest[0]).0;
    rest = rest.drop_first();
    lemma_run_last(s, rest);
    s = step_spec(s, rest[0]).0;
    rest = rest.drop_first();
    lemma_run_last(s, rest);
    s = step_spec(s, rest[0]).0;
    rest = rest.drop_first();
    assert(rest =~= seq![EventView::ReportAccepted(true)]);
    lemma_run_single(s, rest);
    assert(s.phase == Phase::AwaitReadyReport);
    assert(s.advertised_vmid == v);
}

proof fn lemma_run_last(s: ProvisionerView, events: Seq<EventView>)
    requires
        events.len() >= 2,
    ensures
        run_spec(s, events).1.last() == run_spec(step_spec(s, events[0]).0, events.drop_first()).1.last(),
{
    let (next, action) = step_spec(s, events[0]);
    let (last, rest) = run_spec(next, events.drop_first());
    lemma_run_length(next, events.drop_first());
    assert(run_spec(s, events).1 == seq![action] + rest);
}

proof fn lemma_run_length(s: ProvisionerView, events: Seq<EventView>)
    ensures
        run_spec(s, events).1.len() == events.len(),
    decreases events.len(),
{
    if events.len() > 0 {
        lemma_run_length(step_spec(s, events[0]).0, events.drop_first());
    }
}

proof fn lemma_run_single(s: ProvisionerView, events: Seq<EventView>)
    requires
        events.len() == 1,
    ensures
        run_spec(s, events).1.last() == step_spec(s, events[0]).1,
{
    assert(events.drop_first() =~= Seq::<EventView>::empty());
    reveal_with_fuel(run_spec, 2);
}

/// What was served is passed on verbatim: the OVF document is stored as read
/// in `ovf-env.xml`; the custom data is stashed in `customData.raw` or applied
/// as fetched; the SSH keys are kept as listed; the host name is the text
/// served for it.
pub proof fn law_served_contents_are_kept_verbatim(s: ProvisionerView, t: Seq<char>, keys: Seq<PublicKeyView>)
    ensures
        s.phase == Phase::AwaitOvfEnv ==> step_spec(s, EventView::Text(t)).1
            == ActionView::WriteStateFile("ovf-env.xml"@, t),
        s.phase == Phase::AwaitCustomData && s.options.metadata_mode == AgentMetadataMode::Stash
            ==> step_spec(s, EventView::Text(t)).1 == ActionView::WriteStateFile(
            "customData.raw"@,
            t,
        ),
        s.phase == Phase::AwaitCustomData && s.options.metadata_mode == AgentMetadataMode::Apply
            ==> step_spec(s, EventView::Text(t)).1 == ActionView::ApplyCustomData(t),
        s.phase == Phase::AwaitSshKeys ==> step_spec(s, EventView::Keys(keys)).0.keys == keys,
        s.phase == Phase::AwaitSshKeys && keys.len() > 0 ==> step_spec(s, EventView::Keys(keys)).1
            == ActionView::CreateUser(keys[0]),
        (s.phase matches Phase::AwaitHostname { .. }) ==> step_spec(s, EventView::Text(t)).0.hostname
            == t,
        s.phase == Phase::AwaitCurrentVmid ==> step_spec(s, EventView::Text(t)).0.current_vmid == t,
{
}

} // verus!
