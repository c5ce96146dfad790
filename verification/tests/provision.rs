use azure_linux_boot_agent::agent::{Agent, AgentError, AgentMetadataMode, AgentOptions};
use azure_linux_boot_agent::metadata::PublicKey;
use azure_linux_boot_agent::provision::{AbortReason, Action, Event, Phase, Provisioner};

fn agent() -> Agent {
    Agent {
        instance_id: "instance-1".to_string(),
        container_id: "container-1".to_string(),
        state_dir: "/var/lib/azure-linux-boot-agent/".to_string(),
    }
}

fn options(mode: AgentMetadataMode, seed_entropy: bool, create_users: bool) -> AgentOptions {
    AgentOptions { metadata_mode: mode, seed_entropy, create_users }
}

fn text(s: &str) -> Event {
    Event::Text(s.to_string())
}

fn step(p: &mut Provisioner, e: Event) -> Action {
    assert!(p.accepts(&e));
    p.step(e)
}

fn fetch_url(a: &Action) -> String {
    match a {
        Action::Fetch(r) => r.url.clone(),
        _ => panic!("expected a fetch"),
    }
}

fn io_error() -> std::io::Error {
    std::io::Error::new(std::io::ErrorKind::Other, "disk")
}

fn network_error() -> reqwest::Error {
    reqwest::Client::new().get("not a url").build().unwrap_err()
}

/// Drives a run from the start up to the first host name fetch.
fn up_to_first_hostname(p: &mut Provisioner, recorded: &str, advertised: &str) {
    match step(p, Event::Begin) {
        Action::ReadStateFile(f) => assert_eq!(f, "vmid"),
        _ => panic!("expected the vmid record to be read"),
    }
    let a = step(p, text(recorded));
    assert_eq!(fetch_url(&a), "http://169.254.169.254/metadata/instance/compute/vmId");
    let a = step(p, text(advertised));
    assert_eq!(fetch_url(&a), "http://169.254.169.254/metadata/instance/compute/name");
}

fn hostname_round(p: &mut Provisioner, name: &str) {
    match step(p, text(name)) {
        Action::RunCommand(c) => {
            assert_eq!(c.program, "hostname");
            assert_eq!(c.args, vec![name.to_string()]);
        },
        _ => panic!("expected the hostname command"),
    }
    match step(p, Event::CommandExited(true)) {
        Action::WriteHostnameFile(h) => assert_eq!(h, name),
        _ => panic!("expected /etc/hostname to be written"),
    }
}

#[test]
fn already_provisioned_vm_is_left_alone() {
    let mut p = Provisioner::new(&agent(), options(AgentMetadataMode::Stash, true, true));
    assert!(matches!(step(&mut p, Event::Begin), Action::ReadStateFile(_)));
    assert!(matches!(step(&mut p, text("vm-1")), Action::Fetch(_)));
    match step(&mut p, text("vm-1")) {
        Action::Finish(Err(AgentError::ProvisionNotNeeded)) => {},
        _ => panic!("expected provisioning not to be needed"),
    }
    assert_eq!(p.phase(), Phase::Finished);
    assert!(!p.accepts(&Event::Begin));
    assert!(!p.accepts(&Event::Completed));
}

#[test]
fn unreadable_record_counts_as_empty() {
    let mut p = Provisioner::new(&agent(), options(AgentMetadataMode::NoOp, false, false));
    step(&mut p, Event::Begin);
    assert!(matches!(step(&mut p, Event::IoError(io_error())), Action::Fetch(_)));
    match step(&mut p, text("")) {
        Action::Finish(Err(AgentError::ProvisionNotNeeded)) => {},
        _ => panic!("an empty advertised id matches a missing record"),
    }
}

#[test]
fn full_run_with_every_option() {
    let mut p = Provisioner::new(&agent(), options(AgentMetadataMode::Stash, true, true));
    up_to_first_hostname(&mut p, "old-vm", "new-vm");
    hostname_round(&mut p, "myhost");
    assert!(matches!(step(&mut p, Event::Completed), Action::ReadOvfEnv));
    match step(&mut p, text("<Environment/>")) {
        Action::WriteStateFile(f, c) => {
            assert_eq!(f, "ovf-env.xml");
            assert_eq!(c, "<Environment/>");
        },
        _ => panic!("expected the OVF environment to be stored"),
    }
    let a = step(&mut p, Event::Completed);
    assert_eq!(fetch_url(&a), "http://169.254.169.254/metadata/instance/compute/customData");
    match step(&mut p, text("custom")) {
        Action::WriteStateFile(f, c) => {
            assert_eq!(f, "customData.raw");
            assert_eq!(c, "custom");
        },
        _ => panic!("expected the custom data to be stashed"),
    }
    let a = step(&mut p, Event::Completed);
    assert_eq!(fetch_url(&a), "http://169.254.169.254/metadata/instance/compute/name");
    hostname_round(&mut p, "myhost");
    assert!(matches!(step(&mut p, Event::IoError(io_error())), Action::SeedEntropy));
    match step(&mut p, Event::Completed) {
        Action::FetchSshKeys(r) => {
            assert_eq!(r.url, "http://169.254.169.254/metadata/instance/compute/publicKeys")
        },
        _ => panic!("expected the keys to be fetched"),
    }
    let keys = vec![
        PublicKey { key_data: "k1".to_string(), path: "/home/a/.ssh/authorized_keys".to_string() },
        PublicKey { key_data: "k2".to_string(), path: "/home/b/.ssh/authorized_keys".to_string() },
    ];
    match step(&mut p, Event::Keys(keys)) {
        Action::CreateUser(k) => assert_eq!(k.key_data, "k1"),
        _ => panic!("expected the first user"),
    }
    match step(&mut p, Event::Completed) {
        Action::CreateUser(k) => assert_eq!(k.key_data, "k2"),
        _ => panic!("expected the second user"),
    }
    match step(&mut p, Event::Completed) {
        Action::ReportReady(r) => {
            assert_eq!(r.url, "http://168.63.129.16/machine?comp=health");
            let body = r.body.unwrap();
            assert!(body.contains("<ContainerId>container-1</ContainerId>"));
            assert!(body.contains("<InstanceId>instance-1</InstanceId>"));
        },
        _ => panic!("expected the ready report"),
    }
    match step(&mut p, Event::ReportAccepted(true)) {
        Action::WriteStateFile(f, c) => {
            assert_eq!(f, "vmid");
            assert_eq!(c, "new-vm");
        },
        _ => panic!("expected the vmid to be recorded"),
    }
    assert!(matches!(step(&mut p, Event::Completed), Action::Finish(Ok(()))));
    assert_eq!(p.phase(), Phase::Finished);
}

#[test]
fn minimal_run_skips_optional_steps() {
    let mut p = Provisioner::new(&agent(), options(AgentMetadataMode::NoOp, false, false));
    up_to_first_hostname(&mut p, "", "vm-2");
    hostname_round(&mut p, "h");
    assert!(matches!(step(&mut p, Event::Completed), Action::ReadOvfEnv));
    assert!(matches!(step(&mut p, text("ovf")), Action::WriteStateFile(_, _)));
    assert!(matches!(step(&mut p, Event::Completed), Action::Fetch(_)));
    let a = step(&mut p, text("custom"));
    assert_eq!(fetch_url(&a), "http://169.254.169.254/metadata/instance/compute/name");
    hostname_round(&mut p, "h");
    assert!(matches!(step(&mut p, Event::Completed), Action::ReportReady(_)));
    assert!(matches!(step(&mut p, Event::ReportAccepted(true)), Action::WriteStateFile(_, _)));
    assert!(matches!(step(&mut p, Event::Completed), Action::Finish(Ok(()))));
}

#[test]
fn apply_mode_applies_custom_data() {
    let mut p = Provisioner::new(&agent(), options(AgentMetadataMode::Apply, false, true));
    up_to_first_hostname(&mut p, "a", "b");
    hostname_round(&mut p, "h");
    step(&mut p, Event::Completed);
    step(&mut p, text("ovf"));
    step(&mut p, Event::Completed);
    match step(&mut p, text("payload")) {
        Action::ApplyCustomData(d) => assert_eq!(d, "payload"),
        _ => panic!("expected the custom data to be applied"),
    }
    assert!(matches!(step(&mut p, Event::Failed), Action::Abort(AbortReason::CustomDataNotApplied)));
}

#[test]
fn no_keys_means_straight_to_the_report() {
    let mut p = Provisioner::new(&agent(), options(AgentMetadataMode::NoOp, false, true));
    up_to_first_hostname(&mut p, "a", "b");
    hostname_round(&mut p, "h");
    step(&mut p, Event::Completed);
    step(&mut p, text("ovf"));
    step(&mut p, Event::Completed);
    step(&mut p, text("custom"));
    hostname_round(&mut p, "h");
    assert!(matches!(step(&mut p, Event::Completed), Action::FetchSshKeys(_)));
    assert!(matches!(step(&mut p, Event::Keys(vec![])), Action::ReportReady(_)));
}

#[test]
fn advertised_vmid_network_error_is_reported() {
    let mut p = Provisioner::new(&agent(), options(AgentMetadataMode::NoOp, false, false));
    step(&mut p, Event::Begin);
    step(&mut p, text("a"));
    match step(&mut p, Event::NetworkError(network_error())) {
        Action::Finish(Err(AgentError::ProvisionFailedNetworkError(_))) => {},
        _ => panic!("expected the network error"),
    }
}

#[test]
fn first_hostname_error_is_reported_second_aborts() {
    let mut p = Provisioner::new(&agent(), options(AgentMetadataMode::NoOp, false, false));
    up_to_first_hostname(&mut p, "a", "b");
    match step(&mut p, Event::NetworkError(network_error())) {
        Action::Finish(Err(AgentError::ProvisionFailedNetworkError(_))) => {},
        _ => panic!("expected the network error"),
    }

    let mut p = Provisioner::new(&agent(), options(AgentMetadataMode::NoOp, false, false));
    up_to_first_hostname(&mut p, "a", "b");
    hostname_round(&mut p, "h");
    step(&mut p, Event::Completed);
    step(&mut p, text("ovf"));
    step(&mut p, Event::Completed);
    step(&mut p, text("custom"));
    assert!(matches!(
        step(&mut p, Event::NetworkError(network_error())),
        Action::Abort(AbortReason::HostnameUpdateFailed)
    ));
}

#[test]
fn hostname_command_that_cannot_start_aborts() {
    let mut p = Provisioner::new(&agent(), options(AgentMetadataMode::NoOp, false, false));
    up_to_first_hostname(&mut p, "a", "b");
    step(&mut p, text("h"));
    assert!(matches!(step(&mut p, Event::Failed), Action::Abort(AbortReason::HostnameCommandFailed)));
}

#[test]
fn io_errors_are_reported() {
    let mut p = Provisioner::new(&agent(), options(AgentMetadataMode::NoOp, false, false));
    up_to_first_hostname(&mut p, "a", "b");
    hostname_round(&mut p, "h");
    step(&mut p, Event::Completed);
    match step(&mut p, Event::IoError(io_error())) {
        Action::Finish(Err(AgentError::ProvisionFailedIOError(_))) => {},
        _ => panic!("expected the io error"),
    }
}

#[test]
fn rejected_or_failed_report_aborts_and_records_nothing() {
    let mut p = Provisioner::new(&agent(), options(AgentMetadataMode::NoOp, false, false));
    up_to_first_hostname(&mut p, "a", "b");
    hostname_round(&mut p, "h");
    step(&mut p, Event::Completed);
    step(&mut p, text("ovf"));
    step(&mut p, Event::Completed);
    step(&mut p, text("custom"));
    hostname_round(&mut p, "h");
    assert!(matches!(step(&mut p, Event::Completed), Action::ReportReady(_)));
    assert!(matches!(
        step(&mut p, Event::ReportAccepted(false)),
        Action::Abort(AbortReason::ReadyReportRejected)
    ));
}

#[test]
fn entropy_failure_aborts() {
    let mut p = Provisioner::new(&agent(), options(AgentMetadataMode::NoOp, true, false));
    up_to_first_hostname(&mut p, "a", "b");
    hostname_round(&mut p, "h");
    step(&mut p, Event::Completed);
    step(&mut p, text("ovf"));
    step(&mut p, Event::Completed);
    step(&mut p, text("custom"));
    hostname_round(&mut p, "h");
    assert!(matches!(step(&mut p, Event::Completed), Action::SeedEntropy));
    assert!(matches!(
        step(&mut p, Event::IoError(io_error())),
        Action::Abort(AbortReason::EntropyNotSeeded)
    ));
}

#[test]
fn user_creation_failure_is_reported() {
    let mut p = Provisioner::new(&agent(), options(AgentMetadataMode::NoOp, false, true));
    up_to_first_hostname(&mut p, "a", "b");
    hostname_round(&mut p, "h");
    step(&mut p, Event::Completed);
    step(&mut p, text("ovf"));
    step(&mut p, Event::Completed);
    step(&mut p, text("custom"));
    hostname_round(&mut p, "h");
    step(&mut p, Event::Completed);
    let keys = vec![PublicKey { key_data: "k".to_string(), path: "/home/a/.ssh/authorized_keys".to_string() }];
    assert!(matches!(step(&mut p, Event::Keys(keys)), Action::CreateUser(_)));
    match step(&mut p, Event::IoError(io_error())) {
        Action::Finish(Err(AgentError::ProvisionFailedIOError(_))) => {},
        _ => panic!("expected the io error"),
    }
}

#[test]
fn recorded_vmid_stops_the_next_run() {
    let mut p = Provisioner::new(&agent(), options(AgentMetadataMode::NoOp, false, false));
    up_to_first_hostname(&mut p, "", "vm-9");
    hostname_round(&mut p, "h");
    step(&mut p, Event::Completed);
    step(&mut p, text("ovf"));
    step(&mut p, Event::Completed);
    step(&mut p, text("custom"));
    hostname_round(&mut p, "h");
    step(&mut p, Event::Completed);
    let recorded = match step(&mut p, Event::ReportAccepted(true)) {
        Action::WriteStateFile(_, c) => c,
        _ => panic!("expected the vmid to be recorded"),
    };
    let mut next = Provisioner::new(&agent(), options(AgentMetadataMode::Stash, true, true));
    step(&mut next, Event::Begin);
    step(&mut next, Event::Text(recorded));
    assert!(matches!(
        step(&mut next, text("vm-9")),
        Action::Finish(Err(AgentError::ProvisionNotNeeded))
    ));
}
