use azure_linux_boot_agent::agent::{
    health_report_request, metadata_request, ssh_keys_request, status_is_success, wireserver_request,
    Agent, HttpMethod, HttpRequest, AGENT_STATE_DIR,
};
use azure_linux_boot_agent::goalstate::{
    Container, GoalState, Machine, RoleInstance, RoleInstanceConfiguration, RoleInstanceList,
};

fn pairs(v: &[(&str, &str)]) -> Vec<(String, String)> {
    v.iter().map(|(a, b)| (a.to_string(), b.to_string())).collect()
}

fn check(req: &HttpRequest, method: HttpMethod, url: &str, query: &[(&str, &str)], headers: &[(&str, &str)]) {
    assert_eq!(req.method, method);
    assert_eq!(req.url, url);
    assert_eq!(req.query, pairs(query));
    assert_eq!(req.headers, pairs(headers));
}

#[test]
fn goal_state_request() {
    let req = Agent::goal_state_request().unwrap();
    check(
        &req,
        HttpMethod::Get,
        "http://168.63.129.16/machine?comp=goalstate",
        &[],
        &[("x-ms-version", "2012-11-30")],
    );
    assert!(req.body.is_none());
}

#[test]
fn wireserver_request_joins_path() {
    let req = wireserver_request("a/b?c=d").unwrap();
    assert_eq!(req.url, "http://168.63.129.16/a/b?c=d");
}

#[test]
fn metadata_requests() {
    let req = metadata_request("instance/compute/vmId").unwrap();
    check(
        &req,
        HttpMethod::Get,
        "http://169.254.169.254/metadata/instance/compute/vmId",
        &[("api-version", "2019-06-01"), ("format", "text")],
        &[("Metadata", "true")],
    );
    let req = Agent::advertised_vmid_request().unwrap();
    assert_eq!(req.url, "http://169.254.169.254/metadata/instance/compute/vmId");
}

#[test]
fn metadata_path_with_leading_slash_replaces_base_path() {
    let req = metadata_request("/other").unwrap();
    assert_eq!(req.url, "http://169.254.169.254/other");
}

#[test]
fn ssh_keys_request_text() {
    let req = ssh_keys_request().unwrap();
    check(
        &req,
        HttpMethod::Get,
        "http://169.254.169.254/metadata/instance/compute/publicKeys",
        &[("api-version", "2019-06-01")],
        &[("Metadata", "true")],
    );
}

#[test]
fn ready_report_request() {
    let req = health_report_request("cid", "iid").unwrap();
    check(
        &req,
        HttpMethod::Post,
        "http://168.63.129.16/machine?comp=health",
        &[],
        &[
            ("x-ms-version", "2012-11-30"),
            ("Content-Type", "text/xml;charset=utf-8"),
            ("x-ms-agent-name", "agent-linux-boot-agent"),
        ],
    );
    let body = req.body.unwrap();
    assert!(body.contains("<ContainerId>cid</ContainerId>"));
    assert!(body.contains("<InstanceId>iid</InstanceId>"));
}

#[test]
fn success_statuses() {
    assert!(status_is_success(200));
    assert!(status_is_success(299));
    assert!(!status_is_success(199));
    assert!(!status_is_success(300));
    assert!(!status_is_success(500));
}

fn goal_state() -> GoalState {
    GoalState {
        Version: "2012-11-30".to_string(),
        Incarnation: 1,
        Machine: Machine {
            ExpectedState: "Started".to_string(),
            StopRolesDeadlineHint: 300000,
            LBProbePorts: vec![],
            ExpectHealthReport: "FALSE".to_string(),
        },
        Container: Container {
            ContainerId: "container-1".to_string(),
            RoleInstanceList: RoleInstanceList {
                RoleInstance: RoleInstance {
                    InstanceId: "instance-1".to_string(),
                    State: "Started".to_string(),
                    Configuration: RoleInstanceConfiguration {
                        HostingEnvironmentConfig: String::new(),
                        SharedConfig: String::new(),
                        ExtensionsConfig: String::new(),
                        FullConfig: String::new(),
                        Certificates: String::new(),
                        ConfigName: String::new(),
                    },
                },
            },
        },
    }
}

#[test]
fn agent_from_goal_state() {
    let agent = Agent::from_goal_state(goal_state());
    assert_eq!(agent.container_id, "container-1");
    assert_eq!(agent.instance_id, "instance-1");
    assert_eq!(agent.state_dir, AGENT_STATE_DIR);
    let req = agent.report_ready_request().unwrap();
    assert!(req.body.unwrap().contains("<ContainerId>container-1</ContainerId>"));
}
