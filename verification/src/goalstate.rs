#![allow(non_snake_case)]

use vstd::prelude::*;

verus! {

/// The configuration links of a role instance in the wire server's goal state.
#[derive(Debug, PartialEq)]
pub struct RoleInstanceConfiguration {
    pub HostingEnvironmentConfig: String,
    pub SharedConfig: String,
    pub ExtensionsConfig: String,
    pub FullConfig: String,
    pub Certificates: String,
    pub ConfigName: String,
}

/// A role instance in the wire server's goal state.
#[derive(Debug, PartialEq)]
pub struct RoleInstance {
    pub InstanceId: String,
    pub State: String,
    pub Configuration: RoleInstanceConfiguration,
}

/// A load balancer probe port.
#[derive(Debug, PartialEq)]
pub struct LBPort {
    pub Port: String,
}

/// The role instances of a container.
#[derive(Debug, PartialEq)]
pub struct RoleInstanceList {
    pub RoleInstance: RoleInstance,
}

/// The container that hosts this VM.
#[derive(Debug, PartialEq)]
pub struct Container {
    pub ContainerId: String,
    pub RoleInstanceList: RoleInstanceList,
}

/// The machine section of the goal state.
#[derive(Debug, PartialEq)]
pub struct Machine {
    pub ExpectedState: String,
    pub StopRolesDeadlineHint: i64,
    pub LBProbePorts: Vec<LBPort>,
    pub ExpectHealthReport: String,
}

/// The goal state document that the wire server serves.
#[derive(Debug, PartialEq)]
pub struct GoalState {
    pub Version: String,
    pub Incarnation: i64,
    pub Machine: Machine,
    pub Container: Container,
}

} // verus!
