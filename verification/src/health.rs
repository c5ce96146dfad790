use vstd::prelude::*;

verus! {

/// The error type that the XML library reports.
#[verifier::external_type_specification]
#[verifier::external_body]
pub struct ExXmlError(serde_xml_rs::Error);

/// Goal state incarnation that a health report acknowledges.
pub const GOAL_STATE_INCARNATION: &'static str = "1";

/// Role state that a health report announces.
pub const HEALTH_STATE_READY: &'static str = "Ready";

pub const HEALTH_XML_HEAD: &'static str = "<?xml version=\"1.0\" encoding=\"utf-8\"?>\n<Health xmlns:xsi=\"http://www.w3.org/2001/XMLSchema-instance\" xmlns:xsd=\"http://www.w3.org/2001/XMLSchema\">\n  <GoalStateIncarnation>";

pub const HEALTH_XML_BEFORE_CONTAINER: &'static str = "</GoalStateIncarnation>\n  <Container>\n    <ContainerId>";

pub const HEALTH_XML_BEFORE_INSTANCE: &'static str = "</ContainerId>\n    <RoleInstanceList>\n      <Role>\n        <InstanceId>";

pub const HEALTH_XML_BEFORE_STATE: &'static str = "</InstanceId>\n        <Health>\n          <State>";

pub const HEALTH_XML_TAIL: &'static str = "</State>\n        </Health>\n      </Role>\n    </RoleInstanceList>\n  </Container>\n</Health>\n";

/// The health report document announcing that the role instance `instance_id`
/// of container `container_id` is ready.
pub open spec fn health_report_xml(container_id: Seq<char>, instance_id: Seq<char>) -> Seq<char> {
    HEALTH_XML_HEAD@ + GOAL_STATE_INCARNATION@ + HEALTH_XML_BEFORE_CONTAINER@ + container_id
        + HEALTH_XML_BEFORE_INSTANCE@ + instance_id + HEALTH_XML_BEFORE_STATE@
        + HEALTH_STATE_READY@ + HEALTH_XML_TAIL@
}

/// Builds the XML health report that tells the wire server that the role
/// instance is ready. The ids are inserted verbatim; building never fails.
pub fn mk_health_report(container_id: &str, instance_id: &str) -> (r: Result<
    String,
    serde_xml_rs::Error,
>)
    ensures
        r matches Ok(xml) && xml@ == health_report_xml(container_id@, instance_id@),
{
    let mut xml = String::from_str(HEALTH_XML_HEAD);
    xml.append(GOAL_STATE_INCARNATION);
    xml.append(HEALTH_XML_BEFORE_CONTAINER);
    xml.append(container_id);
    xml.append(HEALTH_XML_BEFORE_INSTANCE);
    xml.append(instance_id);
    xml.append(HEALTH_XML_BEFORE_STATE);
    xml.append(HEALTH_STATE_READY);
    xml.append(HEALTH_XML_TAIL);
    Ok(xml)
}

/// `t` occurs in `s` as a contiguous piece.
pub open spec fn occurs_in(t: Seq<char>, s: Seq<char>) -> bool {
    exists|k: int| 0 <= k && k + t.len() <= s.len() && #[trigger] s.subrange(k, k + t.len()) == t
}

proof fn lemma_occurs_between(a: Seq<char>, t: Seq<char>, b: Seq<char>)
    ensures
        occurs_in(t, a + t + b),
{
    let s = a + t + b;
    assert(s.subrange(a.len() as int, (a.len() + t.len()) as int) =~= t);
}

/// The health report names the container and the role instance verbatim,
/// whatever the ids are, and announces the state `Ready` for goal state
/// incarnation 1.
pub proof fn law_health_report_names_its_ids(container_id: Seq<char>, instance_id: Seq<char>)
    ensures
        occurs_in(
            "<ContainerId>"@ + container_id + "</ContainerId>"@,
            health_report_xml(container_id, instance_id),
        ),
        occurs_in(
            "<InstanceId>"@ + instance_id + "</InstanceId>"@,
            health_report_xml(container_id, instance_id),
        ),
        occurs_in("<State>Ready</State>"@, health_report_xml(container_id, instance_id)),
        occurs_in(
            "<GoalStateIncarnation>1</GoalStateIncarnation>"@,
            health_report_xml(container_id, instance_id),
        ),
{
    reveal_strlit("<ContainerId>");
    reveal_strlit("</ContainerId>");
    reveal_strlit("<InstanceId>");
    reveal_strlit("</InstanceId>");
    reveal_strlit("<State>Ready</State>");
    reveal_strlit("<GoalStateIncarnation>1</GoalStateIncarnation>");
    reveal_strlit("1");
    reveal_strlit("<State>");
    reveal_strlit("</State>");
    reveal_strlit("<GoalStateIncarnation>");
    reveal_strlit("</GoalStateIncarnation>");
    reveal_strlit("Ready");
    reveal_strlit("<?xml version=\"1.0\" encoding=\"utf-8\"?>\n<Health xmlns:xsi=\"http://www.w3.org/2001/XMLSchema-instance\" xmlns:xsd=\"http://www.w3.org/2001/XMLSchema\">\n  <GoalStateIncarnation>");
    reveal_strlit("</GoalStateIncarnation>\n  <Container>\n    <ContainerId>");
    reveal_strlit("</ContainerId>\n    <RoleInstanceList>\n      <Role>\n        <InstanceId>");
    reveal_strlit("</InstanceId>\n        <Health>\n          <State>");
    reveal_strlit("</State>\n        </Health>\n      </Role>\n    </RoleInstanceList>\n  </Container>\n</Health>\n");
    let head = HEALTH_XML_HEAD@;
    let inc = GOAL_STATE_INCARNATION@;
    let bc = HEALTH_XML_BEFORE_CONTAINER@;
    let bi = HEALTH_XML_BEFORE_INSTANCE@;
    let bs = HEALTH_XML_BEFORE_STATE@;
    let ready = HEALTH_STATE_READY@;
    let tail = HEALTH_XML_TAIL@;
    let c = container_id;
    let i = instance_id;
    let xml = health_report_xml(c, i);
    assert(xml == head + inc + bc + c + bi + i + bs + ready + tail);

    // The container id sits between the end of `bc` and the start of `bi`.
    let bc_pre = bc.subrange(0, bc.len() - 13);
    assert(bc =~= bc_pre + "<ContainerId>"@);
    let bi_post = bi.subrange(14, bi.len() as int);
    assert(bi =~= "</ContainerId>"@ + bi_post);
    assert(xml =~= (head + inc + bc_pre) + ("<ContainerId>"@ + c + "</ContainerId>"@) + (bi_post + i
        + bs + ready + tail));
    lemma_occurs_between(
        head + inc + bc_pre,
        "<ContainerId>"@ + c + "</ContainerId>"@,
        bi_post + i + bs + ready + tail,
    );

    // The instance id sits between the end of `bi` and the start of `bs`.
    let bi_pre = bi.subrange(0, bi.len() - 12);
    assert(bi =~= bi_pre + "<InstanceId>"@);
    let bs_post = bs.subrange(13, bs.len() as int);
    assert(bs =~= "</InstanceId>"@ + bs_post);
    assert(xml =~= (head + inc + bc + c + bi_pre) + ("<InstanceId>"@ + i + "</InstanceId>"@) + (
    bs_post + ready + tail));
    lemma_occurs_between(
        head + inc + bc + c + bi_pre,
        "<InstanceId>"@ + i + "</InstanceId>"@,
        bs_post + ready + tail,
    );

    // The state is `Ready`.
    let bs_pre = bs.subrange(0, bs.len() - 7);
    assert(bs =~= bs_pre + "<State>"@);
    let tail_post = tail.subrange(8, tail.len() as int);
    assert(tail =~= "</State>"@ + tail_post);
    assert("<State>Ready</State>"@ =~= "<State>"@ + ready + "</State>"@);
    assert(xml =~= (head + inc + bc + c + bi + i + bs_pre) + "<State>Ready</State>"@ + tail_post);
    lemma_occurs_between(head + inc + bc + c + bi + i + bs_pre, "<State>Ready</State>"@, tail_post);

    // The incarnation is 1.
    let head_pre = head.subrange(0, head.len() - 22);
    assert(head =~= head_pre + "<GoalStateIncarnation>"@);
    let bc_post = bc.subrange(23, bc.len() as int);
    assert(bc =~= "</GoalStateIncarnation>"@ + bc_post);
    assert("<GoalStateIncarnation>1</GoalStateIncarnation>"@ =~= "<GoalStateIncarnation>"@ + inc
        + "</GoalStateIncarnation>"@);
    assert(xml =~= head_pre + "<GoalStateIncarnation>1</GoalStateIncarnation>"@ + (bc_post + c + bi
        + i + bs + ready + tail));
    lemma_occurs_between(
        head_pre,
        "<GoalStateIncarnation>1</GoalStateIncarnation>"@,
        bc_post + c + bi + i + bs + ready + tail,
    );
}

} // verus!
