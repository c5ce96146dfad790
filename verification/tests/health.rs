use azure_linux_boot_agent::health::mk_health_report;

#[test]
fn health_report_text() {
    let xml = mk_health_report(
        "6f2b8f64-f35c-4f84-a1b0-7e71ff8e454e",
        "aa166a1dc9fb47d8befbb43b6849ce61.lars-test-1",
    )
    .expect("fail");
    let expected = "<?xml version=\"1.0\" encoding=\"utf-8\"?>
<Health xmlns:xsi=\"http://www.w3.org/2001/XMLSchema-instance\" xmlns:xsd=\"http://www.w3.org/2001/XMLSchema\">
  <GoalStateIncarnation>1</GoalStateIncarnation>
  <Container>
    <ContainerId>6f2b8f64-f35c-4f84-a1b0-7e71ff8e454e</ContainerId>
    <RoleInstanceList>
      <Role>
        <InstanceId>aa166a1dc9fb47d8befbb43b6849ce61.lars-test-1</InstanceId>
        <Health>
          <State>Ready</State>
        </Health>
      </Role>
    </RoleInstanceList>
  </Container>
</Health>
";
    assert_eq!(xml, expected);
}

#[test]
fn health_report_with_empty_ids() {
    let xml = mk_health_report("", "").unwrap();
    assert!(xml.contains("<ContainerId></ContainerId>"));
    assert!(xml.contains("<InstanceId></InstanceId>"));
    assert!(xml.contains("<State>Ready</State>"));
}
