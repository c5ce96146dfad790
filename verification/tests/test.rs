use azure_linux_boot_agent::osutil;

#[test]
fn test_get_username_from_keypath() {
    let keypath = "/home/cole/.ssh/authorized_keys";
    let username = osutil::get_username_from_keypath(&keypath).unwrap();
    assert_eq!(&username, "cole");

    let keypath = "/home/cole123/.ssh/authorized_keys";
    let username = osutil::get_username_from_keypath(&keypath).unwrap();
    assert_eq!(&username, "cole123");
}

#[test]
fn username_needs_the_expected_shape() {
    assert_eq!(osutil::try_get_username_from_keypath("/home/cole/.ssh/authorized_keys"), Some("cole".to_string()));
    assert_eq!(osutil::try_get_username_from_keypath("/home/1cole/.ssh/authorized_keys"), None);
    assert_eq!(osutil::try_get_username_from_keypath("/root/.ssh/authorized_keys"), None);
    assert_eq!(osutil::try_get_username_from_keypath("/home/cole/.ssh/authorized_keys2"), None);
    assert_eq!(osutil::try_get_username_from_keypath("/home/co-le/.ssh/authorized_keys"), None);
    assert_eq!(osutil::try_get_username_from_keypath(""), None);
}

#[test]
fn username_pattern_dot_matches_any_character() {
    assert_eq!(osutil::try_get_username_from_keypath("/home/ann/Xssh/authorized_keys"), Some("ann".to_string()));
}

fn view(cmd: &osutil::CommandSpec) -> (String, Vec<String>) {
    (cmd.program.clone(), cmd.args.clone())
}

fn strings(v: &[&str]) -> Vec<String> {
    v.iter().map(|s| s.to_string()).collect()
}

#[test]
fn wheel_user_commands() {
    let cmds = osutil::create_wheel_user("cole");
    assert_eq!(cmds.len(), 2);
    assert_eq!(view(&cmds[0]), ("useradd".to_string(), strings(&["-m", "cole"])));
    assert_eq!(view(&cmds[1]), ("gpasswd".to_string(), strings(&["--add", "cole", "wheel"])));
}

#[test]
fn homedir_permission_commands() {
    let cmds = osutil::fixup_user_homedir_permissions("cole");
    assert_eq!(cmds.len(), 3);
    assert_eq!(view(&cmds[0]), ("chown".to_string(), strings(&["-R", "cole", "/home/cole"])));
    assert_eq!(view(&cmds[1]), ("chmod".to_string(), strings(&["0700", "/home/cole/.ssh"])));
    assert_eq!(
        view(&cmds[2]),
        ("chmod".to_string(), strings(&["0644", "/home/cole/.ssh/authorized_keys"]))
    );
}

#[test]
fn ovf_env_extraction_command() {
    let cmd = osutil::read_ovf_env();
    assert_eq!(view(&cmd), ("7z".to_string(), strings(&["x", "/dev/sr0", "ovf-env.xml"])));
}

#[test]
fn user_setup_plan_for_a_key() {
    let key = azure_linux_boot_agent::metadata::PublicKey {
        key_data: "ssh-ed25519 AAAA cole@host".to_string(),
        path: "/home/cole/.ssh/authorized_keys".to_string(),
    };
    let plan = osutil::create_users_with_keys(&key).unwrap();
    assert_eq!(plan.username, "cole");
    assert_eq!(plan.key_path, "/home/cole/.ssh/authorized_keys");
    assert_eq!(plan.key_data, "ssh-ed25519 AAAA cole@host");
    assert_eq!(plan.create_user.len(), 2);
    assert_eq!(view(&plan.create_user[0]), ("useradd".to_string(), strings(&["-m", "cole"])));
    assert_eq!(plan.fix_permissions.len(), 3);
    assert_eq!(view(&plan.fix_permissions[0]), ("chown".to_string(), strings(&["-R", "cole", "/home/cole"])));
}

#[test]
fn user_setup_plan_refuses_a_foreign_path() {
    let key = azure_linux_boot_agent::metadata::PublicKey {
        key_data: "ssh-rsa AAAA".to_string(),
        path: "/etc/ssh/authorized_keys".to_string(),
    };
    assert!(osutil::create_users_with_keys(&key).is_none());
}

fn cmd(program: &str, args: &[&str]) -> osutil::CommandSpec {
    osutil::CommandSpec { program: program.to_string(), args: strings(args) }
}

#[test]
fn command_sequence_runs_in_order_until_done() {
    let mut seq = osutil::CommandSequence::new(vec![cmd("a", &["1"]), cmd("b", &[])]);
    match seq.step(osutil::CommandOutcome::Begin) {
        osutil::CommandStep::Run(c) => assert_eq!(view(&c), ("a".to_string(), strings(&["1"]))),
        _ => panic!("expected the first command"),
    }
    assert!(!seq.accepts(&osutil::CommandOutcome::Begin));
    match seq.step(osutil::CommandOutcome::Exited(true)) {
        osutil::CommandStep::Run(c) => assert_eq!(c.program, "b"),
        _ => panic!("expected the second command"),
    }
    assert!(matches!(seq.step(osutil::CommandOutcome::Exited(true)), osutil::CommandStep::Done));
    assert!(!seq.accepts(&osutil::CommandOutcome::Exited(true)));
}

#[test]
fn command_sequence_stops_on_failure() {
    let mut seq = osutil::CommandSequence::new(vec![cmd("a", &[]), cmd("b", &[])]);
    seq.step(osutil::CommandOutcome::Begin);
    assert!(matches!(seq.step(osutil::CommandOutcome::Exited(false)), osutil::CommandStep::ExitProcess));

    let mut seq = osutil::CommandSequence::new(vec![cmd("a", &[])]);
    seq.step(osutil::CommandOutcome::Begin);
    let err = std::io::Error::new(std::io::ErrorKind::NotFound, "missing");
    match seq.step(osutil::CommandOutcome::NotStarted(err)) {
        osutil::CommandStep::Fail(e) => assert_eq!(e.kind(), std::io::ErrorKind::NotFound),
        _ => panic!("expected the start error"),
    }
}

#[test]
fn empty_command_sequence_is_done_at_once() {
    let mut seq = osutil::CommandSequence::new(vec![]);
    assert!(matches!(seq.step(osutil::CommandOutcome::Begin), osutil::CommandStep::Done));
}

#[test]
fn command_duplicate_keeps_fields() {
    let c = cmd("chmod", &["0700", "/home/a/.ssh"]);
    assert_eq!(view(&c.duplicate()), view(&c));
}
