use guarded_process::command::{container_build, CommandDescription, Environment};

#[test]
fn container_build_lists_the_arguments_in_order() {
    let cmd = container_build("docker", "/home/dev/flipper", "develop");
    assert_eq!(cmd.program, "docker");
    assert_eq!(
        cmd.args,
        vec![
            "run",
            "--entrypoint",
            "package-contract",
            "-v",
            "/home/dev/flipper:/build",
            "--rm",
            "ink-verifier:develop",
        ]
    );
    assert_eq!(cmd.environment, Environment::Inherited);
}

#[test]
fn container_build_takes_engine_and_tag_as_given() {
    let cmd = container_build("podman", "", "v1.2.3");
    assert_eq!(cmd.program, "podman");
    assert_eq!(cmd.args.len(), 7);
    assert_eq!(cmd.args[4], ":/build");
    assert_eq!(cmd.args[6], "ink-verifier:v1.2.3");
}

#[test]
fn container_build_keeps_unusual_text() {
    let cmd = container_build("/opt/bin/engine", "/tmp/my dir/ünï", "");
    assert_eq!(cmd.program, "/opt/bin/engine");
    assert_eq!(cmd.args[4], "/tmp/my dir/ünï:/build");
    assert_eq!(cmd.args[6], "ink-verifier:");
}

#[test]
fn descriptions_compare_by_value() {
    let first = container_build("docker", "/src", "develop");
    let second = CommandDescription {
        program: String::from("docker"),
        args: first.args.clone(),
        environment: Environment::Inherited,
    };
    assert_eq!(first, second);
    let explicit = CommandDescription {
        environment: Environment::Exactly(vec![(String::from("PATH"), String::from("/bin"))]),
        ..second.clone()
    };
    assert_ne!(first, explicit);
}
