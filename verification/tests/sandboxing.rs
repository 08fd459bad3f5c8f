use tetanus::lifecycle::StepOutcome;
use tetanus::sandbox::SandboxOp;
use tetanus::sandbox::SandboxStep;
use tetanus::sandbox::create_cmd;
use tetanus::sandbox::enter_exit_cmd;
use tetanus::sandbox::rm_cmd;
use tetanus::sandbox::stop_cmd;

#[test]
fn command_lines_are_exact() {
    assert_eq!(stop_cmd("kali_x").args, vec!["stop", "--root", "kali_x"]);
    assert_eq!(rm_cmd("kali_x").args, vec!["rm", "--root", "kali_x"]);
    assert_eq!(
        enter_exit_cmd("kali_x").args,
        vec!["enter", "--root", "kali_x", "--", "exit"]
    );
    assert_eq!(
        create_cmd("kali-template", "/cur/files/webapp-acme", "/tools", "kali-template_webapp-acme").args,
        vec![
            "create",
            "--root",
            "--clone",
            "kali-template",
            "--init",
            "--volume",
            "/cur/files/webapp-acme:/pentest:rw",
            "--volume",
            "/tools:/tools:rw",
            "--name",
            "kali-template_webapp-acme"
        ]
    );
}

#[test]
fn provisioning_runs_the_full_sequence() {
    // the clone of "kali-template" is created under
    // the derived name with the two project volumes.
    let mut op = SandboxOp::new(
        "kali-template_webapp-acme",
        "kali-template",
        "/cur/files/webapp-acme",
        "/tools",
    );
    assert_eq!(op.next_cmd().unwrap().args[0], "stop");
    assert_eq!(op.next_cmd().unwrap().args[2], "kali-template_webapp-acme");
    // stopping ignores the exit status: the environment may not exist
    assert!(matches!(op.on_result(true, false, ""), StepOutcome::Continue));
    assert_eq!(op.next_cmd().unwrap().args[2], "kali-template");
    assert!(matches!(op.on_result(true, true, ""), StepOutcome::Continue));
    assert_eq!(op.next_cmd().unwrap().args[0], "rm");
    assert!(matches!(op.on_result(true, false, ""), StepOutcome::Continue));
    let create = op.next_cmd().unwrap();
    assert_eq!(create.args[0], "create");
    assert_eq!(create.args[3], "kali-template");
    assert_eq!(create.args[10], "kali-template_webapp-acme");
    assert!(matches!(op.on_result(true, true, ""), StepOutcome::Continue));
    assert_eq!(op.next_cmd().unwrap().args[0], "enter");
    match op.on_result(true, true, "") {
        StepOutcome::Finished(m) => assert_eq!(m, "Success!"),
        _ => panic!("expected completion"),
    }
    assert_eq!(op.step, SandboxStep::Done);
    assert!(op.next_cmd().is_none());
}

#[test]
fn create_is_judged_by_exit_status() {
    let mut op = SandboxOp::new("b", "t", "/f", "/t");
    op.on_result(true, true, "");
    op.on_result(true, true, "");
    op.on_result(true, true, "");
    assert_eq!(op.step, SandboxStep::Create);
    match op.on_result(true, false, "") {
        StepOutcome::Failed(m) => assert_eq!(m, "Error creating distrobox!"),
        _ => panic!("expected failure"),
    }
    assert!(op.next_cmd().is_none());
}

#[test]
fn launch_failure_is_always_fatal() {
    let mut op = SandboxOp::new("b", "t", "/f", "/t");
    match op.on_result(false, true, "distrobox: command not found") {
        StepOutcome::Failed(m) => {
            assert_eq!(m, "Error stopping project distrobox!\ndistrobox: command not found")
        },
        _ => panic!("expected failure"),
    }
    assert_eq!(op.step, SandboxStep::Failed);
}
