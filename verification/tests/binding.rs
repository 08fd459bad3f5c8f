use tetanus::Project;
use tetanus::binder::BindOutcome;
use tetanus::binder::ToolArgument;
use tetanus::binder::bind_command;
use tetanus::binder::build_args;
use tetanus::binder::parse_command_line;
use tetanus::project::Stage;
use tetanus::registry::Operation;
use tetanus::registry::build_tools;

fn project(name: &str, active: bool) -> Project {
    Project {
        name: name.to_string(),
        files: format!("/up/files/{}", name),
        notes: format!("/up/notes/{}", name),
        stage: Stage::Upcoming,
        boxname: String::new(),
        config: format!("/cfg/projects/{}.conf", name),
        active,
    }
}

fn settings() -> Vec<(String, String)> {
    vec![
        ("templatebox".to_string(), "kali-template".to_string()),
        ("current_files".to_string(), "/cur/files".to_string()),
        ("current_notes".to_string(), "/cur/notes".to_string()),
        ("upcoming_files".to_string(), "/up/files".to_string()),
        ("upcoming_notes".to_string(), "/up/notes".to_string()),
        ("tools".to_string(), "/tools".to_string()),
        ("distrobox".to_string(), "yes".to_string()),
        ("terminal".to_string(), "konsole -e".to_string()),
    ]
}

fn context() -> Vec<ToolArgument> {
    let projects = vec![project("alpha", true), project("beta", false)];
    build_args(&projects, &"/cfg/config.conf".to_string(), &settings())
}

#[test]
fn catalog_holds_three_commands() {
    let cmds = build_tools();
    assert_eq!(cmds.len(), 3);
    assert_eq!(cmds[0].name, "list_projects");
    assert_eq!(cmds[0].op, Operation::List);
    assert_eq!(cmds[0].req_args, vec!["projects".to_string()]);
    assert!(!cmds[0].optionally_interactive);
    assert_eq!(cmds[1].name, "new_project");
    assert_eq!(cmds[1].op, Operation::Create);
    assert_eq!(
        cmds[1].req_args,
        vec![
            "config".to_string(),
            "upcoming_files".to_string(),
            "upcoming_notes".to_string(),
            "templatebox".to_string()
        ]
    );
    assert!(cmds[1].optionally_interactive);
    assert_eq!(cmds[2].name, "promote_project");
    assert_eq!(cmds[2].op, Operation::Promote);
    assert_eq!(cmds[2].optional_args, vec!["name".to_string(), "home".to_string()]);
}

#[test]
fn context_resolves_known_names() {
    let args = context();
    let names: Vec<&str> = args.iter().map(|a| a.name.as_str()).collect();
    assert_eq!(
        names,
        vec![
            "active",
            "projects",
            "config",
            "templatebox",
            "current_files",
            "current_notes",
            "upcoming_files",
            "upcoming_notes",
            "tools",
            "distrobox"
        ]
    );
    assert_eq!(args[0].project.as_ref().unwrap().name, "alpha");
    assert_eq!(args[1].projects.as_ref().unwrap().len(), 2);
    assert_eq!(args[2].path.as_deref(), Some("/cfg/config.conf"));
    assert_eq!(args[3].string.as_deref(), Some("kali-template"));
    assert_eq!(args[9].boolean, Some(true));
}

#[test]
fn binding_with_exact_arguments_succeeds() {
    // the success half: every required context name resolves and no
    // user parameters are declared, so zero tokens bind completely.
    let cmds = build_tools();
    let ctx = context();
    for cmd in &cmds {
        let r = bind_command(cmd, &ctx, &Vec::new());
        assert!(r.missing.is_empty());
        match r.outcome {
            BindOutcome::Bound(b) => {
                assert_eq!(b.args.len(), cmd.req_args.len());
            },
            BindOutcome::Arity { .. } => panic!("binding must succeed for {}", cmd.name),
        }
    }
}

#[test]
fn binding_with_one_fewer_fails_with_arity() {
    // the failure half: take one required context entry away and the
    // bound count falls short by one.
    let cmds = build_tools();
    let ctx: Vec<ToolArgument> =
        context().into_iter().filter(|a| a.name != "templatebox").collect();
    let cmd = &cmds[1];
    let r = bind_command(cmd, &ctx, &Vec::new());
    assert_eq!(r.missing, vec!["templatebox".to_string()]);
    match r.outcome {
        BindOutcome::Bound(_) => panic!("binding must fail"),
        BindOutcome::Arity { required, required_context, required_user, given } => {
            assert_eq!(
                required,
                vec![
                    "config".to_string(),
                    "upcoming_files".to_string(),
                    "upcoming_notes".to_string(),
                    "templatebox".to_string()
                ]
            );
            assert_eq!(required_context, 4);
            assert_eq!(required_user, 0);
            assert_eq!(given, 3);
        },
    }
}

#[test]
fn named_tokens_bind_by_name() {
    let cmds = build_tools();
    let ctx = context();
    let cmd = &cmds[1];
    let r = bind_command(cmd, &ctx, &vec!["name=webapp-acme".to_string()]);
    match r.outcome {
        BindOutcome::Bound(b) => {
            assert_eq!(b.args.len(), 5);
            let last = &b.args[4];
            assert_eq!(last.name, "name");
            assert_eq!(last.string.as_deref(), Some("webapp-acme"));
            assert!(last.user_supplied);
            // all optional parameters supplied: no interactive fallback
            assert!(!b.interactive);
        },
        BindOutcome::Arity { .. } => panic!("binding must succeed"),
    }
}

#[test]
fn optionally_interactive_falls_back_to_dialog() {
    let cmds = build_tools();
    let ctx = context();
    let r = bind_command(&cmds[1], &ctx, &Vec::new());
    match r.outcome {
        BindOutcome::Bound(b) => assert!(b.interactive),
        BindOutcome::Arity { .. } => panic!("binding must succeed"),
    }
}

#[test]
fn command_line_parsing() {
    let (name, args) = parse_command_line("new_project name=webapp-acme extra");
    assert_eq!(name, "new_project");
    assert_eq!(args, vec!["name=webapp-acme".to_string(), "extra".to_string()]);
    let (name, args) = parse_command_line("list_projects");
    assert_eq!(name, "list_projects");
    assert!(args.is_empty());
}
