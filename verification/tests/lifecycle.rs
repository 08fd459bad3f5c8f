use tetanus::Project;
use tetanus::lifecycle::CreateOp;
use tetanus::lifecycle::FsAction;
use tetanus::lifecycle::NoteCategory;
use tetanus::lifecycle::PromoteOp;
use tetanus::lifecycle::RemoveOp;
use tetanus::lifecycle::StepOutcome;
use tetanus::lifecycle::boxname_of;
use tetanus::lifecycle::list_projects;
use tetanus::lifecycle::note_category;
use tetanus::lifecycle::note_template_dir;
use tetanus::lifecycle::promote_menu;
use tetanus::lifecycle::promote_report;
use tetanus::lifecycle::record_path;
use tetanus::lifecycle::select_project;
use tetanus::lifecycle::should_copy_note;
use tetanus::project::Stage;
use tetanus::session::DialogDriver;
use tetanus::session::DriverAction;
use tetanus::session::Handshake;
use tetanus::session::HandshakeAction;

fn upcoming(name: &str) -> Project {
    Project {
        name: name.to_string(),
        files: format!("/up/files/{}", name),
        notes: format!("/up/notes/{}", name),
        stage: Stage::Upcoming,
        boxname: String::new(),
        config: format!("/cfg/projects/{}.conf", name),
        active: false,
    }
}

#[test]
fn record_paths_collide_only_for_equal_names() {
    // a second create under the same name resolves to the same record
    // file, so exactly one record remains; distinct names never collide.
    assert_eq!(
        record_path("/cfg/config.conf", "dup"),
        record_path("/cfg/config.conf", "dup")
    );
    assert_ne!(
        record_path("/cfg/config.conf", "alpha"),
        record_path("/cfg/config.conf", "beta")
    );
    assert_eq!(record_path("/cfg/config.conf", "dup"), "/cfg/projects/dup.conf");
}

#[test]
fn create_interactively_named_webapp_project() {
    // create "webapp-acme" with no name token; the dialog supplies it.
    let mut op = CreateOp::new("/cfg/config.conf", "/up/files", "/up/notes", "");
    assert!(op.needs_name());

    // The session reaches Dialog, the operator answers the name prompt.
    let mut driver = DialogDriver::start();
    let mut hs = Handshake::new();
    assert_eq!(hs.on_message("ack"), HandshakeAction::ForwardAck);
    assert_eq!(driver.on_message("ack"), DriverAction::SendReady);
    hs.on_message("ready");
    assert!(hs.ready);
    assert_eq!(driver.on_message("PROMPT"), DriverAction::SolicitInput);
    let reply = driver.reply("webapp-acme".to_string());
    op.supply_name(&reply.content);
    assert!(!op.needs_name());

    match op.next_action() {
        Some(FsAction::CreateFile(p)) => assert_eq!(p, "/cfg/projects/webapp-acme.conf"),
        _ => panic!("expected the record file first"),
    }
    assert!(matches!(op.on_result(true, ""), StepOutcome::Continue));
    match op.next_action() {
        Some(FsAction::MakeDirAll(p)) => assert_eq!(p, "/up/files/webapp-acme"),
        _ => panic!("expected the files directory"),
    }
    assert!(matches!(op.on_result(true, ""), StepOutcome::Continue));
    match op.next_action() {
        Some(FsAction::MakeDirAll(p)) => assert_eq!(p, "/up/notes/webapp-acme"),
        _ => panic!("expected the notes directory"),
    }
    assert!(matches!(op.on_result(true, ""), StepOutcome::Continue));
    match op.next_action() {
        Some(FsAction::CopyNoteTemplates { from, to }) => {
            assert_eq!(from, "/cfg/note_templates/webapp");
            assert_eq!(to, "/up/notes/webapp-acme");
        },
        _ => panic!("expected the template copy"),
    }
    assert!(matches!(op.on_result(true, ""), StepOutcome::Continue));
    match op.next_action() {
        Some(FsAction::WriteRecord { path, content }) => {
            assert_eq!(path, "/cfg/projects/webapp-acme.conf");
            assert!(content.contains("stage|upcoming"));
            assert!(content.contains("name|webapp-acme"));
            assert!(content.contains("boxname|\n"));
        },
        _ => panic!("expected the record write"),
    }
    match op.on_result(true, "") {
        StepOutcome::Finished(m) => assert_eq!(m, "Success!"),
        _ => panic!("expected completion"),
    }
    assert!(op.next_action().is_none());
    let p = op.created_project();
    assert_eq!(p.stage, Stage::Upcoming);
    assert!(p.boxname.is_empty());
}

#[test]
fn create_aborts_on_first_failure() {
    let mut op = CreateOp::new("/cfg/config.conf", "/up/files", "/up/notes", "alpha");
    assert!(!op.needs_name());
    match op.on_result(false, "permission denied") {
        StepOutcome::Failed(m) => {
            assert_eq!(
                m,
                "error! unable to create the project record!\n/cfg/projects/alpha.conf\npermission denied"
            )
        },
        _ => panic!("expected failure"),
    }
    assert!(op.next_action().is_none());
}

#[test]
fn remove_failure_skips_remaining_steps() {
    // a failed files-delete reports it and never touches notes,
    // record or sandbox.
    let mut p = upcoming("gone");
    p.boxname = "kali_gone".to_string();
    let mut op = RemoveOp::new(&p);
    match op.next_action() {
        Some(FsAction::RemoveDirAll(path)) => assert_eq!(path, "/up/files/gone"),
        _ => panic!("expected the files delete first"),
    }
    match op.on_result(true, false, "no such directory") {
        StepOutcome::Failed(m) => {
            assert_eq!(m, "Error removing files directory!\n/up/files/gone\nno such directory")
        },
        _ => panic!("expected failure"),
    }
    assert!(op.next_action().is_none());
}

#[test]
fn remove_walks_all_four_steps() {
    let mut p = upcoming("done");
    p.boxname = "kali_done".to_string();
    let mut op = RemoveOp::new(&p);
    assert!(matches!(op.next_action(), Some(FsAction::RemoveDirAll(_))));
    assert!(matches!(op.on_result(true, true, ""), StepOutcome::Continue));
    assert!(matches!(op.next_action(), Some(FsAction::RemoveDirAll(_))));
    assert!(matches!(op.on_result(true, true, ""), StepOutcome::Continue));
    match op.next_action() {
        Some(FsAction::RemoveFile(path)) => assert_eq!(path, "/cfg/projects/done.conf"),
        _ => panic!("expected the record delete"),
    }
    assert!(matches!(op.on_result(true, true, ""), StepOutcome::Continue));
    match op.next_action() {
        Some(FsAction::SandboxRm(name)) => assert_eq!(name, "kali_done"),
        _ => panic!("expected the sandbox delete"),
    }
    // a non-zero exit from the tool does not fail the removal
    match op.on_result(true, false, "") {
        StepOutcome::Finished(m) => assert_eq!(m, "Success!"),
        _ => panic!("expected completion"),
    }
}

#[test]
fn promote_migrates_and_derives_boxname() {
    // promoting with template "kali-template" derives the sandbox
    // name and persists a current-stage record.
    let p = upcoming("webapp-acme");
    let mut op = PromoteOp::new(&p, "/cur/files", "/cur/notes", "kali-template");
    match op.next_action() {
        Some(FsAction::MakeDirAll(d)) => assert_eq!(d, "/cur/files/webapp-acme"),
        _ => panic!("expected the new files directory"),
    }
    assert!(matches!(op.on_result(true, ""), StepOutcome::Continue));
    match op.next_action() {
        Some(FsAction::MakeDirAll(d)) => assert_eq!(d, "/cur/notes/webapp-acme"),
        _ => panic!("expected the new notes directory"),
    }
    assert!(matches!(op.on_result(true, ""), StepOutcome::Continue));
    match op.next_action() {
        Some(FsAction::CopyTreeFiles { from, to }) => {
            assert_eq!(from, "/up/files/webapp-acme");
            assert_eq!(to, "/cur/files/webapp-acme");
        },
        _ => panic!("expected the files migration"),
    }
    assert!(matches!(op.on_result(true, ""), StepOutcome::Continue));
    assert!(matches!(op.next_action(), Some(FsAction::CopyTreeFiles { .. })));
    assert!(matches!(op.on_result(true, ""), StepOutcome::Continue));
    match op.next_action() {
        Some(FsAction::RemoveDirAll(d)) => assert_eq!(d, "/up/files/webapp-acme"),
        _ => panic!("expected the old files cleanup"),
    }
    // best-effort cleanup: a failure is a warning, not a transaction failure
    match op.on_result(false, "") {
        StepOutcome::Warn(m) => {
            assert_eq!(
                m,
                "Error removing upcoming files directory, manual clean up required!\n/up/files/webapp-acme"
            )
        },
        _ => panic!("expected a warning"),
    }
    assert!(matches!(op.next_action(), Some(FsAction::RemoveDirAll(_))));
    assert!(matches!(op.on_result(true, ""), StepOutcome::Continue));
    match op.next_action() {
        Some(FsAction::WriteRecord { path, content }) => {
            assert_eq!(path, "/cfg/projects/webapp-acme.conf");
            assert!(content.contains("stage|current"));
            assert!(content.contains("boxname|kali-template_webapp-acme"));
        },
        _ => panic!("expected the record write"),
    }
    match op.on_result(true, "") {
        StepOutcome::Finished(m) => assert_eq!(m, "Success!"),
        _ => panic!("expected completion"),
    }
    let promoted = op.promoted_project();
    assert_eq!(promoted.stage, Stage::Current);
    assert_eq!(promoted.boxname, "kali-template_webapp-acme");
    assert_eq!(promoted.files, "/cur/files/webapp-acme");
}

#[test]
fn promote_fails_when_directories_cannot_be_made() {
    let p = upcoming("x");
    let mut op = PromoteOp::new(&p, "/cur/files", "/cur/notes", "t");
    match op.on_result(false, "disk full") {
        StepOutcome::Failed(m) => {
            assert_eq!(m, "Error creating new files folder!\n/cur/files/x\ndisk full")
        },
        _ => panic!("expected failure"),
    }
    assert!(op.next_action().is_none());
}

#[test]
fn promote_reports_sandbox_failure_as_degraded() {
    let (msg, degraded) = promote_report(false, "Error creating distrobox!");
    assert!(degraded);
    assert!(msg.contains("The project was still promoted"));
    let (msg, degraded) = promote_report(true, "");
    assert!(!degraded);
    assert_eq!(msg, "Success!");
}

#[test]
fn boxname_derivation() {
    assert_eq!(boxname_of("kali-template", "webapp-acme"), "kali-template_webapp-acme");
}

#[test]
fn note_categories_match_first_keyword() {
    assert_eq!(note_category("external-bank"), Some(NoteCategory::External));
    assert_eq!(note_category("acme-webapp-q3"), Some(NoteCategory::Webapp));
    assert_eq!(note_category("external-webapp"), Some(NoteCategory::External));
    assert_eq!(note_category("plain"), None);
    assert_eq!(
        note_template_dir("/cfg/config.conf", "phishing-run"),
        Some("/cfg/note_templates/phishing".to_string())
    );
    assert_eq!(note_template_dir("/cfg/config.conf", "plain"), None);
    assert!(should_copy_note("recon.md"));
    assert!(!should_copy_note("notes.txt"));
}

#[test]
fn selection_rejects_bad_input() {
    let projects = vec![upcoming("a"), upcoming("b")];
    assert_eq!(select_project(&projects, "1"), Ok(1));
    assert_eq!(
        select_project(&projects, "2"),
        Err("error invalid project selection!".to_string())
    );
    assert_eq!(
        select_project(&projects, "first"),
        Err("error invalid project selection!".to_string())
    );
}

#[test]
fn listing_renders_the_project_table() {
    let mut p = upcoming("alpha");
    p.boxname = "bx".to_string();
    let out = list_projects(&vec![p]);
    assert_eq!(
        out,
        "| name |  stage | boxname|\n|------|--------|--------|\n| alpha|upcoming|   bx   |\n|------|--------|--------|\n"
    );
}

#[test]
fn menu_renders_numbered_rows() {
    let out = promote_menu(&vec![upcoming("alpha")]);
    assert_eq!(
        out,
        "|id| name | status |\n|--|------|--------|\n| 0| alpha|upcoming|\n|--|------|--------|\n"
    );
}

#[test]
fn create_without_category_copies_no_templates() {
    // no keyword matches "acme", so the create transaction goes from the
    // notes directory straight to persisting the record: no template
    // copy is ever issued.
    let mut op = CreateOp::new("/cfg/config.conf", "/up/files", "/up/notes", "acme");
    assert!(matches!(op.next_action(), Some(FsAction::CreateFile(_))));
    assert!(matches!(op.on_result(true, ""), StepOutcome::Continue));
    assert!(matches!(op.next_action(), Some(FsAction::MakeDirAll(_))));
    assert!(matches!(op.on_result(true, ""), StepOutcome::Continue));
    assert!(matches!(op.next_action(), Some(FsAction::MakeDirAll(_))));
    assert!(matches!(op.on_result(true, ""), StepOutcome::Continue));
    match op.next_action() {
        Some(FsAction::WriteRecord { path, content }) => {
            assert_eq!(path, "/cfg/projects/acme.conf");
            assert!(content.contains("stage|upcoming"));
        },
        _ => panic!("expected the record write, with no template copy"),
    }
    match op.on_result(true, "") {
        StepOutcome::Finished(m) => assert_eq!(m, "Success!"),
        _ => panic!("expected completion"),
    }
}
