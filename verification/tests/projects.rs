use tetanus::Project;
use tetanus::project::Stage;
use tetanus::project::activate_project;
use tetanus::project::parse_record;

fn project(name: &str, stage: Stage, active: bool) -> Project {
    Project {
        name: name.to_string(),
        files: format!("/files/{}", name),
        notes: format!("/notes/{}", name),
        stage,
        boxname: String::new(),
        config: format!("/cfg/projects/{}.conf", name),
        active,
    }
}

#[test]
fn record_text_lists_every_field() {
    let p = project("webapp-acme", Stage::Upcoming, false);
    let text = p.record_text();
    assert_eq!(
        text,
        "name|webapp-acme\nfiles|/files/webapp-acme\nnotes|/notes/webapp-acme\nboxname|\nconfig|/cfg/projects/webapp-acme.conf\nstage|upcoming"
    );
}

#[test]
fn record_round_trip() {
    let p = project("alpha", Stage::Current, false);
    let (q, warnings) = parse_record(&p.record_text());
    assert!(warnings.is_empty());
    assert_eq!(q.name, p.name);
    assert_eq!(q.files, p.files);
    assert_eq!(q.notes, p.notes);
    assert_eq!(q.stage, p.stage);
    assert_eq!(q.boxname, p.boxname);
    assert_eq!(q.config, p.config);
    assert!(!q.active);
}

#[test]
fn parse_accepts_any_line_order() {
    let (p, warnings) = parse_record("stage|current\nname|beta\nfiles|/f\nnotes|/n\nboxname|kali_beta");
    assert!(warnings.is_empty());
    assert_eq!(p.name, "beta");
    assert_eq!(p.stage, Stage::Current);
    assert_eq!(p.boxname, "kali_beta");
}

#[test]
fn parse_warns_on_unknown_keys_without_aborting() {
    let (p, warnings) = parse_record("name|gamma\ncolour|green\nstage|upcoming");
    assert_eq!(warnings.len(), 1);
    assert_eq!(p.name, "gamma");
    assert_eq!(p.stage, Stage::Upcoming);
}

#[test]
fn parse_treats_unknown_stage_as_upcoming() {
    let (p, _) = parse_record("name|d\nstage|someday");
    assert_eq!(p.stage, Stage::Upcoming);
}

#[test]
fn activate_is_exclusive() {
    // activating beta after alpha was active leaves exactly beta active.
    let projects = vec![
        project("alpha", Stage::Current, true),
        project("beta", Stage::Upcoming, false),
        project("gamma", Stage::Upcoming, false),
    ];
    let (updated, found) = activate_project(&projects, "beta");
    assert!(found);
    let actives: Vec<bool> = updated.iter().map(|p| p.active).collect();
    assert_eq!(actives, vec![false, true, false]);
    assert_eq!(updated.iter().filter(|p| p.active).count(), 1);
}

#[test]
fn activate_unknown_name_clears_all() {
    let projects = vec![project("alpha", Stage::Current, true)];
    let (updated, found) = activate_project(&projects, "nosuch");
    assert!(!found);
    assert!(updated.iter().all(|p| !p.active));
}

#[test]
fn parse_takes_the_last_duplicate_key() {
    let (p, warnings) = parse_record("name|one
name|two
stage|upcoming");
    assert!(warnings.is_empty());
    assert_eq!(p.name, "two");
}
