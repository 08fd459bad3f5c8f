//! The domain entity: one engagement, its stage, its directories and its
//! sandbox name, together with the pipe-delimited persisted record it is
//! saved as and loaded from.

use vstd::prelude::*;
use vstd::string::StrSliceExecFns;
use vstd::string::StringExecFns;

use crate::strkit::split_at_sep;
use crate::strkit::split_str;
use crate::strkit::str_eq;

verus! {

/// A project moves from `Upcoming` to `Current` when it is promoted.
#[derive(Clone, Copy, PartialEq, Eq, Structural, Debug)]
pub enum Stage {
    Upcoming,
    Current,
}

/// One unit of work. Paths are held as plain strings; the filesystem that
/// interprets them lives outside the library.
#[derive(Clone, Debug)]
pub struct Project {
    /// Unique, non-empty identifier.
    pub name: String,
    /// Directory of the project's files.
    pub files: String,
    /// Directory of the project's notes.
    pub notes: String,
    /// Lifecycle stage.
    pub stage: Stage,
    /// Sandbox environment name; empty until the project is promoted.
    pub boxname: String,
    /// Path of the persisted record.
    pub config: String,
    /// At most one project is active at a time.
    pub active: bool,
}

/// The mathematical image of a project.
#[verifier::ext_equal]
pub struct ProjectV {
    pub name: Seq<char>,
    pub files: Seq<char>,
    pub notes: Seq<char>,
    pub stage: Stage,
    pub boxname: Seq<char>,
    pub config: Seq<char>,
    pub active: bool,
}

impl View for Project {
    type V = ProjectV;

    open spec fn view(&self) -> ProjectV {
        ProjectV {
            name: self.name@,
            files: self.files@,
            notes: self.notes@,
            stage: self.stage,
            boxname: self.boxname@,
            config: self.config@,
            active: self.active,
        }
    }
}

/// A field that survives the record format: free of the two separators.
pub open spec fn field_ok(s: Seq<char>) -> bool {
    !s.contains('|') && !s.contains('\n')
}

/// A well-formed project: a non-empty name and fields the record format
/// can carry.
pub open spec fn project_wf(p: ProjectV) -> bool {
    &&& p.name.len() > 0
    &&& field_ok(p.name)
    &&& field_ok(p.files)
    &&& field_ok(p.notes)
    &&& field_ok(p.boxname)
    &&& field_ok(p.config)
}

/// No two projects in a set share a name.
pub open spec fn names_unique(ps: Seq<ProjectV>) -> bool {
    forall|i: int, j: int|
        0 <= i < ps.len() && 0 <= j < ps.len() && i != j ==> (#[trigger] ps[i].name)
            != (#[trigger] ps[j].name)
}

/// The views of a vector of projects.
pub open spec fn project_views(v: Seq<Project>) -> Seq<ProjectV> {
    v.map_values(|p: Project| p@)
}

impl Default for Project {
    /// An empty upcoming project.
    fn default() -> (p: Project)
        ensures
            p@.name.len() == 0,
            p@.files.len() == 0,
            p@.notes.len() == 0,
            p@.stage == Stage::Upcoming,
            p@.boxname.len() == 0,
            p@.config.len() == 0,
            p@.active == false,
    {
        Project {
            name: String::new(),
            files: String::new(),
            notes: String::new(),
            stage: Stage::Upcoming,
            boxname: String::new(),
            config: String::new(),
            active: false,
        }
    }
}

/// The record text of a stage.
pub open spec fn stage_text(st: Stage) -> Seq<char> {
    if st == Stage::Current {
        "current"@
    } else {
        "upcoming"@
    }
}

/// The full persisted record of a project: `key|value` lines, stage last.
/// The active flag is process state and is not persisted.
pub open spec fn record_text_spec(p: ProjectV) -> Seq<char> {
    "name|"@ + p.name + "\nfiles|"@ + p.files + "\nnotes|"@ + p.notes + "\nboxname|"@ + p.boxname
        + "\nconfig|"@ + p.config + "\nstage|"@ + stage_text(p.stage)
}

impl Project {
    /// Renders the record this project is persisted as.
    pub fn record_text(&self) -> (r: String)
        ensures
            r@ == record_text_spec(self@),
    {
        let mut s = String::from_str("name|");
        s.append(self.name.as_str());
        s.append("\nfiles|");
        s.append(self.files.as_str());
        s.append("\nnotes|");
        s.append(self.notes.as_str());
        s.append("\nboxname|");
        s.append(self.boxname.as_str());
        s.append("\nconfig|");
        s.append(self.config.as_str());
        s.append("\nstage|");
        match self.stage {
            Stage::Current => s.append("current"),
            Stage::Upcoming => s.append("upcoming"),
        }
        proof {
            assert(s@ =~= record_text_spec(self@));
        }
        s
    }
}

/// The project a freshly started parse describes: all fields empty, stage
/// upcoming, inactive.
pub open spec fn empty_project() -> ProjectV {
    ProjectV {
        name: Seq::<char>::empty(),
        files: Seq::<char>::empty(),
        notes: Seq::<char>::empty(),
        stage: Stage::Upcoming,
        boxname: Seq::<char>::empty(),
        config: Seq::<char>::empty(),
        active: false,
    }
}

/// Whether one record line is recognized: a `key|value` shape with one of
/// the six known keys.
pub open spec fn line_known(line: Seq<char>) -> bool {
    let parts = split_at_sep(line, '|');
    parts.len() >= 2 && (parts[0] == "name"@ || parts[0] == "stage"@ || parts[0] == "files"@
        || parts[0] == "notes"@ || parts[0] == "boxname"@ || parts[0] == "config"@)
}

/// Folds one record line into the project read so far. Unknown lines
/// change nothing (they are warned about, not fatal).
pub open spec fn parse_line(p: ProjectV, line: Seq<char>) -> ProjectV {
    let parts = split_at_sep(line, '|');
    if parts.len() < 2 {
        p
    } else if parts[0] == "name"@ {
        ProjectV { name: parts[1], ..p }
    } else if parts[0] == "stage"@ {
        ProjectV {
            stage: if parts[1] == "current"@ {
                Stage::Current
            } else {
                Stage::Upcoming
            },
            ..p
        }
    } else if parts[0] == "files"@ {
        ProjectV { files: parts[1], ..p }
    } else if parts[0] == "notes"@ {
        ProjectV { notes: parts[1], ..p }
    } else if parts[0] == "boxname"@ {
        ProjectV { boxname: parts[1], ..p }
    } else if parts[0] == "config"@ {
        ProjectV { config: parts[1], ..p }
    } else {
        p
    }
}

/// The project described by the first `n` lines.
pub open spec fn parse_upto(lines: Seq<Seq<char>>, n: int) -> ProjectV
    decreases n,
{
    if n <= 0 {
        empty_project()
    } else {
        parse_line(parse_upto(lines, n - 1), lines[n - 1])
    }
}

/// How many of the first `n` lines are unrecognized.
pub open spec fn warn_upto(lines: Seq<Seq<char>>, n: int) -> nat
    decreases n,
{
    if n <= 0 {
        0
    } else {
        warn_upto(lines, n - 1) + (if line_known(lines[n - 1]) {
            0nat
        } else {
            1nat
        })
    }
}

/// The project a record text describes.
pub open spec fn parse_record_spec(content: Seq<char>) -> ProjectV {
    parse_upto(split_at_sep(content, '\n'), split_at_sep(content, '\n').len() as int)
}

/// How many lines of a record text are unrecognized.
pub open spec fn parse_record_warns(content: Seq<char>) -> nat {
    warn_upto(split_at_sep(content, '\n'), split_at_sep(content, '\n').len() as int)
}

/// Reads a persisted record. Order of lines is not significant; unknown or
/// malformed lines are reported as warnings and do not abort the load.
pub fn parse_record(content: &str) -> (r: (Project, Vec<String>))
    ensures
        r.0@ == parse_record_spec(content@),
        r.1@.len() == parse_record_warns(content@),
{
    let lines = split_str(content, '\n');
    let ghost linevs = split_at_sep(content@, '\n');
    let mut p = Project::default();
    let mut warnings: Vec<String> = Vec::new();
    proof {
        assert(p@ =~~= empty_project());
    }
    let mut i: usize = 0;
    while i < lines.len()
        invariant
            lines@.len() == linevs.len(),
            forall|k: int| 0 <= k < linevs.len() ==> #[trigger] lines@[k]@ == linevs[k],
            i <= linevs.len(),
            p@ == parse_upto(linevs, i as int),
            warnings@.len() == warn_upto(linevs, i as int),
        decreases linevs.len() - i,
    {
        let parts = split_str(lines[i].as_str(), '|');
        let ghost partvs = split_at_sep(linevs[i as int], '|');
        let mut known = true;
        if parts.len() >= 2 {
            if str_eq(parts[0].as_str(), "name") {
                p.name = parts[1].clone();
            } else if str_eq(parts[0].as_str(), "stage") {
                if str_eq(parts[1].as_str(), "current") {
                    p.stage = Stage::Current;
                } else {
                    p.stage = Stage::Upcoming;
                }
            } else if str_eq(parts[0].as_str(), "files") {
                p.files = parts[1].clone();
            } else if str_eq(parts[0].as_str(), "notes") {
                p.notes = parts[1].clone();
            } else if str_eq(parts[0].as_str(), "boxname") {
                p.boxname = parts[1].clone();
            } else if str_eq(parts[0].as_str(), "config") {
                p.config = parts[1].clone();
            } else {
                known = false;
            }
        } else {
            known = false;
        }
        if !known {
            warnings.push(String::from_str("unknown setting discovered in project record!"));
        }
        proof {
            assert(p@ =~~= parse_upto(linevs, i + 1));
            assert(known == line_known(linevs[i as int]));
        }
        i += 1;
    }
    (p, warnings)
}

/// No character of `k + [mid] + v` is `c` when neither side holds `c` and
/// the separator in the middle is not `c` either.
proof fn lemma_concat3_free(k: Seq<char>, mid: char, v: Seq<char>, c: char)
    requires
        !k.contains(c),
        !v.contains(c),
        mid != c,
    ensures
        forall|i: int| 0 <= i < (k + seq![mid] + v).len() ==> (k + seq![mid] + v)[i] != c,
{
    let s = k + seq![mid] + v;
    assert forall|i: int| 0 <= i < s.len() implies s[i] != c by {
        if i < k.len() {
            assert(s[i] == k[i]);
            if s[i] == c {
                assert(k.contains(c));
            }
        } else if i == k.len() {
            assert(s[i] == mid);
        } else {
            assert(s[i] == v[i - k.len() - 1]);
            if s[i] == c {
                assert(v.contains(c));
            }
        }
    }
}

/// A `key|value` line splits at the pipe into exactly key and value.
proof fn lemma_label_line(k: Seq<char>, v: Seq<char>)
    requires
        !k.contains('|'),
        !v.contains('|'),
    ensures
        split_at_sep(k + seq!['|'] + v, '|') == seq![k, v],
{
    crate::strkit::lemma_split_no_sep(k, '|');
    crate::strkit::lemma_split_no_sep(v, '|');
    crate::strkit::lemma_split_append(k, v, '|');
    assert(split_at_sep(k + seq!['|'] + v, '|') =~~= seq![k, v]);
}

/// Saving a project and loading the record back recovers every persisted
/// field exactly, with no warnings; only the unpersisted active flag
/// resets. This is the agreement between `record_text` and `parse_record`.
#[verifier::rlimit(60)]
pub proof fn lemma_record_roundtrip(p: ProjectV)
    requires
        field_ok(p.name),
        field_ok(p.files),
        field_ok(p.notes),
        field_ok(p.boxname),
        field_ok(p.config),
    ensures
        parse_record_spec(record_text_spec(p)) == (ProjectV { active: false, ..p }),
        parse_record_warns(record_text_spec(p)) == 0,
{
    reveal_strlit("name|");
    reveal_strlit("\nfiles|");
    reveal_strlit("\nnotes|");
    reveal_strlit("\nboxname|");
    reveal_strlit("\nconfig|");
    reveal_strlit("\nstage|");
    reveal_strlit("name");
    reveal_strlit("files");
    reveal_strlit("notes");
    reveal_strlit("boxname");
    reveal_strlit("config");
    reveal_strlit("stage");
    reveal_strlit("current");
    reveal_strlit("upcoming");
    let st = stage_text(p.stage);
    assert(!st.contains('|') && !st.contains('\n')) by {
        if p.stage == Stage::Current {
            assert(!"current"@.contains('|'));
            assert(!"current"@.contains('\n'));
        } else {
            assert(!"upcoming"@.contains('|'));
            assert(!"upcoming"@.contains('\n'));
        }
    }
    let l1 = "name"@ + seq!['|'] + p.name;
    let l2 = "files"@ + seq!['|'] + p.files;
    let l3 = "notes"@ + seq!['|'] + p.notes;
    let l4 = "boxname"@ + seq!['|'] + p.boxname;
    let l5 = "config"@ + seq!['|'] + p.config;
    let l6 = "stage"@ + seq!['|'] + st;
    let content = record_text_spec(p);
    let r5 = l5 + seq!['\n'] + l6;
    let r4 = l4 + seq!['\n'] + r5;
    let r3 = l3 + seq!['\n'] + r4;
    let r2 = l2 + seq!['\n'] + r3;
    assert(content =~= l1 + seq!['\n'] + r2);
    lemma_concat3_free("name"@, '|', p.name, '\n');
    lemma_concat3_free("files"@, '|', p.files, '\n');
    lemma_concat3_free("notes"@, '|', p.notes, '\n');
    lemma_concat3_free("boxname"@, '|', p.boxname, '\n');
    lemma_concat3_free("config"@, '|', p.config, '\n');
    lemma_concat3_free("stage"@, '|', st, '\n');
    crate::strkit::lemma_split_no_sep(l1, '\n');
    crate::strkit::lemma_split_no_sep(l2, '\n');
    crate::strkit::lemma_split_no_sep(l3, '\n');
    crate::strkit::lemma_split_no_sep(l4, '\n');
    crate::strkit::lemma_split_no_sep(l5, '\n');
    crate::strkit::lemma_split_no_sep(l6, '\n');
    crate::strkit::lemma_split_append(l5, l6, '\n');
    crate::strkit::lemma_split_append(l4, r5, '\n');
    crate::strkit::lemma_split_append(l3, r4, '\n');
    crate::strkit::lemma_split_append(l2, r3, '\n');
    crate::strkit::lemma_split_append(l1, r2, '\n');
    let lines = split_at_sep(content, '\n');
    assert(lines =~~= seq![l1, l2, l3, l4, l5, l6]);
    lemma_label_line("name"@, p.name);
    lemma_label_line("files"@, p.files);
    lemma_label_line("notes"@, p.notes);
    lemma_label_line("boxname"@, p.boxname);
    lemma_label_line("config"@, p.config);
    lemma_label_line("stage"@, st);
    assert(lines[0] == l1 && lines[1] == l2 && lines[2] == l3 && lines[3] == l4 && lines[4]
        == l5 && lines[5] == l6);
    let q0 = parse_upto(lines, 0);
    let q1 = parse_upto(lines, 1);
    let q2 = parse_upto(lines, 2);
    let q3 = parse_upto(lines, 3);
    let q4 = parse_upto(lines, 4);
    let q5 = parse_upto(lines, 5);
    let q6 = parse_upto(lines, 6);
    assert(split_at_sep(l1, '|') == seq!["name"@, p.name]);
    assert(split_at_sep(l2, '|') == seq!["files"@, p.files]);
    assert(split_at_sep(l3, '|') == seq!["notes"@, p.notes]);
    assert(split_at_sep(l4, '|') == seq!["boxname"@, p.boxname]);
    assert(split_at_sep(l5, '|') == seq!["config"@, p.config]);
    assert("files"@[0] == 'f' && "stage"@[0] == 's' && "notes"@[0] == 'n');
    assert("files"@ != "stage"@);
    assert("notes"@ != "stage"@);
    assert("notes"@ != "files"@);
    assert(q1 == parse_line(q0, l1));
    assert(q1 =~~= (ProjectV { name: p.name, ..empty_project() }));
    assert(q2 == parse_line(q1, l2));
    assert(q2 =~~= (ProjectV { files: p.files, ..q1 }));
    assert(q3 == parse_line(q2, l3));
    assert(q3 =~~= (ProjectV { notes: p.notes, ..q2 }));
    assert(q4 == parse_line(q3, l4));
    assert(q4 =~~= (ProjectV { boxname: p.boxname, ..q3 }));
    assert(q5 == parse_line(q4, l5));
    assert(q5 =~~= (ProjectV { config: p.config, ..q4 }));
    assert(q6 == parse_line(q5, l6));
    assert(split_at_sep(l6, '|') == seq!["stage"@, st]);
    if p.stage == Stage::Current {
        assert(st == "current"@);
        assert(q6.stage == Stage::Current);
    } else {
        assert(st == "upcoming"@);
        assert(st != "current"@);
        assert(q6.stage == Stage::Upcoming);
    }
    assert(q6 =~~= (ProjectV { active: false, ..p }));
    assert(parse_record_spec(content) == q6);
    assert(line_known(l1) && line_known(l2) && line_known(l3) && line_known(l4) && line_known(l5)
        && line_known(l6));
    assert(warn_upto(lines, 0) == 0);
    assert(warn_upto(lines, 1) == 0);
    assert(warn_upto(lines, 2) == 0);
    assert(warn_upto(lines, 3) == 0);
    assert(warn_upto(lines, 4) == 0);
    assert(warn_upto(lines, 5) == 0);
    assert(warn_upto(lines, 6) == 0);
}

impl Project {
    /// A field-wise copy. (The derived clone carries no specification, so
    /// the library copies projects explicitly.)
    pub fn duplicate(&self) -> (r: Project)
        ensures
            r@ == self@,
    {
        Project {
            name: self.name.clone(),
            files: self.files.clone(),
            notes: self.notes.clone(),
            stage: self.stage,
            boxname: self.boxname.clone(),
            config: self.config.clone(),
            active: self.active,
        }
    }
}

/// Whether some project in the first `upto` is named `n`.
pub open spec fn any_named(ps: Seq<ProjectV>, n: Seq<char>, upto: int) -> bool {
    exists|k: int| 0 <= k < upto && (#[trigger] ps[k]).name == n
}

/// Scans the whole project set and leaves exactly the projects named
/// `target` active (there is at most one under name uniqueness) and every
/// other project inactive. Returns the updated set and whether any project
/// matched; the caller persists each record.
pub fn activate_project(projects: &Vec<Project>, target: &str) -> (r: (Vec<Project>, bool))
    ensures
        r.0@.len() == projects@.len(),
        forall|i: int|
            0 <= i < projects@.len() ==> #[trigger] r.0@[i]@ == (ProjectV {
                active: projects@[i]@.name == target@,
                ..projects@[i]@
            }),
        r.1 == any_named(project_views(projects@), target@, projects@.len() as int),
{
    let mut out: Vec<Project> = Vec::new();
    let mut found = false;
    let mut i: usize = 0;
    while i < projects.len()
        invariant
            i <= projects@.len(),
            out@.len() == i,
            forall|k: int|
                0 <= k < i ==> #[trigger] out@[k]@ == (ProjectV {
                    active: projects@[k]@.name == target@,
                    ..projects@[k]@
                }),
            found == any_named(project_views(projects@), target@, i as int),
        decreases projects@.len() - i,
    {
        let m = str_eq(projects[i].name.as_str(), target);
        let mut p = projects[i].duplicate();
        p.active = m;
        proof {
            assert(p@ =~~= (ProjectV { active: projects@[i as int]@.name == target@, ..projects@[
                i as int]@ }));
            assert(project_views(projects@)[i as int] == projects@[i as int]@);
            if m {
                assert(any_named(project_views(projects@), target@, i + 1));
            } else {
                assert(any_named(project_views(projects@), target@, i + 1) == any_named(
                    project_views(projects@),
                    target@,
                    i as int,
                )) by {
                    if any_named(project_views(projects@), target@, i + 1) {
                        let k = choose|k: int|
                            0 <= k < i + 1 && (#[trigger] project_views(projects@)[k]).name
                                == target@;
                        if k == i {
                            assert(projects@[i as int]@.name == target@);
                        } else {
                            assert(any_named(project_views(projects@), target@, i as int));
                        }
                    }
                }
            }
        }
        out.push(p);
        found = found || m;
        i += 1;
    }
    (out, found)
}

/// The single-active-project law: after activation, under name uniqueness,
/// no two distinct projects are both active.
pub proof fn lemma_activate_single_active(ps: Seq<ProjectV>, target: Seq<char>)
    requires
        forall|i: int| 0 <= i < ps.len() ==> ((#[trigger] ps[i]).active <==> ps[i].name == target),
        names_unique(ps),
    ensures
        forall|i: int, j: int|
            0 <= i < ps.len() && 0 <= j < ps.len() && (#[trigger] ps[i]).active
                && (#[trigger] ps[j]).active ==> i == j,
{
    assert forall|i: int, j: int|
        0 <= i < ps.len() && 0 <= j < ps.len() && (#[trigger] ps[i]).active
            && (#[trigger] ps[j]).active implies i == j by {
        assert(ps[i].name == target);
        assert(ps[j].name == target);
        if i != j {
            assert(ps[i].name != ps[j].name);
        }
    }
}

/// A field-wise copy of a project vector.
pub fn clone_projects(v: &Vec<Project>) -> (r: Vec<Project>)
    ensures
        r@.len() == v@.len(),
        forall|i: int| 0 <= i < v@.len() ==> #[trigger] r@[i]@ == v@[i]@,
        project_views(r@) == project_views(v@),
{
    let mut out: Vec<Project> = Vec::new();
    let mut i: usize = 0;
    while i < v.len()
        invariant
            i <= v@.len(),
            out@.len() == i,
            forall|k: int| 0 <= k < i ==> #[trigger] out@[k]@ == v@[k]@,
        decreases v@.len() - i,
    {
        out.push(v[i].duplicate());
        i += 1;
    }
    proof {
        assert(project_views(out@) =~~= project_views(v@));
    }
    out
}

} // verus!
