//! The project lifecycle manager: where records live, how note templates
//! are chosen, how an interactive selection resolves, and the step
//! machines of the create, promote and remove transactions. Each
//! transaction is a sequence of filesystem or sandbox actions; the machine
//! decides the next action and folds each action's outcome into the next
//! state, so every decision of the multi-step, partially-idempotent
//! operations is verified while the filesystem work itself stays outside.

use vstd::prelude::*;
use vstd::string::StrSliceExecFns;
use vstd::string::StringExecFns;

use crate::project::Project;
use crate::project::ProjectV;
use crate::project::project_views;
use crate::strkit::contains_sub;
use crate::strkit::dec_val;
use crate::strkit::all_dec_digits;
use crate::strkit::has_substring;
use crate::strkit::parent_dir;
use crate::strkit::parent_dir_spec;
use crate::strkit::parse_usize;
use crate::strkit::str_eq;
use crate::strkit::usize_to_string;
use crate::strkit::dec_rep;
use crate::strkit::is_dec_digit;
use crate::table::Table;
use crate::table::cells;
use crate::table::col_width;
use crate::table::render_table;
use crate::strkit::views_of;
use crate::project::stage_text;
use crate::project::Stage;
use crate::project::field_ok;

verus! {

// ------------------------------------------------------------------
// Record paths; the name-uniqueness law.
// ------------------------------------------------------------------

/// Where the record of a project named `name` is persisted, derived from
/// the configuration file's path: `<config-dir>/projects/<name>.conf`.
pub open spec fn record_path_spec(config: Seq<char>, name: Seq<char>) -> Seq<char> {
    parent_dir_spec(config) + "/projects/"@ + name + ".conf"@
}

/// Computes the record path for a project name.
pub fn record_path(config: &str, name: &str) -> (r: String)
    ensures
        r@ == record_path_spec(config@, name@),
{
    let mut s = parent_dir(config);
    s.append("/projects/");
    s.append(name);
    s.append(".conf");
    proof {
        assert(s@ =~= record_path_spec(config@, name@));
    }
    s
}

/// Project name uniqueness: two creates resolve to the same persisted
/// record exactly when the names are the same, so a second create under an
/// existing name overwrites the one record rather than adding another.
pub proof fn lemma_record_path_unique(config: Seq<char>, n1: Seq<char>, n2: Seq<char>)
    ensures
        (record_path_spec(config, n1) == record_path_spec(config, n2)) <==> (n1 == n2),
{
    if record_path_spec(config, n1) == record_path_spec(config, n2) {
        let pre = parent_dir_spec(config) + "/projects/"@;
        let p1 = pre + n1 + ".conf"@;
        let p2 = pre + n2 + ".conf"@;
        assert(record_path_spec(config, n1) =~= p1);
        assert(record_path_spec(config, n2) =~= p2);
        assert(p1.len() == p2.len());
        assert(n1.len() == n2.len());
        assert(n1 =~= n2) by {
            assert forall|i: int| 0 <= i < n1.len() implies n1[i] == n2[i] by {
                assert(p1[pre.len() + i] == n1[i]);
                assert(p2[pre.len() + i] == n2[i]);
            }
        }
    }
}

// ------------------------------------------------------------------
// Note templates.
// ------------------------------------------------------------------

/// The note template category a project name selects, by keyword; the
/// first match wins.
#[derive(Clone, Copy, PartialEq, Eq, Structural, Debug)]
pub enum NoteCategory {
    External,
    Internal,
    Vishing,
    Phishing,
    Webapp,
}

/// The category a name selects, if any.
pub open spec fn note_category_spec(name: Seq<char>) -> Option<NoteCategory> {
    if has_substring(name, "external"@) {
        Some(NoteCategory::External)
    } else if has_substring(name, "internal"@) {
        Some(NoteCategory::Internal)
    } else if has_substring(name, "vishing"@) {
        Some(NoteCategory::Vishing)
    } else if has_substring(name, "phishing"@) {
        Some(NoteCategory::Phishing)
    } else if has_substring(name, "webapp"@) {
        Some(NoteCategory::Webapp)
    } else {
        None
    }
}

/// Infers the note template category from the project name.
pub fn note_category(name: &str) -> (r: Option<NoteCategory>)
    ensures
        r == note_category_spec(name@),
{
    if contains_sub(name, "external") {
        Some(NoteCategory::External)
    } else if contains_sub(name, "internal") {
        Some(NoteCategory::Internal)
    } else if contains_sub(name, "vishing") {
        Some(NoteCategory::Vishing)
    } else if contains_sub(name, "phishing") {
        Some(NoteCategory::Phishing)
    } else if contains_sub(name, "webapp") {
        Some(NoteCategory::Webapp)
    } else {
        None
    }
}

/// The directory name of a category.
pub open spec fn category_text(c: NoteCategory) -> Seq<char> {
    match c {
        NoteCategory::External => "external"@,
        NoteCategory::Internal => "internal"@,
        NoteCategory::Vishing => "vishing"@,
        NoteCategory::Phishing => "phishing"@,
        NoteCategory::Webapp => "webapp"@,
    }
}

/// The directory the default notes for `name` are copied from when a
/// category keyword matches: `<config-dir>/note_templates/<category>`.
/// Meaningful only for a name that selects a category; a name that
/// matches no keyword has no template directory and nothing is copied.
pub open spec fn note_template_dir_spec(config: Seq<char>, name: Seq<char>) -> Seq<char> {
    parent_dir_spec(config) + "/note_templates"@ + "/"@ + category_text(
        note_category_spec(name)->0,
    )
}

/// Computes the note template directory for a project name: `None` when
/// no keyword matches, and then no templates are copied.
pub fn note_template_dir(config: &str, name: &str) -> (r: Option<String>)
    ensures
        (r is Some) == (note_category_spec(name@) is Some),
        (r matches Some(p) ==> p@ == note_template_dir_spec(config@, name@)),
{
    let cat = match note_category(name) {
        Some(c) => c,
        None => {
            return None;
        },
    };
    let mut s = parent_dir(config);
    s.append("/note_templates");
    s.append("/");
    match cat {
        NoteCategory::External => s.append("external"),
        NoteCategory::Internal => s.append("internal"),
        NoteCategory::Vishing => s.append("vishing"),
        NoteCategory::Phishing => s.append("phishing"),
        NoteCategory::Webapp => s.append("webapp"),
    }
    proof {
        assert(s@ =~= note_template_dir_spec(config@, name@));
    }
    Some(s)
}

/// Whether one file from a template directory is a note to copy.
pub fn should_copy_note(file_name: &str) -> (r: bool)
    ensures
        r == has_substring(file_name@, ".md"@),
{
    contains_sub(file_name, ".md")
}

// ------------------------------------------------------------------
// Interactive selection.
// ------------------------------------------------------------------

/// Resolves a numbered menu selection. An unparsable token or an
/// out-of-range index is a reported error, never a crash.
pub fn select_project(projects: &Vec<Project>, token: &str) -> (r: Result<usize, String>)
    ensures
        (r is Ok) == (token@.len() > 0 && all_dec_digits(token@) && dec_val(token@)
            < projects@.len()),
        (match r {
            Ok(i) => i as nat == dec_val(token@),
            Err(m) => m@ == "error invalid project selection!"@,
        }),
{
    let n = projects.len();
    match parse_usize(token) {
        Some(i) => {
            if i < n {
                Ok(i)
            } else {
                Err(String::from_str("error invalid project selection!"))
            }
        },
        None => {
            proof {
                if token@.len() > 0 && all_dec_digits(token@) && dec_val(token@)
                    < projects@.len() {
                    assert(projects@.len() == n as nat);
                    assert(dec_val(token@) <= usize::MAX as nat);
                }
            }
            Err(String::from_str("error invalid project selection!"))
        },
    }
}

/// The first project with the given name, if any.
pub fn find_project(projects: &Vec<Project>, name: &str) -> (r: Option<usize>)
    ensures
        (match r {
            Some(i) => 0 <= i < projects@.len() && projects@[i as int]@.name == name@ && (forall|
                k: int,
            |
                0 <= k < i ==> (#[trigger] projects@[k]@).name != name@),
            None => forall|k: int|
                0 <= k < projects@.len() ==> (#[trigger] projects@[k]@).name != name@,
        }),
{
    let mut i: usize = 0;
    while i < projects.len()
        invariant
            i <= projects@.len(),
            forall|k: int| 0 <= k < i ==> (#[trigger] projects@[k]@).name != name@,
        decreases projects@.len() - i,
    {
        if str_eq(projects[i].name.as_str(), name) {
            return Some(i);
        }
        i += 1;
    }
    None
}

// ------------------------------------------------------------------
// Actions and outcomes of the multi-step transactions.
// ------------------------------------------------------------------

/// One filesystem or sandbox action a transaction asks its surroundings
/// to perform. The library never performs these itself; it only decides
/// them.
pub enum FsAction {
    /// Create (or truncate) a file.
    CreateFile(String),
    /// Create a directory and its parents; pre-existing is not an error.
    MakeDirAll(String),
    /// Copy every note template (the `.md` files) from one directory into
    /// another.
    CopyNoteTemplates { from: String, to: String },
    /// Recursively copy every file (not directories) of one tree into a
    /// directory.
    CopyTreeFiles { from: String, to: String },
    /// Delete a directory tree.
    RemoveDirAll(String),
    /// Delete a file.
    RemoveFile(String),
    /// Write the full content of a persisted record.
    WriteRecord { path: String, content: String },
    /// Ask the sandbox tool to delete the named environment.
    SandboxRm(String),
}

/// What one step's result means for the transaction.
pub enum StepOutcome {
    /// The step succeeded; ask for the next action.
    Continue,
    /// The step failed in a tolerated way: the message is a warning and
    /// the transaction goes on.
    Warn(String),
    /// The transaction completed; the message is its report.
    Finished(String),
    /// The transaction failed at this step; the message names it, and no
    /// further action will be issued.
    Failed(String),
}

/// A failure or warning report: the step's description, the path it
/// failed on, and — when the performer supplied one — the I/O cause.
pub open spec fn fail_report_spec(head: Seq<char>, path: Seq<char>, detail: Seq<char>) -> Seq<
    char,
> {
    head + "\n"@ + path + (if detail.len() > 0 {
        "\n"@ + detail
    } else {
        Seq::<char>::empty()
    })
}

/// Builds a failure or warning report.
fn fail_report(head: &str, path: &str, detail: &str) -> (r: String)
    ensures
        r@ == fail_report_spec(head@, path@, detail@),
{
    let mut s = String::from_str(head);
    s.append("\n");
    s.append(path);
    if detail.unicode_len() > 0 {
        s.append("\n");
        s.append(detail);
    }
    proof {
        assert(s@ =~= fail_report_spec(head@, path@, detail@));
    }
    s
}

// ------------------------------------------------------------------
// Create: record file, directories, default notes, persist.
// ------------------------------------------------------------------

#[derive(Clone, Copy, PartialEq, Eq, Structural, Debug)]
pub enum CreateStep {
    /// No name was supplied; it must be solicited through the dialog.
    NeedName,
    MakeRecord,
    MakeFiles,
    MakeNotes,
    CopyTemplates,
    Persist,
    Done,
    Failed,
}

/// The create transaction: each step aborts the operation on failure,
/// with no rollback of earlier steps (an explicit non-goal).
pub struct CreateOp {
    pub step: CreateStep,
    pub name: String,
    pub config: String,
    pub upcoming_files: String,
    pub upcoming_notes: String,
}

/// The files directory of the project being created.
pub open spec fn create_files_dir(op: CreateOp) -> Seq<char> {
    op.upcoming_files@ + seq!['/'] + op.name@
}

/// The notes directory of the project being created.
pub open spec fn create_notes_dir(op: CreateOp) -> Seq<char> {
    op.upcoming_notes@ + seq!['/'] + op.name@
}

/// The project the create transaction persists: upcoming, no sandbox yet,
/// inactive.
pub open spec fn create_project_spec(op: CreateOp) -> ProjectV {
    ProjectV {
        name: op.name@,
        files: create_files_dir(op),
        notes: create_notes_dir(op),
        stage: crate::project::Stage::Upcoming,
        boxname: Seq::<char>::empty(),
        config: record_path_spec(op.config@, op.name@),
        active: false,
    }
}

/// Which steps have an action to perform.
pub open spec fn create_has_action(s: CreateStep) -> bool {
    s == CreateStep::MakeRecord || s == CreateStep::MakeFiles || s == CreateStep::MakeNotes || s
        == CreateStep::CopyTemplates || s == CreateStep::Persist
}

/// The transition table of the create transaction: any failure is final,
/// and a name that selects no note-template category skips the copy step
/// outright — no match means no templates are copied.
pub open spec fn create_next_step(s: CreateStep, ok: bool, has_templates: bool) -> CreateStep {
    if !ok {
        CreateStep::Failed
    } else {
        match s {
            CreateStep::MakeRecord => CreateStep::MakeFiles,
            CreateStep::MakeFiles => CreateStep::MakeNotes,
            CreateStep::MakeNotes => if has_templates {
                CreateStep::CopyTemplates
            } else {
                CreateStep::Persist
            },
            CreateStep::CopyTemplates => CreateStep::Persist,
            CreateStep::Persist => CreateStep::Done,
            _ => s,
        }
    }
}

/// The failure report of each create step: the step's description, the
/// path it failed on, and the performer's account of the cause.
pub open spec fn create_fail_msg(s: CreateStep, op: CreateOp, detail: Seq<char>) -> Seq<char> {
    match s {
        CreateStep::MakeRecord => fail_report_spec(
            "error! unable to create the project record!"@,
            record_path_spec(op.config@, op.name@),
            detail,
        ),
        CreateStep::MakeFiles => fail_report_spec(
            "Error failure to create project files folder!"@,
            create_files_dir(op),
            detail,
        ),
        CreateStep::MakeNotes => fail_report_spec(
            "Error failure to create project notes folder!"@,
            create_notes_dir(op),
            detail,
        ),
        CreateStep::CopyTemplates => fail_report_spec(
            "Error copying note files!"@,
            create_notes_dir(op),
            detail,
        ),
        _ => fail_report_spec(
            "Error creating new config file!"@,
            record_path_spec(op.config@, op.name@),
            detail,
        ),
    }
}

impl CreateOp {
    /// Starts a create transaction. With an empty name the transaction
    /// first asks for one through the interactive dialog.
    pub fn new(config: &str, upcoming_files: &str, upcoming_notes: &str, name: &str) -> (op:
        CreateOp)
        ensures
            op.config@ == config@,
            op.upcoming_files@ == upcoming_files@,
            op.upcoming_notes@ == upcoming_notes@,
            op.name@ == name@,
            op.step == (if name@.len() == 0 {
                CreateStep::NeedName
            } else {
                CreateStep::MakeRecord
            }),
    {
        let step = if name.unicode_len() == 0 {
            CreateStep::NeedName
        } else {
            CreateStep::MakeRecord
        };
        CreateOp {
            step,
            name: String::from_str(name),
            config: String::from_str(config),
            upcoming_files: String::from_str(upcoming_files),
            upcoming_notes: String::from_str(upcoming_notes),
        }
    }

    /// Whether the transaction is waiting for a name from the dialog.
    pub fn needs_name(&self) -> (r: bool)
        ensures
            r == (self.step == CreateStep::NeedName),
    {
        matches!(self.step, CreateStep::NeedName)
    }

    /// Supplies the interactively solicited name, verbatim.
    pub fn supply_name(&mut self, name: &str)
        requires
            old(self).step == CreateStep::NeedName,
        ensures
            final(self).step == CreateStep::MakeRecord,
            final(self).name@ == name@,
            final(self).config@ == old(self).config@,
            final(self).upcoming_files@ == old(self).upcoming_files@,
            final(self).upcoming_notes@ == old(self).upcoming_notes@,
    {
        self.name = String::from_str(name);
        self.step = CreateStep::MakeRecord;
    }

    /// The action the current step needs, if the transaction is running.
    pub fn next_action(&self) -> (r: Option<FsAction>)
        ensures
            (r is Some) == (create_has_action(self.step) && !(self.step
                == CreateStep::CopyTemplates && note_category_spec(self.name@) is None)),
            self.step == CreateStep::MakeRecord ==> (r matches Some(FsAction::CreateFile(p))
                && p@ == record_path_spec(self.config@, self.name@)),
            self.step == CreateStep::MakeFiles ==> (r matches Some(FsAction::MakeDirAll(p)) && p@
                == create_files_dir(*self)),
            self.step == CreateStep::MakeNotes ==> (r matches Some(FsAction::MakeDirAll(p)) && p@
                == create_notes_dir(*self)),
            self.step == CreateStep::CopyTemplates && note_category_spec(self.name@) is Some ==> (
            r matches Some(FsAction::CopyNoteTemplates { from, to }) && from@
                == note_template_dir_spec(self.config@, self.name@) && to@ == create_notes_dir(
                *self,
            )),
            self.step == CreateStep::Persist ==> (r matches Some(
                FsAction::WriteRecord { path, content },
            ) && path@ == record_path_spec(self.config@, self.name@) && content@
                == crate::project::record_text_spec(create_project_spec(*self))),
    {
        match self.step {
            CreateStep::MakeRecord => Some(
                FsAction::CreateFile(record_path(self.config.as_str(), self.name.as_str())),
            ),
            CreateStep::MakeFiles => {
                let mut p = self.upcoming_files.clone();
                p.append("/");
                p.append(self.name.as_str());
                proof {
                    reveal_strlit("/");
                    assert(p@ =~= create_files_dir(*self));
                }
                Some(FsAction::MakeDirAll(p))
            },
            CreateStep::MakeNotes => {
                let mut p = self.upcoming_notes.clone();
                p.append("/");
                p.append(self.name.as_str());
                proof {
                    reveal_strlit("/");
                    assert(p@ =~= create_notes_dir(*self));
                }
                Some(FsAction::MakeDirAll(p))
            },
            CreateStep::CopyTemplates => {
                match note_template_dir(self.config.as_str(), self.name.as_str()) {
                    Some(from) => {
                        let mut to = self.upcoming_notes.clone();
                        to.append("/");
                        to.append(self.name.as_str());
                        proof {
                            reveal_strlit("/");
                            assert(to@ =~= create_notes_dir(*self));
                        }
                        Some(FsAction::CopyNoteTemplates { from, to })
                    },
                    None => None,
                }
            },
            CreateStep::Persist => {
                let p = self.created_project();
                Some(
                    FsAction::WriteRecord {
                        path: record_path(self.config.as_str(), self.name.as_str()),
                        content: p.record_text(),
                    },
                )
            },
            _ => None,
        }
    }

    /// The project this transaction creates.
    pub fn created_project(&self) -> (p: Project)
        ensures
            p@ == create_project_spec(*self),
    {
        let mut files = self.upcoming_files.clone();
        files.append("/");
        files.append(self.name.as_str());
        let mut notes = self.upcoming_notes.clone();
        notes.append("/");
        notes.append(self.name.as_str());
        let p = Project {
            name: self.name.clone(),
            files,
            notes,
            stage: crate::project::Stage::Upcoming,
            boxname: String::new(),
            config: record_path(self.config.as_str(), self.name.as_str()),
            active: false,
        };
        proof {
            reveal_strlit("/");
            assert(p@ =~~= create_project_spec(*self));
        }
        p
    }

    /// The notes directory of the project being created.
    fn notes_dir(&self) -> (r: String)
        ensures
            r@ == create_notes_dir(*self),
    {
        let mut p = self.upcoming_notes.clone();
        p.append("/");
        p.append(self.name.as_str());
        proof {
            reveal_strlit("/");
            assert(p@ =~= create_notes_dir(*self));
        }
        p
    }

    /// Folds one step's result: abort on first failure with a report that
    /// names the step, the path it failed on and the performer's account
    /// of the cause (`detail`, empty when there is none); finish after
    /// the record is persisted.
    pub fn on_result(&mut self, ok: bool, detail: &str) -> (o: StepOutcome)
        requires
            create_has_action(old(self).step),
        ensures
            final(self).step == create_next_step(
                old(self).step,
                ok,
                note_category_spec(old(self).name@) is Some,
            ),
            final(self).name@ == old(self).name@,
            final(self).config@ == old(self).config@,
            final(self).upcoming_files@ == old(self).upcoming_files@,
            final(self).upcoming_notes@ == old(self).upcoming_notes@,
            ok && old(self).step != CreateStep::Persist ==> (o is Continue),
            ok && old(self).step == CreateStep::Persist ==> (o matches StepOutcome::Finished(m)
                && m@ == "Success!"@),
            !ok ==> (o matches StepOutcome::Failed(m) && m@ == create_fail_msg(
                old(self).step,
                *old(self),
                detail@,
            )),
    {
        if !ok {
            let msg = match self.step {
                CreateStep::MakeRecord => {
                    let p = record_path(self.config.as_str(), self.name.as_str());
                    fail_report(
                        "error! unable to create the project record!",
                        p.as_str(),
                        detail,
                    )
                },
                CreateStep::MakeFiles => {
                    let mut p = self.upcoming_files.clone();
                    p.append("/");
                    p.append(self.name.as_str());
                    proof {
                        reveal_strlit("/");
                        assert(p@ =~= create_files_dir(*self));
                    }
                    fail_report(
                        "Error failure to create project files folder!",
                        p.as_str(),
                        detail,
                    )
                },
                CreateStep::MakeNotes => {
                    let p = self.notes_dir();
                    fail_report(
                        "Error failure to create project notes folder!",
                        p.as_str(),
                        detail,
                    )
                },
                CreateStep::CopyTemplates => {
                    let p = self.notes_dir();
                    fail_report("Error copying note files!", p.as_str(), detail)
                },
                _ => {
                    let p = record_path(self.config.as_str(), self.name.as_str());
                    fail_report("Error creating new config file!", p.as_str(), detail)
                },
            };
            self.step = CreateStep::Failed;
            return StepOutcome::Failed(msg);
        }
        match self.step {
            CreateStep::MakeRecord => {
                self.step = CreateStep::MakeFiles;
                StepOutcome::Continue
            },
            CreateStep::MakeFiles => {
                self.step = CreateStep::MakeNotes;
                StepOutcome::Continue
            },
            CreateStep::MakeNotes => {
                if note_category(self.name.as_str()).is_some() {
                    self.step = CreateStep::CopyTemplates;
                } else {
                    self.step = CreateStep::Persist;
                }
                StepOutcome::Continue
            },
            CreateStep::CopyTemplates => {
                self.step = CreateStep::Persist;
                StepOutcome::Continue
            },
            _ => {
                self.step = CreateStep::Done;
                StepOutcome::Finished(String::from_str("Success!"))
            },
        }
    }
}

// ------------------------------------------------------------------
// Remove: files, notes, record, sandbox — abort on first failure.
// ------------------------------------------------------------------

#[derive(Clone, Copy, PartialEq, Eq, Structural, Debug)]
pub enum RemoveStep {
    Files,
    Notes,
    Record,
    Sandbox,
    Done,
    Failed,
}

/// The remove transaction. Steps are not guarded against partial
/// execution: any failure is returned immediately and the remaining steps
/// are skipped, an explicit, accepted limitation.
pub struct RemoveOp {
    pub step: RemoveStep,
    pub files: String,
    pub notes: String,
    pub config: String,
    pub boxname: String,
}

/// Which steps have an action to perform.
pub open spec fn remove_has_action(s: RemoveStep) -> bool {
    s == RemoveStep::Files || s == RemoveStep::Notes || s == RemoveStep::Record || s
        == RemoveStep::Sandbox
}

/// Whether a step's result counts as failure. Filesystem steps fail when
/// the operation fails; the sandbox deletion fails only when the tool
/// cannot be launched at all — its exit status is not judged, since
/// deleting an absent environment must not fail the removal.
pub open spec fn remove_step_fails(s: RemoveStep, launched: bool, ok: bool) -> bool {
    if s == RemoveStep::Sandbox {
        !launched
    } else {
        !ok
    }
}

/// The transition table of the remove transaction.
pub open spec fn remove_next_step(s: RemoveStep, launched: bool, ok: bool) -> RemoveStep {
    if remove_step_fails(s, launched, ok) {
        RemoveStep::Failed
    } else {
        match s {
            RemoveStep::Files => RemoveStep::Notes,
            RemoveStep::Notes => RemoveStep::Record,
            RemoveStep::Record => RemoveStep::Sandbox,
            RemoveStep::Sandbox => RemoveStep::Done,
            _ => s,
        }
    }
}

/// The failure report of each remove step: the step's description, the
/// path (or sandbox name) it failed on, and the performer's account of
/// the cause.
pub open spec fn remove_fail_msg(s: RemoveStep, op: RemoveOp, detail: Seq<char>) -> Seq<char> {
    match s {
        RemoveStep::Files => fail_report_spec("Error removing files directory!"@, op.files@, detail),
        RemoveStep::Notes => fail_report_spec("Error removing notes directory!"@, op.notes@, detail),
        RemoveStep::Record => fail_report_spec("Error removing config file!"@, op.config@, detail),
        _ => fail_report_spec("Error deleting distrobox!"@, op.boxname@, detail),
    }
}

impl RemoveOp {
    /// Starts removing the given project.
    pub fn new(project: &Project) -> (op: RemoveOp)
        ensures
            op.step == RemoveStep::Files,
            op.files@ == project@.files,
            op.notes@ == project@.notes,
            op.config@ == project@.config,
            op.boxname@ == project@.boxname,
    {
        RemoveOp {
            step: RemoveStep::Files,
            files: project.files.clone(),
            notes: project.notes.clone(),
            config: project.config.clone(),
            boxname: project.boxname.clone(),
        }
    }

    /// The action the current step needs, if any. A failed transaction
    /// issues none: the steps after the failing one are never attempted.
    pub fn next_action(&self) -> (r: Option<FsAction>)
        ensures
            (r is Some) == remove_has_action(self.step),
            self.step == RemoveStep::Files ==> (r matches Some(FsAction::RemoveDirAll(p)) && p@
                == self.files@),
            self.step == RemoveStep::Notes ==> (r matches Some(FsAction::RemoveDirAll(p)) && p@
                == self.notes@),
            self.step == RemoveStep::Record ==> (r matches Some(FsAction::RemoveFile(p)) && p@
                == self.config@),
            self.step == RemoveStep::Sandbox ==> (r matches Some(FsAction::SandboxRm(n)) && n@
                == self.boxname@),
    {
        match self.step {
            RemoveStep::Files => Some(FsAction::RemoveDirAll(self.files.clone())),
            RemoveStep::Notes => Some(FsAction::RemoveDirAll(self.notes.clone())),
            RemoveStep::Record => Some(FsAction::RemoveFile(self.config.clone())),
            RemoveStep::Sandbox => Some(FsAction::SandboxRm(self.boxname.clone())),
            _ => None,
        }
    }

    /// Folds one step's result; any failure is final and reported with
    /// the failing step's name, the path it failed on, and the
    /// performer's account of the cause (`detail`, empty when there is
    /// none).
    pub fn on_result(&mut self, launched: bool, ok: bool, detail: &str) -> (o: StepOutcome)
        requires
            remove_has_action(old(self).step),
        ensures
            final(self).step == remove_next_step(old(self).step, launched, ok),
            final(self).files@ == old(self).files@,
            final(self).notes@ == old(self).notes@,
            final(self).config@ == old(self).config@,
            final(self).boxname@ == old(self).boxname@,
            remove_step_fails(old(self).step, launched, ok) ==> (o matches StepOutcome::Failed(m)
                && m@ == remove_fail_msg(old(self).step, *old(self), detail@)),
            !remove_step_fails(old(self).step, launched, ok) && old(self).step
                != RemoveStep::Sandbox ==> (o is Continue),
            !remove_step_fails(old(self).step, launched, ok) && old(self).step
                == RemoveStep::Sandbox ==> (o matches StepOutcome::Finished(m) && m@
                == "Success!"@),
    {
        let failed = match self.step {
            RemoveStep::Sandbox => !launched,
            _ => !ok,
        };
        if failed {
            let msg = match self.step {
                RemoveStep::Files => fail_report(
                    "Error removing files directory!",
                    self.files.as_str(),
                    detail,
                ),
                RemoveStep::Notes => fail_report(
                    "Error removing notes directory!",
                    self.notes.as_str(),
                    detail,
                ),
                RemoveStep::Record => fail_report(
                    "Error removing config file!",
                    self.config.as_str(),
                    detail,
                ),
                _ => fail_report("Error deleting distrobox!", self.boxname.as_str(), detail),
            };
            self.step = RemoveStep::Failed;
            return StepOutcome::Failed(msg);
        }
        match self.step {
            RemoveStep::Files => {
                self.step = RemoveStep::Notes;
                StepOutcome::Continue
            },
            RemoveStep::Notes => {
                self.step = RemoveStep::Record;
                StepOutcome::Continue
            },
            RemoveStep::Record => {
                self.step = RemoveStep::Sandbox;
                StepOutcome::Continue
            },
            _ => {
                self.step = RemoveStep::Done;
                StepOutcome::Finished(String::from_str("Success!"))
            },
        }
    }
}

/// Remove is destructive and idempotent-on-failure: when a step fails —
/// for instance the files tree was already deleted externally — the
/// transaction reaches `Failed`, which has no further action, so the
/// notes, record and sandbox deletions are never attempted.
pub proof fn lemma_remove_failure_stops(s: RemoveStep, launched: bool, ok: bool, op: RemoveOp, detail: Seq<char>)
    ensures
        remove_step_fails(s, launched, ok) ==> remove_next_step(s, launched, ok)
            == RemoveStep::Failed,
        !remove_has_action(RemoveStep::Failed),
        s == RemoveStep::Files && !ok ==> remove_step_fails(s, launched, ok) && remove_fail_msg(
            s,
            op,
            detail,
        ) == fail_report_spec("Error removing files directory!"@, op.files@, detail),
{
}

// ------------------------------------------------------------------
// Promote: new directories, migrate trees, best-effort cleanup, persist.
// ------------------------------------------------------------------

/// The sandbox name a promotion derives: `<template>_<name>`.
pub open spec fn boxname_spec(template: Seq<char>, name: Seq<char>) -> Seq<char> {
    template + seq!['_'] + name
}

/// Derives the sandbox environment name.
pub fn boxname_of(template: &str, name: &str) -> (r: String)
    ensures
        r@ == boxname_spec(template@, name@),
{
    let mut s = String::from_str(template);
    s.append("_");
    s.append(name);
    proof {
        reveal_strlit("_");
        assert(s@ =~= boxname_spec(template@, name@));
    }
    s
}

#[derive(Clone, Copy, PartialEq, Eq, Structural, Debug)]
pub enum PromoteStep {
    MakeFiles,
    MakeNotes,
    CopyFiles,
    CopyNotes,
    RemoveOldFiles,
    RemoveOldNotes,
    Persist,
    Done,
    Failed,
}

/// The promote transaction: create the current-stage directories, copy
/// the file trees over, delete the old trees (best-effort: a failure
/// there is a warning, not a transaction failure), then persist the
/// promoted record. Sandbox provisioning follows separately and is not
/// atomic with this data migration.
pub struct PromoteOp {
    pub step: PromoteStep,
    pub name: String,
    pub old_files: String,
    pub old_notes: String,
    pub config: String,
    pub current_files: String,
    pub current_notes: String,
    pub template: String,
    pub active: bool,
}

/// The promoted files directory.
pub open spec fn promote_files_dir(op: PromoteOp) -> Seq<char> {
    op.current_files@ + seq!['/'] + op.name@
}

/// The promoted notes directory.
pub open spec fn promote_notes_dir(op: PromoteOp) -> Seq<char> {
    op.current_notes@ + seq!['/'] + op.name@
}

/// The project as the promotion persists it: current stage, relocated
/// directories, the derived sandbox name.
pub open spec fn promote_project_spec(op: PromoteOp) -> ProjectV {
    ProjectV {
        name: op.name@,
        files: promote_files_dir(op),
        notes: promote_notes_dir(op),
        stage: crate::project::Stage::Current,
        boxname: boxname_spec(op.template@, op.name@),
        config: op.config@,
        active: op.active,
    }
}

/// Which steps have an action to perform.
pub open spec fn promote_has_action(s: PromoteStep) -> bool {
    !(s == PromoteStep::Done || s == PromoteStep::Failed)
}

/// Whether a step's failure aborts the promotion: only the two directory
/// creations are fatal. Copies are per-file best effort, old-tree
/// removals are downgraded to warnings, and the record write reports but
/// does not roll back.
pub open spec fn promote_step_fatal(s: PromoteStep) -> bool {
    s == PromoteStep::MakeFiles || s == PromoteStep::MakeNotes
}

/// The transition table of the promote transaction.
pub open spec fn promote_next_step(s: PromoteStep, ok: bool) -> PromoteStep {
    if !ok && promote_step_fatal(s) {
        PromoteStep::Failed
    } else {
        match s {
            PromoteStep::MakeFiles => PromoteStep::MakeNotes,
            PromoteStep::MakeNotes => PromoteStep::CopyFiles,
            PromoteStep::CopyFiles => PromoteStep::CopyNotes,
            PromoteStep::CopyNotes => PromoteStep::RemoveOldFiles,
            PromoteStep::RemoveOldFiles => PromoteStep::RemoveOldNotes,
            PromoteStep::RemoveOldNotes => PromoteStep::Persist,
            PromoteStep::Persist => PromoteStep::Done,
            _ => s,
        }
    }
}

impl PromoteOp {
    /// Starts promoting the given project into the current-stage roots.
    pub fn new(project: &Project, current_files: &str, current_notes: &str, template: &str) -> (op:
        PromoteOp)
        ensures
            op.step == PromoteStep::MakeFiles,
            op.name@ == project@.name,
            op.old_files@ == project@.files,
            op.old_notes@ == project@.notes,
            op.config@ == project@.config,
            op.current_files@ == current_files@,
            op.current_notes@ == current_notes@,
            op.template@ == template@,
            op.active == project@.active,
    {
        PromoteOp {
            step: PromoteStep::MakeFiles,
            name: project.name.clone(),
            old_files: project.files.clone(),
            old_notes: project.notes.clone(),
            config: project.config.clone(),
            current_files: String::from_str(current_files),
            current_notes: String::from_str(current_notes),
            template: String::from_str(template),
            active: project.active,
        }
    }

    /// The project as this promotion will persist it.
    pub fn promoted_project(&self) -> (p: Project)
        ensures
            p@ == promote_project_spec(*self),
    {
        let mut files = self.current_files.clone();
        files.append("/");
        files.append(self.name.as_str());
        let mut notes = self.current_notes.clone();
        notes.append("/");
        notes.append(self.name.as_str());
        let p = Project {
            name: self.name.clone(),
            files,
            notes,
            stage: crate::project::Stage::Current,
            boxname: boxname_of(self.template.as_str(), self.name.as_str()),
            config: self.config.clone(),
            active: self.active,
        };
        proof {
            reveal_strlit("/");
            assert(p@ =~~= promote_project_spec(*self));
        }
        p
    }

    /// The action the current step needs, if the transaction is running.
    pub fn next_action(&self) -> (r: Option<FsAction>)
        ensures
            (r is Some) == promote_has_action(self.step),
            self.step == PromoteStep::MakeFiles ==> (r matches Some(FsAction::MakeDirAll(p)) && p@
                == promote_files_dir(*self)),
            self.step == PromoteStep::MakeNotes ==> (r matches Some(FsAction::MakeDirAll(p)) && p@
                == promote_notes_dir(*self)),
            self.step == PromoteStep::CopyFiles ==> (r matches Some(
                FsAction::CopyTreeFiles { from, to },
            ) && from@ == self.old_files@ && to@ == promote_files_dir(*self)),
            self.step == PromoteStep::CopyNotes ==> (r matches Some(
                FsAction::CopyTreeFiles { from, to },
            ) && from@ == self.old_notes@ && to@ == promote_notes_dir(*self)),
            self.step == PromoteStep::RemoveOldFiles ==> (r matches Some(
                FsAction::RemoveDirAll(p),
            ) && p@ == self.old_files@),
            self.step == PromoteStep::RemoveOldNotes ==> (r matches Some(
                FsAction::RemoveDirAll(p),
            ) && p@ == self.old_notes@),
            self.step == PromoteStep::Persist ==> (r matches Some(
                FsAction::WriteRecord { path, content },
            ) && path@ == self.config@ && content@ == crate::project::record_text_spec(
                promote_project_spec(*self),
            )),
    {
        match self.step {
            PromoteStep::MakeFiles => {
                let mut p = self.current_files.clone();
                p.append("/");
                p.append(self.name.as_str());
                proof {
                    reveal_strlit("/");
                    assert(p@ =~= promote_files_dir(*self));
                }
                Some(FsAction::MakeDirAll(p))
            },
            PromoteStep::MakeNotes => {
                let mut p = self.current_notes.clone();
                p.append("/");
                p.append(self.name.as_str());
                proof {
                    reveal_strlit("/");
                    assert(p@ =~= promote_notes_dir(*self));
                }
                Some(FsAction::MakeDirAll(p))
            },
            PromoteStep::CopyFiles => {
                let mut to = self.current_files.clone();
                to.append("/");
                to.append(self.name.as_str());
                proof {
                    reveal_strlit("/");
                    assert(to@ =~= promote_files_dir(*self));
                }
                Some(FsAction::CopyTreeFiles { from: self.old_files.clone(), to })
            },
            PromoteStep::CopyNotes => {
                let mut to = self.current_notes.clone();
                to.append("/");
                to.append(self.name.as_str());
                proof {
                    reveal_strlit("/");
                    assert(to@ =~= promote_notes_dir(*self));
                }
                Some(FsAction::CopyTreeFiles { from: self.old_notes.clone(), to })
            },
            PromoteStep::RemoveOldFiles => Some(FsAction::RemoveDirAll(self.old_files.clone())),
            PromoteStep::RemoveOldNotes => Some(FsAction::RemoveDirAll(self.old_notes.clone())),
            PromoteStep::Persist => {
                let p = self.promoted_project();
                Some(FsAction::WriteRecord { path: self.config.clone(), content: p.record_text() })
            },
            _ => None,
        }
    }

    /// Folds one step's result: directory creation failures abort with a
    /// report naming the path and the performer's account of the cause
    /// (`detail`, empty when there is none); old-tree removal failures
    /// are downgraded to warnings carrying the same (cleanup is best
    /// effort, manual remediation is asked for); copies and the record
    /// write continue regardless.
    pub fn on_result(&mut self, ok: bool, detail: &str) -> (o: StepOutcome)
        requires
            promote_has_action(old(self).step),
        ensures
            final(self).step == promote_next_step(old(self).step, ok),
            final(self).name@ == old(self).name@,
            final(self).old_files@ == old(self).old_files@,
            final(self).old_notes@ == old(self).old_notes@,
            final(self).config@ == old(self).config@,
            final(self).current_files@ == old(self).current_files@,
            final(self).current_notes@ == old(self).current_notes@,
            final(self).template@ == old(self).template@,
            final(self).active == old(self).active,
            !ok && promote_step_fatal(old(self).step) ==> (o matches StepOutcome::Failed(m) && m@
                == (if old(self).step == PromoteStep::MakeFiles {
                fail_report_spec(
                    "Error creating new files folder!"@,
                    promote_files_dir(*old(self)),
                    detail@,
                )
            } else {
                fail_report_spec(
                    "Error creating new notes folder!"@,
                    promote_notes_dir(*old(self)),
                    detail@,
                )
            })),
            !ok && old(self).step == PromoteStep::RemoveOldFiles ==> (o matches StepOutcome::Warn(
                m,
            ) && m@ == fail_report_spec(
                "Error removing upcoming files directory, manual clean up required!"@,
                old(self).old_files@,
                detail@,
            )),
            !ok && old(self).step == PromoteStep::RemoveOldNotes ==> (o matches StepOutcome::Warn(
                m,
            ) && m@ == fail_report_spec(
                "Error removing upcoming notes directory, manual cleanup required!"@,
                old(self).old_notes@,
                detail@,
            )),
            old(self).step == PromoteStep::Persist ==> (o matches StepOutcome::Finished(m) && m@
                == "Success!"@),
            ok && !(old(self).step == PromoteStep::Persist) ==> (o is Continue),
            !ok && !promote_step_fatal(old(self).step) && old(self).step != PromoteStep::Persist
                && old(self).step != PromoteStep::RemoveOldFiles && old(self).step
                != PromoteStep::RemoveOldNotes ==> (o is Continue),
    {
        match self.step {
            PromoteStep::MakeFiles => {
                if !ok {
                    let mut p = self.current_files.clone();
                    p.append("/");
                    p.append(self.name.as_str());
                    proof {
                        reveal_strlit("/");
                        assert(p@ =~= promote_files_dir(*self));
                    }
                    let msg = fail_report("Error creating new files folder!", p.as_str(), detail);
                    self.step = PromoteStep::Failed;
                    StepOutcome::Failed(msg)
                } else {
                    self.step = PromoteStep::MakeNotes;
                    StepOutcome::Continue
                }
            },
            PromoteStep::MakeNotes => {
                if !ok {
                    let mut p = self.current_notes.clone();
                    p.append("/");
                    p.append(self.name.as_str());
                    proof {
                        reveal_strlit("/");
                        assert(p@ =~= promote_notes_dir(*self));
                    }
                    let msg = fail_report("Error creating new notes folder!", p.as_str(), detail);
                    self.step = PromoteStep::Failed;
                    StepOutcome::Failed(msg)
                } else {
                    self.step = PromoteStep::CopyFiles;
                    StepOutcome::Continue
                }
            },
            PromoteStep::CopyFiles => {
                self.step = PromoteStep::CopyNotes;
                StepOutcome::Continue
            },
            PromoteStep::CopyNotes => {
                self.step = PromoteStep::RemoveOldFiles;
                StepOutcome::Continue
            },
            PromoteStep::RemoveOldFiles => {
                self.step = PromoteStep::RemoveOldNotes;
                if !ok {
                    StepOutcome::Warn(
                        fail_report(
                            "Error removing upcoming files directory, manual clean up required!",
                            self.old_files.as_str(),
                            detail,
                        ),
                    )
                } else {
                    StepOutcome::Continue
                }
            },
            PromoteStep::RemoveOldNotes => {
                self.step = PromoteStep::Persist;
                if !ok {
                    StepOutcome::Warn(
                        fail_report(
                            "Error removing upcoming notes directory, manual cleanup required!",
                            self.old_notes.as_str(),
                            detail,
                        ),
                    )
                } else {
                    StepOutcome::Continue
                }
            },
            _ => {
                self.step = PromoteStep::Done;
                StepOutcome::Finished(String::from_str("Success!"))
            },
        }
    }
}

/// How a finished promotion reports sandbox provisioning: success plain,
/// failure surfaced distinctly as a degraded success — the data migration
/// stands, the sandbox needs manual remediation.
pub fn promote_report(sandbox_ok: bool, sandbox_err: &str) -> (r: (String, bool))
    ensures
        sandbox_ok ==> r.0@ == "Success!"@ && !r.1,
        !sandbox_ok ==> r.1 && r.0@ == "Error creating distrobox!\n"@ + sandbox_err@
            + "\n\nThe project was still promoted, but the distrobox has not been created!"@,
{
    if sandbox_ok {
        (String::from_str("Success!"), false)
    } else {
        let mut m = String::from_str("Error creating distrobox!\n");
        m.append(sandbox_err);
        m.append("\n\nThe project was still promoted, but the distrobox has not been created!");
        proof {
            assert(m@ =~= "Error creating distrobox!\n"@ + sandbox_err@
                + "\n\nThe project was still promoted, but the distrobox has not been created!"@);
        }
        (m, true)
    }
}

// ------------------------------------------------------------------
// Project tables: the listing and the interactive promote menu.
// ------------------------------------------------------------------

/// Builds one `a|b|c` line.
fn three_col_line(a: &str, b: &str, c: &str) -> (r: String)
    ensures
        r@ == a@ + seq!['|'] + b@ + seq!['|'] + c@,
{
    let mut s = String::from_str(a);
    s.append("|");
    s.append(b);
    s.append("|");
    s.append(c);
    proof {
        reveal_strlit("|");
        assert(s@ =~= a@ + seq!['|'] + b@ + seq!['|'] + c@);
    }
    s
}

/// An `a|b|c` line splits into exactly those three cells.
proof fn lemma_three_cells(a: Seq<char>, b: Seq<char>, c: Seq<char>)
    requires
        !a.contains('|'),
        !b.contains('|'),
        !c.contains('|'),
    ensures
        cells(a + seq!['|'] + b + seq!['|'] + c) == seq![a, b, c],
{
    crate::strkit::lemma_split_no_sep(a, '|');
    crate::strkit::lemma_split_no_sep(b, '|');
    crate::strkit::lemma_split_no_sep(c, '|');
    crate::strkit::lemma_split_append(b, c, '|');
    assert(a + seq!['|'] + (b + seq!['|'] + c) =~= a + seq!['|'] + b + seq!['|'] + c);
    crate::strkit::lemma_split_append(a, b + seq!['|'] + c, '|');
    assert(cells(a + seq!['|'] + b + seq!['|'] + c) =~~= seq![a, b, c]);
}

/// The display text of a stage.
fn stage_str(s: Stage) -> (r: &'static str)
    ensures
        r@ == stage_text(s),
{
    match s {
        Stage::Current => "current",
        Stage::Upcoming => "upcoming",
    }
}

/// The stage words hold neither separator.
proof fn lemma_stage_text_ok(s: Stage)
    ensures
        !stage_text(s).contains('|'),
        !stage_text(s).contains('\n'),
{
    reveal_strlit("current");
    reveal_strlit("upcoming");
    if s == Stage::Current {
        assert(!"current"@.contains('|'));
        assert(!"current"@.contains('\n'));
    } else {
        assert(!"upcoming"@.contains('|'));
        assert(!"upcoming"@.contains('\n'));
    }
}

/// One listing line: `name|stage|boxname`.
pub open spec fn project_line(p: ProjectV) -> Seq<char> {
    p.name + seq!['|'] + stage_text(p.stage) + seq!['|'] + p.boxname
}

/// The listing's lines: the header, then one line per project.
pub open spec fn list_lines(ps: Seq<ProjectV>) -> Seq<Seq<char>> {
    seq!["name|stage|boxname"@] + ps.map_values(|p: ProjectV| project_line(p))
}

/// The measured column widths of a set of table lines.
pub open spec fn measured_cols(lines: Seq<Seq<char>>) -> Seq<usize> {
    Seq::new(cells(lines[0]).len(), |id: int| col_width(lines[0], lines.skip(1), id) as usize)
}

/// The rendered project listing.
pub open spec fn list_projects_spec(ps: Seq<ProjectV>) -> Seq<char> {
    render_table(measured_cols(list_lines(ps)), list_lines(ps)[0], list_lines(ps).skip(1))
}

/// Renders the table of tracked projects: name, stage, sandbox name.
pub fn list_projects(projects: &Vec<Project>) -> (r: String)
    requires
        forall|i: int|
            0 <= i < projects@.len() ==> field_ok((#[trigger] projects@[i]@).name) && field_ok(
                projects@[i]@.boxname,
            ),
        forall|i: int|
            0 <= i < projects@.len() ==> (#[trigger] projects@[i]@).name.len() + projects@[
                i]@.boxname.len() + 32 < usize::MAX,
    ensures
        r@ == list_projects_spec(project_views(projects@)),
{
    let ghost ps = project_views(projects@);
    let mut lines: Vec<String> = Vec::new();
    lines.push(String::from_str("name|stage|boxname"));
    let mut i: usize = 0;
    while i < projects.len()
        invariant
            ps == project_views(projects@),
            i <= projects@.len(),
            lines@.len() == i + 1,
            lines@[0]@ == "name|stage|boxname"@,
            forall|k: int| 0 <= k < i ==> #[trigger] lines@[k + 1]@ == project_line(ps[k]),
        decreases projects@.len() - i,
    {
        proof {
            assert(ps[i as int] == projects@[i as int]@);
        }
        let line = three_col_line(
            projects[i].name.as_str(),
            stage_str(projects[i].stage),
            projects[i].boxname.as_str(),
        );
        lines.push(line);
        i += 1;
    }
    proof {
        assert forall|k: int| 0 <= k < lines@.len() implies views_of(lines@)[k] == list_lines(
            ps,
        )[k] by {
            if k == 0 {
            } else {
                let k0 = k - 1;
                assert(lines@[k0 + 1]@ == project_line(ps[k0]));
                assert(lines@[k]@ == project_line(ps[k - 1]));
            }
        }
        assert(views_of(lines@) =~~= list_lines(ps));
        let linevs = list_lines(ps);
        reveal_strlit("name|stage|boxname");
        reveal_strlit("name");
        reveal_strlit("stage");
        reveal_strlit("boxname");
        assert("name|stage|boxname"@ =~= "name"@ + seq!['|'] + "stage"@ + seq!['|'] + "boxname"@);
        assert(!"name"@.contains('|'));
        assert(!"stage"@.contains('|'));
        assert(!"boxname"@.contains('|'));
        lemma_three_cells("name"@, "stage"@, "boxname"@);
        assert(cells(linevs[0]).len() == 3);
        assert forall|j: int| 1 <= j < linevs.len() implies cells(#[trigger] linevs[j]).len()
            >= cells(linevs[0]).len() by {
            let p = ps[j - 1];
            assert(p == projects@[j - 1]@);
            lemma_stage_text_ok(p.stage);
            lemma_three_cells(p.name, stage_text(p.stage), p.boxname);
            assert(cells(project_line(p)) == seq![p.name, stage_text(p.stage), p.boxname]);
        }
        reveal_strlit("current");
        reveal_strlit("upcoming");
        assert forall|j: int| 0 <= j < linevs.len() implies (#[trigger] linevs[j]).len() + 1
            < usize::MAX by {
            if j > 0 {
                let p = ps[j - 1];
                assert(p == projects@[j - 1]@);
                assert(stage_text(p.stage).len() <= 8);
                assert(linevs[j] == project_line(p));
            }
        }
    }
    render_measured(lines, Ghost(list_lines(ps)))
}

/// One promote-menu line: `id|name|stage`.
pub open spec fn menu_line(id: nat, p: ProjectV) -> Seq<char> {
    dec_rep(id) + seq!['|'] + p.name + seq!['|'] + stage_text(p.stage)
}

/// The promote menu's lines: the header, then one numbered line per
/// project.
pub open spec fn menu_lines(ps: Seq<ProjectV>) -> Seq<Seq<char>> {
    seq!["id|name|status"@] + Seq::new(ps.len(), |i: int| menu_line(i as nat, ps[i]))
}

/// The rendered promote menu.
pub open spec fn promote_menu_spec(ps: Seq<ProjectV>) -> Seq<char> {
    render_table(measured_cols(menu_lines(ps)), menu_lines(ps)[0], menu_lines(ps).skip(1))
}

/// Decimal digits only in a number's rendering.
proof fn lemma_dec_rep_digits(n: nat)
    ensures
        forall|i: int| 0 <= i < dec_rep(n).len() ==> is_dec_digit(#[trigger] dec_rep(n)[i]),
        dec_rep(n).len() <= n + 1,
    decreases n,
{
    if n >= 10 {
        lemma_dec_rep_digits(n / 10);
    }
}

/// Renders the numbered table a promote selection is made from.
pub fn promote_menu(projects: &Vec<Project>) -> (r: String)
    requires
        forall|i: int| 0 <= i < projects@.len() ==> field_ok((#[trigger] projects@[i]@).name),
        forall|i: int|
            0 <= i < projects@.len() ==> (#[trigger] projects@[i]@).name.len() + projects@.len()
                + 32 < usize::MAX,
    ensures
        r@ == promote_menu_spec(project_views(projects@)),
{
    let ghost ps = project_views(projects@);
    let mut lines: Vec<String> = Vec::new();
    lines.push(String::from_str("id|name|status"));
    let mut i: usize = 0;
    while i < projects.len()
        invariant
            ps == project_views(projects@),
            i <= projects@.len(),
            lines@.len() == i + 1,
            lines@[0]@ == "id|name|status"@,
            forall|k: int| 0 <= k < i ==> #[trigger] lines@[k + 1]@ == menu_line(k as nat, ps[k]),
        decreases projects@.len() - i,
    {
        proof {
            assert(ps[i as int] == projects@[i as int]@);
        }
        let id = usize_to_string(i);
        let line = three_col_line(
            id.as_str(),
            projects[i].name.as_str(),
            stage_str(projects[i].stage),
        );
        lines.push(line);
        i += 1;
    }
    proof {
        assert forall|k: int| 0 <= k < lines@.len() implies views_of(lines@)[k] == menu_lines(
            ps,
        )[k] by {
            if k == 0 {
            } else {
                let k0 = k - 1;
                assert(lines@[k0 + 1]@ == menu_line(k0 as nat, ps[k0]));
                assert(lines@[k]@ == menu_line((k - 1) as nat, ps[k - 1]));
            }
        }
        assert(views_of(lines@) =~~= menu_lines(ps));
        let linevs = menu_lines(ps);
        reveal_strlit("id|name|status");
        reveal_strlit("id");
        reveal_strlit("name");
        reveal_strlit("status");
        assert("id|name|status"@ =~= "id"@ + seq!['|'] + "name"@ + seq!['|'] + "status"@);
        assert(!"id"@.contains('|'));
        assert(!"name"@.contains('|'));
        assert(!"status"@.contains('|'));
        lemma_three_cells("id"@, "name"@, "status"@);
        assert(cells(linevs[0]).len() == 3);
        assert forall|j: int| 1 <= j < linevs.len() implies cells(#[trigger] linevs[j]).len()
            >= cells(linevs[0]).len() by {
            let p = ps[j - 1];
            assert(p == projects@[j - 1]@);
            lemma_stage_text_ok(p.stage);
            lemma_dec_rep_digits((j - 1) as nat);
            let d = dec_rep((j - 1) as nat);
            assert(!d.contains('|')) by {
                if d.contains('|') {
                    let i = choose|i: int| 0 <= i < d.len() && d[i] == '|';
                    assert(is_dec_digit(d[i]));
                }
            }
            lemma_three_cells(d, p.name, stage_text(p.stage));
            assert(cells(menu_line((j - 1) as nat, p)) == seq![d, p.name, stage_text(p.stage)]);
        }
        reveal_strlit("current");
        reveal_strlit("upcoming");
        assert forall|j: int| 0 <= j < linevs.len() implies (#[trigger] linevs[j]).len() + 1
            < usize::MAX by {
            if j > 0 {
                let p = ps[j - 1];
                assert(p == projects@[j - 1]@);
                assert(stage_text(p.stage).len() <= 8);
                lemma_dec_rep_digits((j - 1) as nat);
                assert(dec_rep((j - 1) as nat).len() <= ps.len());
                assert(linevs[j] == menu_line((j - 1) as nat, p));
            }
        }
    }
    render_measured(lines, Ghost(menu_lines(ps)))
}

/// Builds and renders a table whose lines each split into at least as
/// many cells as the header.
fn render_measured(lines: Vec<String>, Ghost(linevs): Ghost<Seq<Seq<char>>>) -> (r: String)
    requires
        views_of(lines@) == linevs,
        linevs.len() >= 1,
        forall|j: int| 1 <= j < linevs.len() ==> cells(#[trigger] linevs[j]).len() >= cells(
            linevs[0],
        ).len(),
        forall|j: int| 0 <= j < linevs.len() ==> (#[trigger] linevs[j]).len() + 1 < usize::MAX,
    ensures
        r@ == render_table(measured_cols(linevs), linevs[0], linevs.skip(1)),
{
    let mut table = Table::default();
    proof {
        assert forall|j: int| 0 <= j < lines@.len() implies #[trigger] lines@[j]@ == linevs[j]
            by {
            assert(views_of(lines@)[j] == lines@[j]@);
        }
    }
    let t = table.build(lines);
    proof {
        assert(table.headers@ == linevs[0]);
        assert(views_of(table.data@) =~~= linevs.skip(1));
        assert(table.columns@ =~= measured_cols(linevs)) by {
            assert forall|id: int| 0 <= id < table.columns@.len() implies table.columns@[id]
                == measured_cols(linevs)[id] by {
                assert(table.columns@[id] as nat == col_width(linevs[0], linevs.skip(1), id));
            }
        }
    }
    let out = table.get_table();
    proof {
        assert(render_table(table.columns@, table.headers@, views_of(table.data@))
            == render_table(measured_cols(linevs), linevs[0], linevs.skip(1)));
    }
    out
}

/// A project's sandbox name is empty when it is created and non-empty
/// once a promotion derives it: the underscore joint alone guarantees
/// that.
pub proof fn lemma_boxname_only_after_promotion(c: CreateOp, p: PromoteOp)
    ensures
        create_project_spec(c).boxname.len() == 0,
        promote_project_spec(p).boxname.len() > 0,
{
}

// ------------------------------------------------------------------
// Transactions persist well-formed projects, which round-trip.
// ------------------------------------------------------------------

/// A joined path inherits freedom from both separators.
proof fn lemma_join_field_ok(a: Seq<char>, b: Seq<char>)
    requires
        field_ok(a),
        field_ok(b),
    ensures
        field_ok(a + seq!['/'] + b),
        field_ok(a + seq!['_'] + b),
{
    assert(!seq!['/'].contains('|') && !seq!['/'].contains('\n')) by {
        assert(seq!['/'][0] == '/');
    }
    assert(!seq!['_'].contains('|') && !seq!['_'].contains('\n')) by {
        assert(seq!['_'][0] == '_');
    }
    crate::strkit::lemma_concat_free(a, seq!['/'], '|');
    crate::strkit::lemma_concat_free(a + seq!['/'], b, '|');
    crate::strkit::lemma_concat_free(a, seq!['/'], '\n');
    crate::strkit::lemma_concat_free(a + seq!['/'], b, '\n');
    crate::strkit::lemma_concat_free(a, seq!['_'], '|');
    crate::strkit::lemma_concat_free(a + seq!['_'], b, '|');
    crate::strkit::lemma_concat_free(a, seq!['_'], '\n');
    crate::strkit::lemma_concat_free(a + seq!['_'], b, '\n');
}

/// The derived record path is itself a record-safe field.
proof fn lemma_record_path_field_ok(config: Seq<char>, name: Seq<char>)
    requires
        field_ok(config),
        field_ok(name),
    ensures
        field_ok(record_path_spec(config, name)),
{
    reveal_strlit("/projects/");
    reveal_strlit(".conf");
    let parent = parent_dir_spec(config);
    assert(field_ok(parent)) by {
        if crate::strkit::last_index_of(config, '/') >= 0 {
            assert(-1 <= crate::strkit::last_index_of(config, '/') < config.len()) by {
                lemma_last_index_range(config, '/');
            }
            crate::strkit::lemma_take_free(
                config,
                crate::strkit::last_index_of(config, '/'),
                '|',
            );
            crate::strkit::lemma_take_free(
                config,
                crate::strkit::last_index_of(config, '/'),
                '\n',
            );
        }
    }
    assert(!"/projects/"@.contains('|') && !"/projects/"@.contains('\n'));
    assert(!".conf"@.contains('|') && !".conf"@.contains('\n'));
    crate::strkit::lemma_concat_free(parent, "/projects/"@, '|');
    crate::strkit::lemma_concat_free(parent + "/projects/"@, name, '|');
    crate::strkit::lemma_concat_free(parent + "/projects/"@ + name, ".conf"@, '|');
    crate::strkit::lemma_concat_free(parent, "/projects/"@, '\n');
    crate::strkit::lemma_concat_free(parent + "/projects/"@, name, '\n');
    crate::strkit::lemma_concat_free(parent + "/projects/"@ + name, ".conf"@, '\n');
}

/// The index of the last occurrence stays inside the string.
proof fn lemma_last_index_range(s: Seq<char>, c: char)
    ensures
        -1 <= crate::strkit::last_index_of(s, c) < s.len(),
    decreases s.len(),
{
    if s.len() > 0 && s.last() != c {
        lemma_last_index_range(s.drop_last(), c);
    }
}

/// The project a create transaction persists is well-formed whenever its
/// inputs are record-safe.
pub proof fn lemma_created_project_wf(op: CreateOp)
    requires
        op.name@.len() > 0,
        field_ok(op.name@),
        field_ok(op.config@),
        field_ok(op.upcoming_files@),
        field_ok(op.upcoming_notes@),
    ensures
        crate::project::project_wf(create_project_spec(op)),
{
    lemma_join_field_ok(op.upcoming_files@, op.name@);
    lemma_join_field_ok(op.upcoming_notes@, op.name@);
    lemma_record_path_field_ok(op.config@, op.name@);
}

/// The project a promotion persists is well-formed whenever its inputs
/// are record-safe.
pub proof fn lemma_promoted_project_wf(op: PromoteOp)
    requires
        op.name@.len() > 0,
        field_ok(op.name@),
        field_ok(op.config@),
        field_ok(op.current_files@),
        field_ok(op.current_notes@),
        field_ok(op.template@),
    ensures
        crate::project::project_wf(promote_project_spec(op)),
{
    lemma_join_field_ok(op.current_files@, op.name@);
    lemma_join_field_ok(op.current_notes@, op.name@);
    lemma_join_field_ok(op.template@, op.name@);
}

/// End to end: the record a create transaction writes loads back as
/// exactly the project it created.
pub proof fn lemma_create_persist_round_trip(op: CreateOp)
    requires
        op.name@.len() > 0,
        field_ok(op.name@),
        field_ok(op.config@),
        field_ok(op.upcoming_files@),
        field_ok(op.upcoming_notes@),
    ensures
        crate::project::parse_record_spec(
            crate::project::record_text_spec(create_project_spec(op)),
        ) == create_project_spec(op),
{
    lemma_created_project_wf(op);
    crate::project::lemma_record_roundtrip(create_project_spec(op));
    assert(crate::project::parse_record_spec(
        crate::project::record_text_spec(create_project_spec(op)),
    ) =~~= create_project_spec(op));
}

} // verus!
