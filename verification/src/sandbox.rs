//! The sandbox environment adapter: the exact command lines handed to the
//! external container tool, and the provisioning sequence as a step
//! machine. The tool is an unreliable external dependency; a command that
//! cannot even be launched is a hard error. For `stop` and `rm` the exit
//! status is ignored (stopping or removing an absent environment is
//! expected), while `create` and the smoke test are judged by their exit
//! status, the explicit policy this adapter commits to.

use vstd::prelude::*;
use vstd::string::StrSliceExecFns;
use vstd::string::StringExecFns;

use crate::strkit::views_of;

verus! {

/// One invocation of the sandbox tool: its arguments, in order.
pub struct SandboxCmd {
    pub args: Vec<String>,
}

/// `stop --root <name>`.
pub open spec fn stop_argv(name: Seq<char>) -> Seq<Seq<char>> {
    seq!["stop"@, "--root"@, name]
}

/// `rm --root <name>`.
pub open spec fn rm_argv(name: Seq<char>) -> Seq<Seq<char>> {
    seq!["rm"@, "--root"@, name]
}

/// `enter --root <name> -- exit`: the smoke test that the environment
/// starts at all.
pub open spec fn enter_argv(name: Seq<char>) -> Seq<Seq<char>> {
    seq!["enter"@, "--root"@, name, "--"@, "exit"@]
}

/// `create --root --clone <template> --init --volume <files>:/pentest:rw
/// --volume <tools>:/tools:rw --name <name>`: clone the template with the
/// project files and the shared tools bind-mounted at fixed points.
pub open spec fn create_argv(
    template: Seq<char>,
    files: Seq<char>,
    tools: Seq<char>,
    name: Seq<char>,
) -> Seq<Seq<char>> {
    seq![
        "create"@,
        "--root"@,
        "--clone"@,
        template,
        "--init"@,
        "--volume"@,
        files + ":/pentest:rw"@,
        "--volume"@,
        tools + ":/tools:rw"@,
        "--name"@,
        name,
    ]
}

/// Builds the `stop` command.
pub fn stop_cmd(name: &str) -> (r: SandboxCmd)
    ensures
        views_of(r.args@) == stop_argv(name@),
{
    let mut args: Vec<String> = Vec::new();
    args.push(String::from_str("stop"));
    args.push(String::from_str("--root"));
    args.push(String::from_str(name));
    proof {
        assert(views_of(args@) =~~= stop_argv(name@));
    }
    SandboxCmd { args }
}

/// Builds the `rm` command.
pub fn rm_cmd(name: &str) -> (r: SandboxCmd)
    ensures
        views_of(r.args@) == rm_argv(name@),
{
    let mut args: Vec<String> = Vec::new();
    args.push(String::from_str("rm"));
    args.push(String::from_str("--root"));
    args.push(String::from_str(name));
    proof {
        assert(views_of(args@) =~~= rm_argv(name@));
    }
    SandboxCmd { args }
}

/// Builds the smoke-test command.
pub fn enter_exit_cmd(name: &str) -> (r: SandboxCmd)
    ensures
        views_of(r.args@) == enter_argv(name@),
{
    let mut args: Vec<String> = Vec::new();
    args.push(String::from_str("enter"));
    args.push(String::from_str("--root"));
    args.push(String::from_str(name));
    args.push(String::from_str("--"));
    args.push(String::from_str("exit"));
    proof {
        assert(views_of(args@) =~~= enter_argv(name@));
    }
    SandboxCmd { args }
}

/// Builds the `create` command.
pub fn create_cmd(template: &str, files: &str, tools: &str, name: &str) -> (r: SandboxCmd)
    ensures
        views_of(r.args@) == create_argv(template@, files@, tools@, name@),
{
    let mut args: Vec<String> = Vec::new();
    args.push(String::from_str("create"));
    args.push(String::from_str("--root"));
    args.push(String::from_str("--clone"));
    args.push(String::from_str(template));
    args.push(String::from_str("--init"));
    args.push(String::from_str("--volume"));
    let mut v1 = String::from_str(files);
    v1.append(":/pentest:rw");
    args.push(v1);
    args.push(String::from_str("--volume"));
    let mut v2 = String::from_str(tools);
    v2.append(":/tools:rw");
    args.push(v2);
    args.push(String::from_str("--name"));
    args.push(String::from_str(name));
    proof {
        assert(views_of(args@) =~~= create_argv(template@, files@, tools@, name@));
    }
    SandboxCmd { args }
}

// ------------------------------------------------------------------
// The provisioning sequence.
// ------------------------------------------------------------------

#[derive(Clone, Copy, PartialEq, Eq, Structural, Debug)]
pub enum SandboxStep {
    /// Stop the project's own environment, should one linger.
    StopProject,
    /// Stop the template environment before cloning it.
    StopTemplate,
    /// Remove the project's old environment.
    Remove,
    /// Clone the template with the project volumes.
    Create,
    /// Enter and exit once, to prove the environment starts.
    Smoke,
    Done,
    Failed,
}

/// The sandbox provisioning sequence for one promoted project.
pub struct SandboxOp {
    pub step: SandboxStep,
    pub boxname: String,
    pub template: String,
    pub files: String,
    pub tools: String,
}

/// Which steps have a command to run.
pub open spec fn sandbox_has_action(s: SandboxStep) -> bool {
    !(s == SandboxStep::Done || s == SandboxStep::Failed)
}

/// Whether a step's result counts as failure: every step fails when the
/// tool cannot be launched; `create` and the smoke test also fail on a
/// non-zero exit, while `stop` and `rm` ignore the exit status because
/// the environment may legitimately not exist.
pub open spec fn sandbox_step_fails(s: SandboxStep, launched: bool, exit_ok: bool) -> bool {
    if s == SandboxStep::Create || s == SandboxStep::Smoke {
        !launched || !exit_ok
    } else {
        !launched
    }
}

/// The transition table of the provisioning sequence.
pub open spec fn sandbox_next_step(s: SandboxStep, launched: bool, exit_ok: bool) -> SandboxStep {
    if sandbox_step_fails(s, launched, exit_ok) {
        SandboxStep::Failed
    } else {
        match s {
            SandboxStep::StopProject => SandboxStep::StopTemplate,
            SandboxStep::StopTemplate => SandboxStep::Remove,
            SandboxStep::Remove => SandboxStep::Create,
            SandboxStep::Create => SandboxStep::Smoke,
            SandboxStep::Smoke => SandboxStep::Done,
            _ => s,
        }
    }
}

/// A step report with the performer's account of what went wrong, when
/// there is one.
pub open spec fn fail_note_spec(head: Seq<char>, detail: Seq<char>) -> Seq<char> {
    head + (if detail.len() > 0 {
        "\n"@ + detail
    } else {
        Seq::<char>::empty()
    })
}

/// Builds a step report.
fn fail_note(head: &str, detail: &str) -> (r: String)
    ensures
        r@ == fail_note_spec(head@, detail@),
{
    let mut s = String::from_str(head);
    if detail.unicode_len() > 0 {
        s.append("\n");
        s.append(detail);
    }
    proof {
        assert(s@ =~= fail_note_spec(head@, detail@));
    }
    s
}

/// The failure report of each provisioning step, carrying the tool's or
/// the launcher's account of the cause.
pub open spec fn sandbox_fail_msg(s: SandboxStep, detail: Seq<char>) -> Seq<char> {
    match s {
        SandboxStep::StopProject => fail_note_spec("Error stopping project distrobox!"@, detail),
        SandboxStep::StopTemplate => fail_note_spec("Error stopping template box!"@, detail),
        SandboxStep::Remove => fail_note_spec("Error removing distrobox!"@, detail),
        SandboxStep::Create => fail_note_spec("Error creating distrobox!"@, detail),
        _ => fail_note_spec("Error starting distrobox!"@, detail),
    }
}

impl SandboxOp {
    /// Starts provisioning `boxname` by cloning `template`, mounting the
    /// project's files tree and the shared tools tree.
    pub fn new(boxname: &str, template: &str, files: &str, tools: &str) -> (op: SandboxOp)
        ensures
            op.step == SandboxStep::StopProject,
            op.boxname@ == boxname@,
            op.template@ == template@,
            op.files@ == files@,
            op.tools@ == tools@,
    {
        SandboxOp {
            step: SandboxStep::StopProject,
            boxname: String::from_str(boxname),
            template: String::from_str(template),
            files: String::from_str(files),
            tools: String::from_str(tools),
        }
    }

    /// The command the current step runs, if the sequence is running.
    pub fn next_cmd(&self) -> (r: Option<SandboxCmd>)
        ensures
            (r is Some) == sandbox_has_action(self.step),
            self.step == SandboxStep::StopProject ==> (r matches Some(c) && views_of(c.args@)
                == stop_argv(self.boxname@)),
            self.step == SandboxStep::StopTemplate ==> (r matches Some(c) && views_of(c.args@)
                == stop_argv(self.template@)),
            self.step == SandboxStep::Remove ==> (r matches Some(c) && views_of(c.args@)
                == rm_argv(self.boxname@)),
            self.step == SandboxStep::Create ==> (r matches Some(c) && views_of(c.args@)
                == create_argv(self.template@, self.files@, self.tools@, self.boxname@)),
            self.step == SandboxStep::Smoke ==> (r matches Some(c) && views_of(c.args@)
                == enter_argv(self.boxname@)),
    {
        match self.step {
            SandboxStep::StopProject => Some(stop_cmd(self.boxname.as_str())),
            SandboxStep::StopTemplate => Some(stop_cmd(self.template.as_str())),
            SandboxStep::Remove => Some(rm_cmd(self.boxname.as_str())),
            SandboxStep::Create => Some(
                create_cmd(
                    self.template.as_str(),
                    self.files.as_str(),
                    self.tools.as_str(),
                    self.boxname.as_str(),
                ),
            ),
            SandboxStep::Smoke => Some(enter_exit_cmd(self.boxname.as_str())),
            _ => None,
        }
    }

    /// Folds one command's result: `launched` says whether the subprocess
    /// could be started at all, `exit_ok` whether it reported success,
    /// and `detail` carries the launcher's account of a failure (empty
    /// when there is none).
    pub fn on_result(&mut self, launched: bool, exit_ok: bool, detail: &str) -> (o:
        crate::lifecycle::StepOutcome)
        requires
            sandbox_has_action(old(self).step),
        ensures
            final(self).step == sandbox_next_step(old(self).step, launched, exit_ok),
            final(self).boxname@ == old(self).boxname@,
            final(self).template@ == old(self).template@,
            final(self).files@ == old(self).files@,
            final(self).tools@ == old(self).tools@,
            sandbox_step_fails(old(self).step, launched, exit_ok) ==> (o matches
                crate::lifecycle::StepOutcome::Failed(m) && m@ == sandbox_fail_msg(
                old(self).step,
                detail@,
            )),
            !sandbox_step_fails(old(self).step, launched, exit_ok) && old(self).step
                != SandboxStep::Smoke ==> (o is Continue),
            !sandbox_step_fails(old(self).step, launched, exit_ok) && old(self).step
                == SandboxStep::Smoke ==> (o matches crate::lifecycle::StepOutcome::Finished(m)
                && m@ == "Success!"@),
    {
        let failed = match self.step {
            SandboxStep::Create => !launched || !exit_ok,
            SandboxStep::Smoke => !launched || !exit_ok,
            _ => !launched,
        };
        if failed {
            let msg = match self.step {
                SandboxStep::StopProject => fail_note("Error stopping project distrobox!", detail),
                SandboxStep::StopTemplate => fail_note("Error stopping template box!", detail),
                SandboxStep::Remove => fail_note("Error removing distrobox!", detail),
                SandboxStep::Create => fail_note("Error creating distrobox!", detail),
                _ => fail_note("Error starting distrobox!", detail),
            };
            self.step = SandboxStep::Failed;
            return crate::lifecycle::StepOutcome::Failed(msg);
        }
        match self.step {
            SandboxStep::StopProject => {
                self.step = SandboxStep::StopTemplate;
                crate::lifecycle::StepOutcome::Continue
            },
            SandboxStep::StopTemplate => {
                self.step = SandboxStep::Remove;
                crate::lifecycle::StepOutcome::Continue
            },
            SandboxStep::Remove => {
                self.step = SandboxStep::Create;
                crate::lifecycle::StepOutcome::Continue
            },
            SandboxStep::Create => {
                self.step = SandboxStep::Smoke;
                crate::lifecycle::StepOutcome::Continue
            },
            _ => {
                self.step = SandboxStep::Done;
                crate::lifecycle::StepOutcome::Finished(String::from_str("Success!"))
            },
        }
    }
}

} // verus!
