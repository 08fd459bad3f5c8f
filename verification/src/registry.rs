//! The fixed catalog of operations the console can dispatch. Each command
//! descriptor declares the context parameters it needs, the user parameters
//! it consumes, its optional parameters, and whether it may enter
//! interactive mode. The catalog is immutable after construction.

use vstd::prelude::*;
use vstd::string::StringExecFns;

verus! {

/// The operation a command descriptor dispatches to.
#[derive(Clone, Copy, PartialEq, Eq, Structural, Debug)]
pub enum Operation {
    /// Render the project table.
    List,
    /// Create a new upcoming project.
    Create,
    /// Promote an upcoming project to current.
    Promote,
}

/// One entry of the catalog.
pub struct ToolCommand {
    pub name: String,
    pub help: String,
    /// Context-supplied parameter names, resolved from process state.
    pub req_args: Vec<String>,
    /// User-supplied positional parameter names.
    pub user_args: Vec<String>,
    /// Optional parameter names; their absence sends an optionally
    /// interactive command into interactive mode.
    pub optional_args: Vec<String>,
    pub interactive: bool,
    pub optionally_interactive: bool,
    pub op: Operation,
}

impl ToolCommand {
    /// A descriptor with no parameters declared yet.
    pub fn new(name: String, help: String, op: Operation) -> (c: ToolCommand)
        ensures
            c.name@ == name@,
            c.help@ == help@,
            c.req_args@.len() == 0,
            c.user_args@.len() == 0,
            c.optional_args@.len() == 0,
            c.interactive == false,
            c.optionally_interactive == false,
            c.op == op,
    {
        ToolCommand {
            name,
            help,
            req_args: Vec::new(),
            user_args: Vec::new(),
            optional_args: Vec::new(),
            interactive: false,
            optionally_interactive: false,
            op,
        }
    }
}

/// The fixed vocabulary of context parameter names a well-formed context
/// can resolve.
pub open spec fn context_vocabulary() -> Seq<Seq<char>> {
    seq![
        "projects"@,
        "config"@,
        "templatebox"@,
        "current_files"@,
        "current_notes"@,
        "upcoming_files"@,
        "upcoming_notes"@,
        "tools"@,
        "distrobox"@,
    ]
}

/// Whether `n` is one of the listed names.
pub open spec fn name_listed(names: Seq<Seq<char>>, n: Seq<char>) -> bool {
    exists|k: int| 0 <= k < names.len() && names[k] == n
}

/// Builds the catalog: the list, create and promote operations, each with
/// the context parameters it needs. Every required name is drawn from the
/// fixed context vocabulary, so a well-formed context can bind them all.
pub fn build_tools() -> (r: Vec<ToolCommand>)
    ensures
        r@.len() == 3,
        ({
            let c = r@[0];
            &&& c.name@ == "list_projects"@
            &&& c.op == Operation::List
            &&& !c.interactive
            &&& !c.optionally_interactive
            &&& c.req_args@.len() == 1
            &&& c.req_args@[0]@ == "projects"@
            &&& c.user_args@.len() == 0
            &&& c.optional_args@.len() == 0
        }),
        ({
            let c = r@[1];
            &&& c.name@ == "new_project"@
            &&& c.op == Operation::Create
            &&& !c.interactive
            &&& c.optionally_interactive
            &&& c.req_args@.len() == 4
            &&& c.req_args@[0]@ == "config"@
            &&& c.req_args@[1]@ == "upcoming_files"@
            &&& c.req_args@[2]@ == "upcoming_notes"@
            &&& c.req_args@[3]@ == "templatebox"@
            &&& c.user_args@.len() == 0
            &&& c.optional_args@.len() == 1
            &&& c.optional_args@[0]@ == "name"@
        }),
        ({
            let c = r@[2];
            &&& c.name@ == "promote_project"@
            &&& c.op == Operation::Promote
            &&& !c.interactive
            &&& c.optionally_interactive
            &&& c.req_args@.len() == 4
            &&& c.req_args@[0]@ == "projects"@
            &&& c.req_args@[1]@ == "current_files"@
            &&& c.req_args@[2]@ == "current_notes"@
            &&& c.req_args@[3]@ == "templatebox"@
            &&& c.user_args@.len() == 0
            &&& c.optional_args@.len() == 2
            &&& c.optional_args@[0]@ == "name"@
            &&& c.optional_args@[1]@ == "home"@
        }),
        forall|i: int, k: int|
            0 <= i < r@.len() && 0 <= k < r@[i].req_args@.len() ==> name_listed(
                context_vocabulary(),
                #[trigger] r@[i].req_args@[k]@,
            ),
{
    let mut tool_commands: Vec<ToolCommand> = Vec::new();

    let mut list_projects = ToolCommand::new(
        String::from_str("list_projects"),
        String::from_str("lists the currently tracked projects"),
        Operation::List,
    );
    list_projects.req_args.push(String::from_str("projects"));
    tool_commands.push(list_projects);

    let mut new_project = ToolCommand::new(
        String::from_str("new_project"),
        String::from_str(
            "creates a new project. you can give it a project name as an argument, or it will prompt you for the name.",
        ),
        Operation::Create,
    );
    new_project.req_args.push(String::from_str("config"));
    new_project.req_args.push(String::from_str("upcoming_files"));
    new_project.req_args.push(String::from_str("upcoming_notes"));
    new_project.req_args.push(String::from_str("templatebox"));
    new_project.optional_args.push(String::from_str("name"));
    new_project.optionally_interactive = true;
    tool_commands.push(new_project);

    let mut promote_project = ToolCommand::new(
        String::from_str("promote_project"),
        String::from_str(
            "promote a project to be promoted from upcoming to curent. Optionally takes a name= argument and a home= argument.",
        ),
        Operation::Promote,
    );
    promote_project.req_args.push(String::from_str("projects"));
    promote_project.req_args.push(String::from_str("current_files"));
    promote_project.req_args.push(String::from_str("current_notes"));
    promote_project.req_args.push(String::from_str("templatebox"));
    promote_project.optional_args.push(String::from_str("name"));
    promote_project.optional_args.push(String::from_str("home"));
    promote_project.optionally_interactive = true;
    tool_commands.push(promote_project);

    proof {
        let v = context_vocabulary();
        assert(v[0] == "projects"@ && v[1] == "config"@ && v[2] == "templatebox"@ && v[3]
            == "current_files"@ && v[4] == "current_notes"@ && v[5] == "upcoming_files"@ && v[6]
            == "upcoming_notes"@ && v[7] == "tools"@ && v[8] == "distrobox"@);
        assert forall|i: int, k: int|
            0 <= i < tool_commands@.len() && 0 <= k < tool_commands@[i].req_args@.len()
                implies name_listed(
            context_vocabulary(),
            #[trigger] tool_commands@[i].req_args@[k]@,
        ) by {
            let n = tool_commands@[i].req_args@[k]@;
            if i == 0 {
                assert(v[0] == n);
            } else if i == 1 {
                if k == 0 {
                    assert(v[1] == n);
                } else if k == 1 {
                    assert(v[5] == n);
                } else if k == 2 {
                    assert(v[6] == n);
                } else {
                    assert(v[2] == n);
                }
            } else {
                if k == 0 {
                    assert(v[0] == n);
                } else if k == 1 {
                    assert(v[3] == n);
                } else if k == 2 {
                    assert(v[4] == n);
                } else {
                    assert(v[2] == n);
                }
            }
        }
    }
    tool_commands
}

/// The catalog entry a typed command name selects, if any.
pub fn find_command(commands: &Vec<ToolCommand>, name: &str) -> (r: Option<usize>)
    ensures
        (match r {
            Some(i) => 0 <= i < commands@.len() && commands@[i as int].name@ == name@ && (forall|
                k: int,
            |
                0 <= k < i ==> (#[trigger] commands@[k]).name@ != name@),
            None => forall|k: int|
                0 <= k < commands@.len() ==> (#[trigger] commands@[k]).name@ != name@,
        }),
{
    let mut i: usize = 0;
    while i < commands.len()
        invariant
            i <= commands@.len(),
            forall|k: int| 0 <= k < i ==> (#[trigger] commands@[k]).name@ != name@,
        decreases commands@.len() - i,
    {
        if crate::strkit::str_eq(commands[i].name.as_str(), name) {
            return Some(i);
        }
        i += 1;
    }
    None
}

} // verus!
