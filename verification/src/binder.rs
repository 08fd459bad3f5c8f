//! The argument binder. A command descriptor's named parameters are
//! resolved against two sources: the process-wide context (settings values,
//! paths, the loaded project set) and the tokens the operator typed after
//! the command name. Binding either yields a complete ordered argument list
//! or an arity error; unresolved context names are reported as diagnostics
//! without aborting the rest of the binding.

use vstd::prelude::*;
use vstd::string::StrSliceExecFns;
use vstd::string::StringExecFns;

use crate::project::Project;
use crate::project::ProjectV;
use crate::project::project_views;
use crate::registry::ToolCommand;
use crate::registry::name_listed;
use crate::strkit::contains_char;
use crate::strkit::has_substring;
use crate::strkit::split_at_sep;
use crate::strkit::split_str;
use crate::strkit::str_eq;
use crate::strkit::views_of;

verus! {

/// One resolved parameter. Exactly one of the value fields is populated,
/// per the parameter's declared kind; provenance records whether the
/// operator supplied it and at which position.
pub struct ToolArgument {
    pub name: String,
    pub user_supplied: bool,
    pub optional: bool,
    pub position: Option<usize>,
    pub path: Option<String>,
    pub string: Option<String>,
    pub project: Option<Project>,
    pub projects: Option<Vec<Project>>,
    pub boolean: Option<bool>,
}

/// The mathematical image of a bound parameter.
#[verifier::ext_equal]
pub struct ToolArgumentV {
    pub name: Seq<char>,
    pub user_supplied: bool,
    pub optional: bool,
    pub position: Option<int>,
    pub path: Option<Seq<char>>,
    pub string: Option<Seq<char>>,
    pub project: Option<ProjectV>,
    pub projects: Option<Seq<ProjectV>>,
    pub boolean: Option<bool>,
}

impl View for ToolArgument {
    type V = ToolArgumentV;

    open spec fn view(&self) -> ToolArgumentV {
        ToolArgumentV {
            name: self.name@,
            user_supplied: self.user_supplied,
            optional: self.optional,
            position: match self.position {
                Some(u) => Some(u as int),
                None => None,
            },
            path: match self.path {
                Some(ref s) => Some(s@),
                None => None,
            },
            string: match self.string {
                Some(ref s) => Some(s@),
                None => None,
            },
            project: match self.project {
                Some(ref p) => Some(p@),
                None => None,
            },
            projects: match self.projects {
                Some(ref v) => Some(project_views(v@)),
                None => None,
            },
            boolean: self.boolean,
        }
    }
}

/// An argument with nothing filled in yet.
pub open spec fn empty_arg(name: Seq<char>) -> ToolArgumentV {
    ToolArgumentV {
        name,
        user_supplied: false,
        optional: false,
        position: None,
        path: None,
        string: None,
        project: None,
        projects: None,
        boolean: None,
    }
}

impl Default for ToolArgument {
    /// An unnamed, unfilled argument.
    fn default() -> (a: ToolArgument)
        ensures
            a@ == empty_arg(Seq::<char>::empty()),
    {
        let a = ToolArgument {
            name: String::new(),
            user_supplied: false,
            optional: false,
            position: None,
            path: None,
            string: None,
            project: None,
            projects: None,
            boolean: None,
        };
        proof {
            assert(a@ =~~= empty_arg(Seq::<char>::empty()));
        }
        a
    }
}

impl ToolArgument {
    /// A field-wise copy.
    pub fn duplicate(&self) -> (r: ToolArgument)
        ensures
            r@ == self@,
    {
        let r = ToolArgument {
            name: self.name.clone(),
            user_supplied: self.user_supplied,
            optional: self.optional,
            position: self.position,
            path: match &self.path {
                Some(s) => Some(s.clone()),
                None => None,
            },
            string: match &self.string {
                Some(s) => Some(s.clone()),
                None => None,
            },
            project: match &self.project {
                Some(p) => Some(p.duplicate()),
                None => None,
            },
            projects: match &self.projects {
                Some(v) => Some(crate::project::clone_projects(v)),
                None => None,
            },
            boolean: self.boolean,
        };
        proof {
            assert(r@ =~~= self@);
        }
        r
    }
}

/// The views of a vector of arguments.
pub open spec fn arg_views(v: Seq<ToolArgument>) -> Seq<ToolArgumentV> {
    v.map_values(|a: ToolArgument| a@)
}

/// The views of a vector of settings pairs.
pub open spec fn pair_views(v: Seq<(String, String)>) -> Seq<(Seq<char>, Seq<char>)> {
    v.map_values(|p: (String, String)| (p.0@, p.1@))
}

// ------------------------------------------------------------------
// Building the context snapshot's arguments.
// ------------------------------------------------------------------

/// One `active` argument for every active project among the first `upto`.
pub open spec fn active_args(ps: Seq<ProjectV>, upto: int) -> Seq<ToolArgumentV>
    decreases upto,
{
    if upto <= 0 {
        Seq::<ToolArgumentV>::empty()
    } else {
        let rest = active_args(ps, upto - 1);
        if ps[upto - 1].active {
            rest.push(ToolArgumentV { project: Some(ps[upto - 1]), ..empty_arg("active"@) })
        } else {
            rest
        }
    }
}

/// The argument one settings pair contributes, if its key is recognized.
pub open spec fn setting_arg(k: Seq<char>, v: Seq<char>) -> Option<ToolArgumentV> {
    if k == "templatebox"@ {
        Some(ToolArgumentV { string: Some(v), ..empty_arg(k) })
    } else if k == "current_notes"@ || k == "current_files"@ || k == "upcoming_files"@ || k
        == "upcoming_notes"@ || k == "tools"@ {
        Some(ToolArgumentV { path: Some(v), ..empty_arg(k) })
    } else if k == "distrobox"@ {
        Some(ToolArgumentV { boolean: Some(has_substring(v, "yes"@)), ..empty_arg(k) })
    } else {
        None
    }
}

/// The arguments of the first `upto` settings pairs.
pub open spec fn settings_args(pairs: Seq<(Seq<char>, Seq<char>)>, upto: int) -> Seq<ToolArgumentV>
    decreases upto,
{
    if upto <= 0 {
        Seq::<ToolArgumentV>::empty()
    } else {
        let rest = settings_args(pairs, upto - 1);
        match setting_arg(pairs[upto - 1].0, pairs[upto - 1].1) {
            Some(a) => rest.push(a),
            None => rest,
        }
    }
}

/// The whole context snapshot: active-project arguments, the project set,
/// the configuration path, then one argument per recognized setting.
pub open spec fn context_args_spec(
    ps: Seq<ProjectV>,
    config: Seq<char>,
    pairs: Seq<(Seq<char>, Seq<char>)>,
) -> Seq<ToolArgumentV> {
    active_args(ps, ps.len() as int) + seq![
        ToolArgumentV { projects: Some(ps), ..empty_arg("projects"@) },
        ToolArgumentV { path: Some(config), ..empty_arg("config"@) },
    ] + settings_args(pairs, pairs.len() as int)
}

/// Resolves the process-wide context into bindable arguments: the active
/// project, the project set, the configuration path, and every recognized
/// setting by name.
pub fn build_args(projects: &Vec<Project>, config: &String, settings: &Vec<(String, String)>) -> (r:
    Vec<ToolArgument>)
    ensures
        arg_views(r@) == context_args_spec(
            project_views(projects@),
            config@,
            pair_views(settings@),
        ),
{
    let ghost ps = project_views(projects@);
    let ghost pairs = pair_views(settings@);
    let mut args: Vec<ToolArgument> = Vec::new();
    let mut i: usize = 0;
    while i < projects.len()
        invariant
            ps == project_views(projects@),
            i <= projects@.len(),
            arg_views(args@) == active_args(ps, i as int),
        decreases projects@.len() - i,
    {
        proof {
            assert(ps[i as int] == projects@[i as int]@);
        }
        if projects[i].active {
            let mut a = ToolArgument::default();
            a.name = String::from_str("active");
            a.project = Some(projects[i].duplicate());
            proof {
                assert(a@ =~~= (ToolArgumentV { project: Some(ps[i as int]), ..empty_arg(
                    "active"@,
                ) }));
                assert(arg_views(args@.push(a)) =~~= arg_views(args@).push(a@));
                assert(arg_views(args@.push(a)) =~~= active_args(ps, i + 1));
            }
            args.push(a);
        } else {
            proof {
                assert(arg_views(args@) =~~= active_args(ps, i + 1));
            }
        }
        i += 1;
    }
    let mut projects_arg = ToolArgument::default();
    projects_arg.name = String::from_str("projects");
    projects_arg.projects = Some(crate::project::clone_projects(projects));
    proof {
        assert(projects_arg@ =~~= (ToolArgumentV { projects: Some(ps), ..empty_arg(
            "projects"@,
        ) }));
    }
    args.push(projects_arg);
    let mut config_arg = ToolArgument::default();
    config_arg.name = String::from_str("config");
    config_arg.path = Some(config.clone());
    proof {
        assert(config_arg@ =~~= (ToolArgumentV { path: Some(config@), ..empty_arg("config"@) }));
    }
    args.push(config_arg);
    let ghost head = active_args(ps, ps.len() as int) + seq![
        ToolArgumentV { projects: Some(ps), ..empty_arg("projects"@) },
        ToolArgumentV { path: Some(config@), ..empty_arg("config"@) },
    ];
    proof {
        assert(arg_views(args@) =~~= head);
    }
    let mut i: usize = 0;
    while i < settings.len()
        invariant
            ps == project_views(projects@),
            pairs == pair_views(settings@),
            i <= settings@.len(),
            arg_views(args@) == head + settings_args(pairs, i as int),
        decreases settings@.len() - i,
    {
        let ghost k = pairs[i as int].0;
        let ghost v = pairs[i as int].1;
        proof {
            assert(k == settings@[i as int].0@ && v == settings@[i as int].1@);
        }
        let key = &settings[i].0;
        let val = &settings[i].1;
        if str_eq(key.as_str(), "templatebox") {
            let mut a = ToolArgument::default();
            a.name = key.clone();
            a.string = Some(val.clone());
            proof {
                assert(a@ =~~= (ToolArgumentV { string: Some(v), ..empty_arg(k) }));
                assert(arg_views(args@.push(a)) =~~= arg_views(args@).push(a@));
                assert(arg_views(args@.push(a)) =~~= head + settings_args(pairs, i + 1));
            }
            args.push(a);
        } else if str_eq(key.as_str(), "current_notes") || str_eq(key.as_str(), "current_files")
            || str_eq(key.as_str(), "upcoming_files") || str_eq(key.as_str(), "upcoming_notes")
            || str_eq(key.as_str(), "tools") {
            let mut a = ToolArgument::default();
            a.name = key.clone();
            a.path = Some(val.clone());
            proof {
                assert(a@ =~~= (ToolArgumentV { path: Some(v), ..empty_arg(k) }));
                assert(arg_views(args@.push(a)) =~~= arg_views(args@).push(a@));
                assert(arg_views(args@.push(a)) =~~= head + settings_args(pairs, i + 1));
            }
            args.push(a);
        } else if str_eq(key.as_str(), "distrobox") {
            let mut a = ToolArgument::default();
            a.name = key.clone();
            a.boolean = Some(contains_sub_local(val.as_str()));
            proof {
                assert(a@ =~~= (ToolArgumentV { boolean: Some(has_substring(v, "yes"@)),
                    ..empty_arg(k) }));
                assert(arg_views(args@.push(a)) =~~= arg_views(args@).push(a@));
                assert(arg_views(args@.push(a)) =~~= head + settings_args(pairs, i + 1));
            }
            args.push(a);
        } else {
            proof {
                assert(setting_arg(k, v) is None);
                assert(arg_views(args@) =~~= head + settings_args(pairs, i + 1));
            }
        }
        i += 1;
    }
    proof {
        assert(arg_views(args@) =~~= context_args_spec(ps, config@, pairs));
    }
    args
}

/// Whether a `distrobox` setting turns the sandbox on.
fn contains_sub_local(v: &str) -> (r: bool)
    ensures
        r == has_substring(v@, "yes"@),
{
    crate::strkit::contains_sub(v, "yes")
}

// ------------------------------------------------------------------
// Binding a command against context and tokens.
// ------------------------------------------------------------------

/// Whether the context holds an argument named `n`.
pub open spec fn has_arg_named(ctx: Seq<ToolArgumentV>, n: Seq<char>) -> bool {
    exists|k: int| 0 <= k < ctx.len() && (#[trigger] ctx[k]).name == n
}

/// The context entries, among the first `upto`, whose name is declared as
/// a required context parameter, in context order.
pub open spec fn matched_ctx(
    ctx: Seq<ToolArgumentV>,
    names: Seq<Seq<char>>,
    upto: int,
) -> Seq<ToolArgumentV>
    decreases upto,
{
    if upto <= 0 {
        Seq::<ToolArgumentV>::empty()
    } else {
        let rest = matched_ctx(ctx, names, upto - 1);
        if name_listed(names, ctx[upto - 1].name) {
            rest.push(ctx[upto - 1])
        } else {
            rest
        }
    }
}

/// How many of the first `upto` context entries are named `n`.
pub open spec fn count_named(ctx: Seq<ToolArgumentV>, n: Seq<char>, upto: int) -> nat
    decreases upto,
{
    if upto <= 0 {
        0
    } else {
        count_named(ctx, n, upto - 1) + (if ctx[upto - 1].name == n {
            1nat
        } else {
            0nat
        })
    }
}

/// A `key=value` token is bound by name regardless of position.
pub open spec fn is_named_tok(t: Seq<char>) -> bool {
    t.contains('=')
}

/// The arguments the plain (positional) tokens among the first `upto`
/// bind: each is consumed by the next declared user parameter in order,
/// or kept under its own text once the declared parameters run out.
pub open spec fn positional_args(
    toks: Seq<Seq<char>>,
    user: Seq<Seq<char>>,
    upto: int,
) -> Seq<ToolArgumentV>
    decreases upto,
{
    if upto <= 0 {
        Seq::<ToolArgumentV>::empty()
    } else {
        let rest = positional_args(toks, user, upto - 1);
        let t = toks[upto - 1];
        if is_named_tok(t) {
            rest
        } else {
            rest.push(
                ToolArgumentV {
                    user_supplied: true,
                    position: Some(rest.len() as int),
                    string: Some(t),
                    ..empty_arg(
                        if rest.len() < user.len() {
                            user[rest.len() as int]
                        } else {
                            t
                        },
                    )
                },
            )
        }
    }
}

/// The arguments the `key=value` tokens among the first `upto` bind.
pub open spec fn named_args(toks: Seq<Seq<char>>, upto: int) -> Seq<ToolArgumentV>
    decreases upto,
{
    if upto <= 0 {
        Seq::<ToolArgumentV>::empty()
    } else {
        let rest = named_args(toks, upto - 1);
        let t = toks[upto - 1];
        if is_named_tok(t) {
            rest.push(
                ToolArgumentV {
                    user_supplied: true,
                    string: Some(split_at_sep(t, '=')[1]),
                    ..empty_arg(split_at_sep(t, '=')[0])
                },
            )
        } else {
            rest
        }
    }
}

/// The declared context parameters, among the first `upto`, that the
/// context cannot resolve: a best-effort diagnostic, not a failure.
pub open spec fn missing_ctx(
    req: Seq<Seq<char>>,
    ctx: Seq<ToolArgumentV>,
    upto: int,
) -> Seq<Seq<char>>
    decreases upto,
{
    if upto <= 0 {
        Seq::<Seq<char>>::empty()
    } else {
        let rest = missing_ctx(req, ctx, upto - 1);
        if has_arg_named(ctx, req[upto - 1]) {
            rest
        } else {
            rest.push(req[upto - 1])
        }
    }
}

/// A fully bound invocation.
pub struct Binding {
    /// Context arguments first, then positional, then named overrides.
    pub args: Vec<ToolArgument>,
    /// Whether the command runs interactively: an optionally interactive
    /// command falls back to dialog mode when its optional parameters are
    /// not all present.
    pub interactive: bool,
}

/// Either a complete binding or an arity failure.
pub enum BindOutcome {
    Bound(Binding),
    /// Too few (or too many) arguments: the declared parameter names (the
    /// required context names, then the required user names) and the
    /// counts, for the usage report.
    Arity { required: Vec<String>, required_context: usize, required_user: usize, given: usize },
}

/// The outcome together with the unresolved context names.
pub struct BindResult {
    pub outcome: BindOutcome,
    pub missing: Vec<String>,
}

/// Whether `n` occurs in a list of declared parameter names.
fn name_in_list(names: &Vec<String>, n: &str) -> (r: bool)
    ensures
        r == name_listed(views_of(names@), n@),
{
    let mut i: usize = 0;
    while i < names.len()
        invariant
            i <= names@.len(),
            forall|k: int| 0 <= k < i ==> views_of(names@)[k] != n@,
        decreases names@.len() - i,
    {
        if str_eq(names[i].as_str(), n) {
            proof {
                assert(views_of(names@)[i as int] == n@);
            }
            return true;
        }
        i += 1;
    }
    false
}

/// Whether the context resolves the name `n`.
fn ctx_has(context: &Vec<ToolArgument>, n: &str) -> (r: bool)
    ensures
        r == has_arg_named(arg_views(context@), n@),
{
    let mut i: usize = 0;
    while i < context.len()
        invariant
            i <= context@.len(),
            forall|k: int| 0 <= k < i ==> (#[trigger] arg_views(context@)[k]).name != n@,
        decreases context@.len() - i,
    {
        if str_eq(context[i].name.as_str(), n) {
            proof {
                assert(arg_views(context@)[i as int].name == n@);
            }
            return true;
        }
        i += 1;
    }
    false
}

/// Binds a command: context parameters are resolved by name, plain tokens
/// positionally against the declared user parameters, and `key=value`
/// tokens by name. The invocation is complete exactly when the resolved
/// context count plus the positional count equals the declared
/// required-context plus required-user count; otherwise binding fails with
/// an arity error carrying the declared counts. Unresolved context names
/// are returned as diagnostics either way.
pub fn bind_command(cmd: &ToolCommand, context: &Vec<ToolArgument>, tokens: &Vec<String>) -> (r:
    BindResult)
    ensures
        ({
            let reqv = views_of(cmd.req_args@);
            let userv = views_of(cmd.user_args@);
            let optv = views_of(cmd.optional_args@);
            let ctxv = arg_views(context@);
            let toks = views_of(tokens@);
            let m = matched_ctx(ctxv, reqv, ctxv.len() as int);
            let pos = positional_args(toks, userv, toks.len() as int);
            let nmd = named_args(toks, toks.len() as int);
            let correct = m.len() + pos.len() == reqv.len() + userv.len();
            &&& (r.outcome is Bound) == correct
            &&& (match r.outcome {
                BindOutcome::Bound(b) => arg_views(b.args@) == m + pos + nmd && b.interactive == (
                if cmd.optionally_interactive {
                    (m + pos + nmd).len() != reqv.len() + userv.len() + optv.len()
                } else {
                    cmd.interactive
                }),
                BindOutcome::Arity { required, required_context, required_user, given } => {
                    &&& views_of(required@) == reqv + userv
                    &&& required_context == reqv.len()
                    &&& required_user == userv.len()
                    &&& given == (m + pos + nmd).len()
                },
            })
            &&& views_of(r.missing@) == missing_ctx(reqv, ctxv, reqv.len() as int)
        }),
{
    let ghost reqv = views_of(cmd.req_args@);
    let ghost userv = views_of(cmd.user_args@);
    let ghost ctxv = arg_views(context@);
    let ghost toks = views_of(tokens@);
    let mut args: Vec<ToolArgument> = Vec::new();
    let mut i: usize = 0;
    while i < context.len()
        invariant
            reqv == views_of(cmd.req_args@),
            ctxv == arg_views(context@),
            i <= context@.len(),
            arg_views(args@) == matched_ctx(ctxv, reqv, i as int),
        decreases context@.len() - i,
    {
        proof {
            assert(ctxv[i as int] == context@[i as int]@);
        }
        if name_in_list(&cmd.req_args, context[i].name.as_str()) {
            let a = context[i].duplicate();
            proof {
                assert(arg_views(args@.push(a)) =~~= arg_views(args@).push(a@));
                assert(arg_views(args@.push(a)) =~~= matched_ctx(ctxv, reqv, i + 1));
            }
            args.push(a);
        } else {
            proof {
                assert(arg_views(args@) =~~= matched_ctx(ctxv, reqv, i + 1));
            }
        }
        i += 1;
    }
    let m_count = args.len();
    let ghost m = matched_ctx(ctxv, reqv, ctxv.len() as int);
    proof {
        assert(m_count == m.len());
    }
    let mut pos_count: usize = 0;
    let mut j: usize = 0;
    while j < tokens.len()
        invariant
            reqv == views_of(cmd.req_args@),
            userv == views_of(cmd.user_args@),
            ctxv == arg_views(context@),
            toks == views_of(tokens@),
            m == matched_ctx(ctxv, reqv, ctxv.len() as int),
            j <= tokens@.len(),
            pos_count == positional_args(toks, userv, j as int).len(),
            pos_count <= j,
            arg_views(args@) == m + positional_args(toks, userv, j as int),
        decreases tokens@.len() - j,
    {
        proof {
            assert(toks[j as int] == tokens@[j as int]@);
        }
        if !contains_char(tokens[j].as_str(), '=') {
            let mut a = ToolArgument::default();
            if pos_count < cmd.user_args.len() {
                a.name = cmd.user_args[pos_count].clone();
            } else {
                a.name = tokens[j].clone();
            }
            a.string = Some(tokens[j].clone());
            a.user_supplied = true;
            a.position = Some(pos_count);
            proof {
                let rest = positional_args(toks, userv, j as int);
                assert(a@ =~~= (ToolArgumentV {
                    user_supplied: true,
                    position: Some(rest.len() as int),
                    string: Some(toks[j as int]),
                    ..empty_arg(
                        if rest.len() < userv.len() {
                            userv[rest.len() as int]
                        } else {
                            toks[j as int]
                        },
                    )
                }));
                assert(arg_views(args@.push(a)) =~~= arg_views(args@).push(a@));
                assert(arg_views(args@.push(a)) =~~= m + positional_args(toks, userv, j + 1));
            }
            args.push(a);
            pos_count += 1;
        } else {
            proof {
                assert(arg_views(args@) =~~= m + positional_args(toks, userv, j + 1));
            }
        }
        j += 1;
    }
    let ghost pos = positional_args(toks, userv, toks.len() as int);
    let correct = (m_count as u128) + (pos_count as u128) == (cmd.req_args.len() as u128)
        + (cmd.user_args.len() as u128);
    proof {
        assert(correct == (m.len() + pos.len() == reqv.len() + userv.len()));
    }
    let mut j: usize = 0;
    while j < tokens.len()
        invariant
            reqv == views_of(cmd.req_args@),
            userv == views_of(cmd.user_args@),
            ctxv == arg_views(context@),
            toks == views_of(tokens@),
            m == matched_ctx(ctxv, reqv, ctxv.len() as int),
            pos == positional_args(toks, userv, toks.len() as int),
            j <= tokens@.len(),
            arg_views(args@) == m + pos + named_args(toks, j as int),
        decreases tokens@.len() - j,
    {
        proof {
            assert(toks[j as int] == tokens@[j as int]@);
        }
        if contains_char(tokens[j].as_str(), '=') {
            let parts = split_str(tokens[j].as_str(), '=');
            proof {
                crate::strkit::lemma_split_has_sep(toks[j as int], '=');
            }
            let mut a = ToolArgument::default();
            a.name = parts[0].clone();
            a.string = Some(parts[1].clone());
            a.user_supplied = true;
            proof {
                assert(a@ =~~= (ToolArgumentV {
                    user_supplied: true,
                    string: Some(split_at_sep(toks[j as int], '=')[1]),
                    ..empty_arg(split_at_sep(toks[j as int], '=')[0])
                }));
                assert(arg_views(args@.push(a)) =~~= arg_views(args@).push(a@));
                assert(arg_views(args@.push(a)) =~~= m + pos + named_args(toks, j + 1));
            }
            args.push(a);
        } else {
            proof {
                assert(arg_views(args@) =~~= m + pos + named_args(toks, j + 1));
            }
        }
        j += 1;
    }
    let ghost nmd = named_args(toks, toks.len() as int);
    let mut missing: Vec<String> = Vec::new();
    let mut k: usize = 0;
    while k < cmd.req_args.len()
        invariant
            reqv == views_of(cmd.req_args@),
            ctxv == arg_views(context@),
            k <= cmd.req_args@.len(),
            views_of(missing@) == missing_ctx(reqv, ctxv, k as int),
        decreases cmd.req_args@.len() - k,
    {
        proof {
            assert(reqv[k as int] == cmd.req_args@[k as int]@);
        }
        if !ctx_has(context, cmd.req_args[k].as_str()) {
            let n = cmd.req_args[k].clone();
            proof {
                assert(views_of(missing@.push(n)) =~~= views_of(missing@).push(n@));
                assert(views_of(missing@.push(n)) =~~= missing_ctx(reqv, ctxv, k + 1));
            }
            missing.push(n);
        } else {
            proof {
                assert(views_of(missing@) =~~= missing_ctx(reqv, ctxv, k + 1));
            }
        }
        k += 1;
    }
    proof {
        assert(args@.len() == (m + pos + nmd).len());
    }
    if correct {
        let interactive = if cmd.optionally_interactive {
            (args.len() as u128) != (cmd.req_args.len() as u128) + (cmd.user_args.len() as u128)
                + (cmd.optional_args.len() as u128)
        } else {
            cmd.interactive
        };
        BindResult { outcome: BindOutcome::Bound(Binding { args, interactive }), missing }
    } else {
        let mut required: Vec<String> = Vec::new();
        let mut k: usize = 0;
        while k < cmd.req_args.len()
            invariant
                reqv == views_of(cmd.req_args@),
                k <= cmd.req_args@.len(),
                required@.len() == k,
                forall|j: int| 0 <= j < k ==> #[trigger] required@[j]@ == reqv[j],
            decreases cmd.req_args@.len() - k,
        {
            required.push(cmd.req_args[k].clone());
            k += 1;
        }
        let mut k: usize = 0;
        while k < cmd.user_args.len()
            invariant
                reqv == views_of(cmd.req_args@),
                userv == views_of(cmd.user_args@),
                k <= cmd.user_args@.len(),
                required@.len() == reqv.len() + k,
                forall|j: int| 0 <= j < reqv.len() ==> #[trigger] required@[j]@ == reqv[j],
                forall|j: int|
                    reqv.len() <= j < reqv.len() + k ==> #[trigger] required@[j]@ == userv[j
                        - reqv.len()],
            decreases cmd.user_args@.len() - k,
        {
            required.push(cmd.user_args[k].clone());
            k += 1;
        }
        proof {
            assert(views_of(required@) =~~= reqv + userv);
        }
        BindResult {
            outcome: BindOutcome::Arity {
                required,
                required_context: cmd.req_args.len(),
                required_user: cmd.user_args.len(),
                given: args.len(),
            },
            missing,
        }
    }
}

/// Splits a console line into the command name and its tokens.
pub fn parse_command_line(input: &str) -> (r: (String, Vec<String>))
    ensures
        r.0@ == split_at_sep(input@, ' ')[0],
        views_of(r.1@) == split_at_sep(input@, ' ').skip(1),
{
    let parts = split_str(input, ' ');
    proof {
        crate::strkit::lemma_split_at_sep_len(input@, ' ');
    }
    let name = parts[0].clone();
    let mut rest: Vec<String> = Vec::new();
    let mut i: usize = 1;
    while i < parts.len()
        invariant
            parts@.len() == split_at_sep(input@, ' ').len(),
            forall|k: int|
                0 <= k < parts@.len() ==> #[trigger] parts@[k]@ == split_at_sep(input@, ' ')[k],
            1 <= i <= parts@.len(),
            rest@.len() == i - 1,
            forall|k: int| 0 <= k < i - 1 ==> #[trigger] rest@[k]@ == split_at_sep(input@, ' ')[k
                + 1],
        decreases parts@.len() - i,
    {
        rest.push(parts[i].clone());
        i += 1;
    }
    proof {
        assert(views_of(rest@) =~~= split_at_sep(input@, ' ').skip(1));
    }
    (name, rest)
}

// ------------------------------------------------------------------
// The arity law.
// ------------------------------------------------------------------

/// No two context entries share a name.
pub open spec fn ctx_names_unique(ctx: Seq<ToolArgumentV>) -> bool {
    forall|i: int, j: int|
        0 <= i < ctx.len() && 0 <= j < ctx.len() && i != j ==> (#[trigger] ctx[i]).name
            != (#[trigger] ctx[j]).name
}

/// Pairwise distinct declared names.
pub open spec fn distinct_names(names: Seq<Seq<char>>) -> bool {
    forall|i: int, j: int|
        0 <= i < names.len() && 0 <= j < names.len() && i != j ==> (#[trigger] names[i])
            != (#[trigger] names[j])
}

proof fn lemma_name_listed_push(names: Seq<Seq<char>>, n: Seq<char>, q: Seq<char>)
    ensures
        name_listed(names.push(n), q) <==> (name_listed(names, q) || q == n),
{
    if name_listed(names.push(n), q) {
        let k = choose|k: int| 0 <= k < names.push(n).len() && names.push(n)[k] == q;
        if k < names.len() {
            assert(names[k] == q);
        }
    }
    if name_listed(names, q) {
        let k = choose|k: int| 0 <= k < names.len() && names[k] == q;
        assert(names.push(n)[k] == q);
    }
    if q == n {
        assert(names.push(n)[names.len() as int] == q);
    }
}

proof fn lemma_matched_no_names(ctx: Seq<ToolArgumentV>, upto: int)
    ensures
        matched_ctx(ctx, Seq::<Seq<char>>::empty(), upto).len() == 0,
    decreases upto,
{
    if upto > 0 {
        lemma_matched_no_names(ctx, upto - 1);
        assert(!name_listed(Seq::<Seq<char>>::empty(), ctx[upto - 1].name));
    }
}

proof fn lemma_matched_push_name(
    ctx: Seq<ToolArgumentV>,
    names: Seq<Seq<char>>,
    n: Seq<char>,
    upto: int,
)
    requires
        !name_listed(names, n),
        upto <= ctx.len(),
    ensures
        matched_ctx(ctx, names.push(n), upto).len() == matched_ctx(ctx, names, upto).len()
            + count_named(ctx, n, upto),
    decreases upto,
{
    if upto > 0 {
        lemma_matched_push_name(ctx, names, n, upto - 1);
        lemma_name_listed_push(names, n, ctx[upto - 1].name);
    }
}

proof fn lemma_count_named_unique(ctx: Seq<ToolArgumentV>, n: Seq<char>, upto: int)
    requires
        ctx_names_unique(ctx),
        upto <= ctx.len(),
    ensures
        count_named(ctx, n, upto) == (if exists|k: int|
            0 <= k < upto && (#[trigger] ctx[k]).name == n {
            1nat
        } else {
            0nat
        }),
    decreases upto,
{
    if upto > 0 {
        lemma_count_named_unique(ctx, n, upto - 1);
        if ctx[upto - 1].name == n {
            assert(!(exists|k: int| 0 <= k < upto - 1 && (#[trigger] ctx[k]).name == n)) by {
                if exists|k: int| 0 <= k < upto - 1 && (#[trigger] ctx[k]).name == n {
                    let k = choose|k: int| 0 <= k < upto - 1 && (#[trigger] ctx[k]).name == n;
                    assert(ctx[k].name != ctx[upto - 1].name);
                }
            }
            assert(exists|k: int| 0 <= k < upto && (#[trigger] ctx[k]).name == n) by {
                assert(ctx[upto - 1].name == n);
            }
        } else {
            assert((exists|k: int| 0 <= k < upto && (#[trigger] ctx[k]).name == n) <==> (exists|
                k: int|
                0 <= k < upto - 1 && (#[trigger] ctx[k]).name == n)) by {
                if exists|k: int| 0 <= k < upto && (#[trigger] ctx[k]).name == n {
                    let k = choose|k: int| 0 <= k < upto && (#[trigger] ctx[k]).name == n;
                    assert(k < upto - 1);
                }
            }
        }
    }
}

/// With unique context names, distinct declared names, and every declared
/// name resolvable, the matched context count is exactly the number of
/// declared context parameters.
pub proof fn lemma_matched_total(ctx: Seq<ToolArgumentV>, req: Seq<Seq<char>>)
    requires
        ctx_names_unique(ctx),
        distinct_names(req),
        forall|k: int| 0 <= k < req.len() ==> has_arg_named(ctx, #[trigger] req[k]),
    ensures
        matched_ctx(ctx, req, ctx.len() as int).len() == req.len(),
    decreases req.len(),
{
    if req.len() == 0 {
        assert(req =~~= Seq::<Seq<char>>::empty());
        lemma_matched_no_names(ctx, ctx.len() as int);
    } else {
        let t = req.drop_last();
        let n = req.last();
        assert(req =~~= t.push(n));
        assert(distinct_names(t)) by {
            assert(forall|i: int, j: int|
                0 <= i < t.len() && 0 <= j < t.len() && i != j ==> (#[trigger] t[i])
                    != (#[trigger] t[j])) by {
                assert(forall|i: int| 0 <= i < t.len() ==> t[i] == req[i]);
            }
        }
        assert(forall|k: int| 0 <= k < t.len() ==> has_arg_named(ctx, #[trigger] t[k])) by {
            assert(forall|i: int| 0 <= i < t.len() ==> t[i] == req[i]);
        }
        lemma_matched_total(ctx, t);
        assert(!name_listed(t, n)) by {
            if name_listed(t, n) {
                let k = choose|k: int| 0 <= k < t.len() && t[k] == n;
                assert(req[k] == req[req.len() - 1]);
            }
        }
        lemma_matched_push_name(ctx, t, n, ctx.len() as int);
        assert(has_arg_named(ctx, n)) by {
            assert(req[req.len() - 1] == n);
        }
        lemma_count_named_unique(ctx, n, ctx.len() as int);
        assert(count_named(ctx, n, ctx.len() as int) == 1) by {
            let k = choose|k: int| 0 <= k < ctx.len() && (#[trigger] ctx[k]).name == n;
            assert(0 <= k < ctx.len() && ctx[k].name == n);
        }
    }
}

/// Plain tokens each bind one positional argument.
pub proof fn lemma_positional_plain(toks: Seq<Seq<char>>, user: Seq<Seq<char>>, upto: int)
    requires
        forall|k: int| 0 <= k < toks.len() ==> !is_named_tok(#[trigger] toks[k]),
        upto <= toks.len(),
    ensures
        positional_args(toks, user, upto).len() == upto || upto < 0,
    decreases upto,
{
    if upto > 0 {
        lemma_positional_plain(toks, user, upto - 1);
    }
}

/// The arity law: in a well-formed test context (unique names, every
/// declared context parameter resolvable) a command with distinct declared
/// names binds exactly `required-context + required-user` arguments from
/// the context and as many plain tokens as are supplied. With exactly
/// `required-user` plain tokens the bound count meets the declared count,
/// so binding succeeds; with one fewer it falls short by one, an arity
/// error.
pub proof fn lemma_bind_arity(
    ctx: Seq<ToolArgumentV>,
    req: Seq<Seq<char>>,
    user: Seq<Seq<char>>,
    toks: Seq<Seq<char>>,
)
    requires
        ctx_names_unique(ctx),
        distinct_names(req),
        forall|k: int| 0 <= k < req.len() ==> has_arg_named(ctx, #[trigger] req[k]),
        forall|k: int| 0 <= k < toks.len() ==> !is_named_tok(#[trigger] toks[k]),
    ensures
        matched_ctx(ctx, req, ctx.len() as int).len() + positional_args(
            toks,
            user,
            toks.len() as int,
        ).len() == req.len() + toks.len(),
        toks.len() == user.len() ==> matched_ctx(ctx, req, ctx.len() as int).len()
            + positional_args(toks, user, toks.len() as int).len() == req.len() + user.len(),
        user.len() > 0 && toks.len() == user.len() - 1 ==> matched_ctx(
            ctx,
            req,
            ctx.len() as int,
        ).len() + positional_args(toks, user, toks.len() as int).len() != req.len() + user.len(),
{
    lemma_matched_total(ctx, req);
    lemma_positional_plain(toks, user, toks.len() as int);
}

// ------------------------------------------------------------------
// Exactly one value per bound parameter.
// ------------------------------------------------------------------

/// How many of an argument's value fields are populated.
pub open spec fn value_count(a: ToolArgumentV) -> int {
    (if a.path is Some {
        1int
    } else {
        0int
    }) + (if a.string is Some {
        1int
    } else {
        0int
    }) + (if a.project is Some {
        1int
    } else {
        0int
    }) + (if a.projects is Some {
        1int
    } else {
        0int
    }) + (if a.boolean is Some {
        1int
    } else {
        0int
    })
}

proof fn lemma_active_args_single(ps: Seq<ProjectV>, upto: int)
    ensures
        forall|k: int|
            0 <= k < active_args(ps, upto).len() ==> value_count(
                #[trigger] active_args(ps, upto)[k],
            ) == 1,
    decreases upto,
{
    if upto > 0 {
        lemma_active_args_single(ps, upto - 1);
        let whole = active_args(ps, upto);
        let rest = active_args(ps, upto - 1);
        assert forall|k: int| 0 <= k < whole.len() implies value_count(#[trigger] whole[k])
            == 1 by {
            if k < rest.len() {
                assert(whole[k] == rest[k]);
            } else {
                assert(whole[k] == (ToolArgumentV { project: Some(ps[upto - 1]), ..empty_arg(
                    "active"@,
                ) }));
            }
        }
    }
}

proof fn lemma_settings_args_single(pairs: Seq<(Seq<char>, Seq<char>)>, upto: int)
    ensures
        forall|k: int|
            0 <= k < settings_args(pairs, upto).len() ==> value_count(
                #[trigger] settings_args(pairs, upto)[k],
            ) == 1,
    decreases upto,
{
    if upto > 0 {
        lemma_settings_args_single(pairs, upto - 1);
        let whole = settings_args(pairs, upto);
        let rest = settings_args(pairs, upto - 1);
        assert forall|k: int| 0 <= k < whole.len() implies value_count(#[trigger] whole[k])
            == 1 by {
            if k < rest.len() {
                assert(whole[k] == rest[k]);
            } else {
                assert(setting_arg(pairs[upto - 1].0, pairs[upto - 1].1) matches Some(a)
                    && whole[k] == a && value_count(a) == 1);
            }
        }
    }
}

/// Every argument the context snapshot resolves carries exactly one
/// value, per its parameter's declared kind.
pub proof fn lemma_context_args_single_valued(
    ps: Seq<ProjectV>,
    config: Seq<char>,
    pairs: Seq<(Seq<char>, Seq<char>)>,
)
    ensures
        forall|k: int|
            0 <= k < context_args_spec(ps, config, pairs).len() ==> value_count(
                #[trigger] context_args_spec(ps, config, pairs)[k],
            ) == 1,
{
    lemma_active_args_single(ps, ps.len() as int);
    lemma_settings_args_single(pairs, pairs.len() as int);
    let whole = context_args_spec(ps, config, pairs);
    let head = active_args(ps, ps.len() as int);
    let mid = seq![
        ToolArgumentV { projects: Some(ps), ..empty_arg("projects"@) },
        ToolArgumentV { path: Some(config), ..empty_arg("config"@) },
    ];
    let tail = settings_args(pairs, pairs.len() as int);
    assert forall|k: int| 0 <= k < whole.len() implies value_count(#[trigger] whole[k]) == 1 by {
        if k < head.len() {
            assert(whole[k] == head[k]);
        } else if k < head.len() + 2 {
            assert(whole[k] == mid[k - head.len()]);
        } else {
            assert(whole[k] == tail[k - head.len() - 2]);
        }
    }
}

proof fn lemma_positional_args_single(toks: Seq<Seq<char>>, user: Seq<Seq<char>>, upto: int)
    ensures
        forall|k: int|
            0 <= k < positional_args(toks, user, upto).len() ==> value_count(
                #[trigger] positional_args(toks, user, upto)[k],
            ) == 1,
    decreases upto,
{
    if upto > 0 {
        lemma_positional_args_single(toks, user, upto - 1);
        let whole = positional_args(toks, user, upto);
        let rest = positional_args(toks, user, upto - 1);
        assert forall|k: int| 0 <= k < whole.len() implies value_count(#[trigger] whole[k])
            == 1 by {
            if k < rest.len() {
                assert(whole[k] == rest[k]);
            } else {
                assert(!is_named_tok(toks[upto - 1]));
                assert(whole[k] == whole.last());
            }
        }
    }
}

proof fn lemma_named_args_single(toks: Seq<Seq<char>>, upto: int)
    ensures
        forall|k: int|
            0 <= k < named_args(toks, upto).len() ==> value_count(
                #[trigger] named_args(toks, upto)[k],
            ) == 1,
    decreases upto,
{
    if upto > 0 {
        lemma_named_args_single(toks, upto - 1);
        let whole = named_args(toks, upto);
        let rest = named_args(toks, upto - 1);
        assert forall|k: int| 0 <= k < whole.len() implies value_count(#[trigger] whole[k])
            == 1 by {
            if k < rest.len() {
                assert(whole[k] == rest[k]);
            } else {
                assert(is_named_tok(toks[upto - 1]));
                assert(whole[k] == whole.last());
            }
        }
    }
}

proof fn lemma_matched_from_ctx(ctx: Seq<ToolArgumentV>, names: Seq<Seq<char>>, upto: int)
    requires
        upto <= ctx.len(),
    ensures
        forall|k: int|
            0 <= k < matched_ctx(ctx, names, upto).len() ==> ctx.contains(
                #[trigger] matched_ctx(ctx, names, upto)[k],
            ),
    decreases upto,
{
    if upto > 0 {
        lemma_matched_from_ctx(ctx, names, upto - 1);
        if name_listed(names, ctx[upto - 1].name) {
            let whole = matched_ctx(ctx, names, upto);
            assert forall|k: int| 0 <= k < whole.len() implies ctx.contains(
                #[trigger] whole[k],
            ) by {
                if k < whole.len() - 1 {
                    assert(whole[k] == matched_ctx(ctx, names, upto - 1)[k]);
                } else {
                    assert(whole[k] == ctx[upto - 1]);
                }
            }
        }
    }
}

/// Every argument a binding produces carries exactly one value: context
/// entries are taken as the context resolved them, and each operator
/// token binds exactly its text.
pub proof fn lemma_bound_args_single_valued(
    ctx: Seq<ToolArgumentV>,
    req: Seq<Seq<char>>,
    user: Seq<Seq<char>>,
    toks: Seq<Seq<char>>,
)
    requires
        forall|k: int| 0 <= k < ctx.len() ==> value_count(#[trigger] ctx[k]) == 1,
    ensures
        ({
            let bound = matched_ctx(ctx, req, ctx.len() as int) + positional_args(
                toks,
                user,
                toks.len() as int,
            ) + named_args(toks, toks.len() as int);
            forall|k: int| 0 <= k < bound.len() ==> value_count(#[trigger] bound[k]) == 1
        }),
{
    lemma_matched_from_ctx(ctx, req, ctx.len() as int);
    lemma_positional_args_single(toks, user, toks.len() as int);
    lemma_named_args_single(toks, toks.len() as int);
    let m = matched_ctx(ctx, req, ctx.len() as int);
    let pos = positional_args(toks, user, toks.len() as int);
    let nmd = named_args(toks, toks.len() as int);
    let bound = m + pos + nmd;
    assert forall|k: int| 0 <= k < bound.len() implies value_count(#[trigger] bound[k]) == 1 by {
        if k < m.len() {
            assert(bound[k] == m[k]);
            assert(ctx.contains(m[k]));
            let i = choose|i: int| 0 <= i < ctx.len() && ctx[i] == m[k];
            assert(value_count(ctx[i]) == 1);
        } else if k < m.len() + pos.len() {
            assert(bound[k] == pos[k - m.len()]);
        } else {
            assert(bound[k] == nmd[k - m.len() - pos.len()]);
        }
    }
}

} // verus!
