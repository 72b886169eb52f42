//! External commands and the other steps that the tool performs, as plain
//! values: the library decides them, the program runs them.

use vstd::prelude::*;

verus! {

/// A command to run: the program, its arguments, and the directory to run
/// it in (the current one when `None`).
#[derive(Debug)]
pub struct ShellCommand {
    pub program: String,
    pub args: Vec<String>,
    pub current_dir: Option<String>,
}

/// The text of a command, as contracts speak of it.
pub struct CommandSpec {
    pub program: Seq<char>,
    pub args: Seq<Seq<char>>,
    pub current_dir: Option<Seq<char>>,
}

/// The texts of a sequence of strings.
pub open spec fn texts(v: Seq<String>) -> Seq<Seq<char>> {
    v.map_values(|s: String| s@)
}

/// The text of an optional string.
pub open spec fn opt_text(o: Option<String>) -> Option<Seq<char>> {
    match o {
        Some(s) => Some(s@),
        None => None,
    }
}

impl View for ShellCommand {
    type V = CommandSpec;

    open spec fn view(&self) -> CommandSpec {
        CommandSpec {
            program: self.program@,
            args: texts(self.args@),
            current_dir: opt_text(self.current_dir),
        }
    }
}

/// One step of a test run, performed in order by the program.
#[derive(Debug)]
pub enum Step {
    /// Make `out_dir` a checkout of `branch` of the repository at `url`:
    /// pull it if it exists, clone it otherwise.
    Checkout { url: String, branch: String, out_dir: String },
    /// Run a command and wait for it.
    Run(ShellCommand),
    /// Set an environment variable of the process.
    SetEnv(String, String),
    /// Remove an environment variable of the process.
    RemoveEnv(String),
}

/// The content of a step, as contracts speak of it.
pub enum StepSpec {
    Checkout(Seq<char>, Seq<char>, Seq<char>),
    Run(CommandSpec),
    SetEnv(Seq<char>, Seq<char>),
    RemoveEnv(Seq<char>),
}

impl View for Step {
    type V = StepSpec;

    open spec fn view(&self) -> StepSpec {
        match self {
            Step::Checkout { url, branch, out_dir } => StepSpec::Checkout(url@, branch@, out_dir@),
            Step::Run(c) => StepSpec::Run(c@),
            Step::SetEnv(k, v) => StepSpec::SetEnv(k@, v@),
            Step::RemoveEnv(k) => StepSpec::RemoveEnv(k@),
        }
    }
}

/// The contents of a sequence of steps.
pub open spec fn step_specs(v: Seq<Step>) -> Seq<StepSpec> {
    v.map_values(|s: Step| s@)
}

/// An owned copy of `s`.
pub fn owned(s: &str) -> (r: String)
    ensures
        r@ == s@,
{
    String::from_str(s)
}

/// The command that runs `program` with `args` in the current directory.
pub fn command(program: &str, args: Vec<String>) -> (r: ShellCommand)
    ensures
        r@ == (CommandSpec { program: program@, args: texts(args@), current_dir: None }),
{
    ShellCommand { program: owned(program), args, current_dir: None }
}

/// The command that runs `program` with `args` in `dir`.
pub fn command_in(dir: &str, program: &str, args: Vec<String>) -> (r: ShellCommand)
    ensures
        r@ == (CommandSpec { program: program@, args: texts(args@), current_dir: Some(dir@) }),
{
    ShellCommand { program: owned(program), args, current_dir: Some(owned(dir)) }
}

/// The git command that brings `out_dir` up to date with the repository:
/// `git -C <out_dir> pull` when the directory already exists, otherwise
/// `git clone --branch <branch> <url> <out_dir>`.
pub fn checkout_command(url: &str, branch: &str, out_dir: &str, exists: bool) -> (r: ShellCommand)
    ensures
        r@.program == "git"@,
        r@.current_dir is None,
        exists ==> r@.args == seq!["-C"@, out_dir@, "pull"@],
        !exists ==> r@.args == seq!["clone"@, "--branch"@, branch@, url@, out_dir@],
{
    if exists {
        let args: Vec<String> = vec![owned("-C"), owned(out_dir), owned("pull")];
        let r = command("git", args);
        assert(r@.args =~= seq!["-C"@, out_dir@, "pull"@]);
        r
    } else {
        let args: Vec<String> = vec![
            owned("clone"),
            owned("--branch"),
            owned(branch),
            owned(url),
            owned(out_dir),
        ];
        let r = command("git", args);
        assert(r@.args =~= seq!["clone"@, "--branch"@, branch@, url@, out_dir@]);
        r
    }
}

/// Adding a step adds its content.
pub proof fn lemma_step_specs_push(v: Seq<Step>, s: Step)
    ensures
        step_specs(v.push(s)) == step_specs(v).push(s@),
{
    assert(step_specs(v.push(s)) =~= step_specs(v).push(s@));
}

} // verus!
