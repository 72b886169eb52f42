//! Fixtures and conformance testing with Firedancer's solana-conformance
//! harness: where things lie, which steps prepare the harness, how the
//! targets are built and run, and how a run's outcome is read.

use vstd::prelude::*;
use crate::address::Address;
use crate::command::{
    CommandSpec, ShellCommand, Step, StepSpec, command, command_in, lemma_step_specs_push, owned,
    step_specs, texts,
};
use crate::program::{
    Program, fixtures_dir, program_id_text, program_name, skipped_fixtures, snake_case_name,
};
use crate::text::{contains, contains_text, join_path, joined_path, lemma_joined_path_relative};

verus! {

/// Where the harness is checked out.
pub open spec fn conformance_root() -> Seq<char> {
    "./solana-conformance"@
}

/// The solfuzz-agave checkout inside the harness.
pub open spec fn solfuzz_dir() -> Seq<char> {
    joined_path(conformance_root(), "impl/solfuzz-agave"@)
}

/// The test-vectors checkout inside the harness.
pub open spec fn test_vectors_dir() -> Seq<char> {
    joined_path(conformance_root(), "impl/test-vectors"@)
}

/// The directory that receives the built targets, relative to the harness.
pub open spec fn targets_subdir() -> Seq<char> {
    "impl/lib"@
}

/// The checkout of the program's own repository inside the harness.
pub open spec fn program_repo_dir() -> Seq<char> {
    joined_path(conformance_root(), "impl/program-repo"@)
}

/// The fixtures that Mollusk generated, stored in the program's repository
/// under `program/fuzz`.
pub open spec fn mollusk_fixtures_dir() -> Seq<char> {
    joined_path(joined_path(joined_path(program_repo_dir(), "program"@), "fuzz"@), "blob"@)
}

/// Firedancer's fixtures for `p`.
pub open spec fn firedancer_fixtures_dir(p: Program) -> Seq<char> {
    joined_path(test_vectors_dir(), fixtures_dir(p))
}

/// The fixtures that a handler runs, whether or not it set the harness up:
/// Mollusk's in the program's repository, or Firedancer's test vectors.
pub open spec fn handler_fixtures_dir(p: Program, use_mollusk_fixtures: bool) -> Seq<char> {
    if use_mollusk_fixtures {
        mollusk_fixtures_dir()
    } else {
        firedancer_fixtures_dir(p)
    }
}

/// The path of the ELF of `p` in `elf_directory`.
pub open spec fn program_elf_path(p: Program, elf_directory: Seq<char>) -> Seq<char> {
    joined_path(elf_directory, snake_case_name(p) + ".so"@)
}

/// The program's ELF lies at the ELF directory joined with the program's
/// ELF name: its snake-case name and `.so` (where `genesis::elf_path` puts
/// an ELF of that name, and what `Program::elf_name` returns).
pub proof fn lemma_program_elf_path(p: Program, elf_directory: Seq<char>)
    ensures
        program_elf_path(p, elf_directory) == joined_path(elf_directory, snake_case_name(p) + ".so"@),
{
}

/// The manifest of solfuzz-agave.
pub open spec fn solfuzz_manifest() -> Seq<char> {
    joined_path(solfuzz_dir(), "Cargo.toml"@)
}

/// The library that building solfuzz-agave produces.
pub open spec fn solfuzz_library() -> Seq<char> {
    joined_path(solfuzz_dir(), "target/x86_64-unknown-linux-gnu/release/libsolfuzz_agave.so"@)
}

/// Where a built target named `file` is placed.
pub open spec fn target_file(file: Seq<char>) -> Seq<char> {
    joined_path(joined_path(conformance_root(), targets_subdir()), file)
}

/// The file removed to skip the fixture `fix` of the fixtures in `dir`.
pub open spec fn skipped_fixture_file(dir: Seq<char>, fix: Seq<char>) -> Seq<char> {
    joined_path(joined_path(dir, fix), ".fix"@)
}

/// The directory in which the harness leaves the protobufs of failed tests.
pub open spec fn failed_protobufs_dir() -> Seq<char> {
    joined_path(conformance_root(), "test_results/failed_protobufs"@)
}

/// The steps that set the harness up: check out solana-conformance and
/// solfuzz-agave; then, for Mollusk's fixtures, check out the `main` branch
/// of the program's repository, and otherwise check out the test vectors and
/// remove the fixtures skipped for the program; then fetch the protobufs and
/// install the harness's dependencies.
pub open spec fn setup_steps(p: Program, use_mollusk_fixtures: bool) -> Seq<StepSpec> {
    let clones = seq![
        StepSpec::Checkout(
            "https://github.com/firedancer-io/solana-conformance.git"@,
            "main"@,
            conformance_root(),
        ),
        StepSpec::Checkout(
            "https://github.com/firedancer-io/solfuzz-agave.git"@,
            "agave-v2.3.1"@,
            solfuzz_dir(),
        ),
    ];
    let fixtures = if use_mollusk_fixtures {
        seq![
            StepSpec::Checkout(
                "https://github.com/solana-program/"@ + program_name(p) + ".git"@,
                "main"@,
                program_repo_dir(),
            ),
        ]
    } else {
        seq![
            StepSpec::Checkout(
                "https://github.com/firedancer-io/test-vectors.git"@,
                "main"@,
                test_vectors_dir(),
            ),
        ] + skipped_fixtures(p).map_values(
            |fix: Seq<char>|
                StepSpec::Run(
                    CommandSpec {
                        program: "rm"@,
                        args: seq![skipped_fixture_file(firedancer_fixtures_dir(p), fix)],
                        current_dir: None,
                    },
                ),
        )
    };
    let prepare = seq![
        StepSpec::Run(
            CommandSpec {
                program: "make"@,
                args: seq!["-j"@, "-C"@, "impl/solfuzz-agave"@, "fetch_proto"@],
                current_dir: Some(conformance_root()),
            },
        ),
        StepSpec::Run(
            CommandSpec {
                program: "bash"@,
                args: seq!["install_ubuntu_lite.sh"@],
                current_dir: Some(conformance_root()),
            },
        ),
    ];
    clones + fixtures + prepare
}

/// The command that creates the targets directory inside the harness.
pub open spec fn make_targets_dir_command() -> CommandSpec {
    CommandSpec {
        program: "mkdir"@,
        args: seq!["-p"@, targets_subdir()],
        current_dir: Some(conformance_root()),
    }
}

/// The cargo arguments that build solfuzz-agave as a library for x86-64
/// Linux, followed by `extra`.
pub open spec fn solfuzz_build_args(extra: Seq<Seq<char>>) -> Seq<Seq<char>> {
    seq![
        "build"@,
        "--manifest-path"@,
        solfuzz_manifest(),
        "--lib"@,
        "--release"@,
        "--target"@,
        "x86_64-unknown-linux-gnu"@,
    ] + extra
}

/// The command that moves the built library to `target`.
pub open spec fn move_library_command(target: Seq<char>) -> CommandSpec {
    CommandSpec { program: "mv"@, args: seq![solfuzz_library(), target], current_dir: None }
}

/// The steps that build the builtin target and place it as `builtin.so`.
pub open spec fn builtin_build_steps() -> Seq<StepSpec> {
    seq![
        StepSpec::Run(make_targets_dir_command()),
        StepSpec::Run(
            CommandSpec {
                program: "cargo"@,
                args: solfuzz_build_args(seq![]),
                current_dir: None,
            },
        ),
        StepSpec::Run(move_library_command(target_file("builtin.so"@))),
    ]
}

/// The cargo feature that selects the Core BPF target: in conformance mode
/// the target is built to be compared with the builtin.
pub open spec fn bpf_feature(conformance_mode: bool) -> Seq<char> {
    if conformance_mode {
        "core-bpf-conformance"@
    } else {
        "core-bpf"@
    }
}

/// The steps that build the Core BPF target from the ELF at `elf_path` for
/// the program at `program_id`, and place it as `bpf.so`. The environment
/// tells the build which program and ELF to use, and is cleared afterwards.
pub open spec fn bpf_build_steps(
    program_id: Seq<char>,
    elf_path: Seq<char>,
    cwd: Seq<char>,
    conformance_mode: bool,
) -> Seq<StepSpec> {
    seq![
        StepSpec::Run(make_targets_dir_command()),
        StepSpec::SetEnv("CORE_BPF_PROGRAM_ID"@, program_id),
        StepSpec::SetEnv("CORE_BPF_TARGET"@, joined_path(cwd, elf_path)),
        StepSpec::SetEnv("FORCE_RECOMPILE"@, "true"@),
        StepSpec::Run(
            CommandSpec {
                program: "cargo"@,
                args: solfuzz_build_args(seq!["--features"@, bpf_feature(conformance_mode)]),
                current_dir: None,
            },
        ),
        StepSpec::Run(move_library_command(target_file("bpf.so"@))),
        StepSpec::RemoveEnv("CORE_BPF_PROGRAM_ID"@),
        StepSpec::RemoveEnv("CORE_BPF_TARGET"@),
        StepSpec::RemoveEnv("FORCE_RECOMPILE"@),
    ]
}

/// Building the Core BPF target leaves the environment as it found it:
/// every variable that a step sets is removed by a later step.
pub proof fn lemma_bpf_build_clears_environment(
    program_id: Seq<char>,
    elf_path: Seq<char>,
    cwd: Seq<char>,
    conformance_mode: bool,
)
    ensures
        ({
            let steps = bpf_build_steps(program_id, elf_path, cwd, conformance_mode);
            forall|i: int|
                0 <= i < steps.len() ==> (#[trigger] steps[i] matches StepSpec::SetEnv(k, v)
                    ==> exists|j: int| i < j < steps.len() && steps[j] == StepSpec::RemoveEnv(k))
        }),
{
    let steps = bpf_build_steps(program_id, elf_path, cwd, conformance_mode);
    assert forall|i: int|
        0 <= i < steps.len() implies (#[trigger] steps[i] matches StepSpec::SetEnv(k, v)
            ==> exists|j: int| i < j < steps.len() && steps[j] == StepSpec::RemoveEnv(k)) by {
        if i == 1 {
            assert(steps[6] == StepSpec::RemoveEnv("CORE_BPF_PROGRAM_ID"@));
        } else if i == 2 {
            assert(steps[7] == StepSpec::RemoveEnv("CORE_BPF_TARGET"@));
        } else if i == 3 {
            assert(steps[8] == StepSpec::RemoveEnv("FORCE_RECOMPILE"@));
        }
    }
}

/// With Firedancer's fixtures, setting up removes every skipped fixture of
/// the program, each once and in the order of the list: the step after the
/// three checkouts that comes `i`-th removes `<fixtures>/<i-th skipped
/// fixture>/.fix`, and no other step is added. With Mollusk's fixtures,
/// nothing is removed.
pub proof fn lemma_setup_removes_each_skipped_fixture(p: Program)
    ensures
        setup_steps(p, false).len() == skipped_fixtures(p).len() + 5,
        forall|i: int|
            0 <= i < skipped_fixtures(p).len() ==> setup_steps(p, false)[3 + i] == StepSpec::Run(
                CommandSpec {
                    program: "rm"@,
                    args: seq![
                        joined_path(
                            joined_path(firedancer_fixtures_dir(p), #[trigger] skipped_fixtures(p)[i]),
                            ".fix"@,
                        ),
                    ],
                    current_dir: None,
                },
            ),
        setup_steps(p, true).len() == 5,
        forall|i: int|
            0 <= i < 5 ==> !(#[trigger] setup_steps(p, true)[i] matches StepSpec::Run(c)
                && c.program == "rm"@),
{
    reveal_strlit("rm");
    reveal_strlit("make");
    reveal_strlit("bash");
    assert("rm"@.len() == 2);
    assert("make"@.len() == 4);
    assert("bash"@.len() == 4);
    let steps = setup_steps(p, false);
    let skipped = skipped_fixtures(p);
    assert forall|i: int| 0 <= i < skipped.len() implies steps[3 + i] == StepSpec::Run(
        CommandSpec {
            program: "rm"@,
            args: seq![joined_path(joined_path(firedancer_fixtures_dir(p), #[trigger] skipped[i]), ".fix"@)],
            current_dir: None,
        },
    ) by {}
}

/// The two lengths that tell the built targets apart.
proof fn lemma_target_files_differ()
    ensures
        target_file("bpf.so"@).len() == 36,
        target_file("builtin.so"@).len() == 40,
{
    reveal_strlit("./solana-conformance");
    reveal_strlit("impl/lib");
    reveal_strlit("bpf.so");
    reveal_strlit("builtin.so");
    assert("./solana-conformance"@.len() == 20);
    assert("impl/lib"@.len() == 8);
    lemma_joined_path_relative(conformance_root(), targets_subdir());
    let dir = joined_path(conformance_root(), targets_subdir());
    assert(dir.last() == 'b');
    lemma_joined_path_relative(dir, "bpf.so"@);
    lemma_joined_path_relative(dir, "builtin.so"@);
}

/// Building the builtin target moves the built library to `builtin.so`,
/// the path it records, and only there.
pub proof fn lemma_builtin_build_places_builtin_target()
    ensures
        exists|i: int|
            0 <= i < builtin_build_steps().len() && (#[trigger] builtin_build_steps()[i] matches StepSpec::Run(c)
                && c.program == "mv"@),
        forall|i: int|
            0 <= i < builtin_build_steps().len() && (#[trigger] builtin_build_steps()[i] matches StepSpec::Run(c)
                && c.program == "mv"@) ==> (builtin_build_steps()[i] matches StepSpec::Run(c)
                && c.args.last() == target_file("builtin.so"@) && c.args.last() != target_file(
                "bpf.so"@,
            )),
{
    reveal_strlit("mv");
    reveal_strlit("mkdir");
    reveal_strlit("cargo");
    assert("mv"@.len() == 2);
    assert("mkdir"@.len() == 5);
    assert("cargo"@.len() == 5);
    lemma_target_files_differ();
    assert(builtin_build_steps()[2] matches StepSpec::Run(c) && c.program == "mv"@);
}

/// Building the Core BPF target moves the built library to `bpf.so`, the
/// path it records as the Core BPF target, and never to the builtin
/// target's `builtin.so`.
pub proof fn lemma_bpf_build_places_bpf_target(
    program_id: Seq<char>,
    elf_path: Seq<char>,
    cwd: Seq<char>,
    conformance_mode: bool,
)
    ensures
        ({
            let steps = bpf_build_steps(program_id, elf_path, cwd, conformance_mode);
            &&& exists|i: int|
                0 <= i < steps.len() && (#[trigger] steps[i] matches StepSpec::Run(c) && c.program
                    == "mv"@)
            &&& forall|i: int|
                0 <= i < steps.len() && (#[trigger] steps[i] matches StepSpec::Run(c) && c.program
                    == "mv"@) ==> (steps[i] matches StepSpec::Run(c) && c.args.last() == target_file(
                    "bpf.so"@,
                ) && c.args.last() != target_file("builtin.so"@))
        }),
{
    reveal_strlit("mv");
    reveal_strlit("mkdir");
    reveal_strlit("cargo");
    assert("mv"@.len() == 2);
    assert("mkdir"@.len() == 5);
    assert("cargo"@.len() == 5);
    lemma_target_files_differ();
    let steps = bpf_build_steps(program_id, elf_path, cwd, conformance_mode);
    assert(steps[5] matches StepSpec::Run(c) && c.program == "mv"@);
}

/// A fixtures run is judged failed exactly when its output contains the
/// text `Failed tests:`; an output without it (such as a count line
/// `Failed: 0`) is judged passed.
pub proof fn lemma_fixtures_verdict(output: Seq<char>)
    ensures
        contains_text(output, failure_marker()) <==> contains_text(output, "Failed tests:"@),
{
}

/// The shell line that runs the fixtures in `inputs` against the target
/// library `target`.
pub open spec fn exec_fixtures_line(inputs: Seq<char>, target: Seq<char>) -> Seq<char> {
    "cd "@ + conformance_root()
        + " && source test_suite_env/bin/activate && solana-test-suite exec-fixtures -i "@
        + inputs + " -t "@ + target
}

/// The shell line that runs the fixtures in `inputs` against both the
/// builtin `solana` and the Core BPF `target`, comparing them.
pub open spec fn run_tests_line(inputs: Seq<char>, solana: Seq<char>, target: Seq<char>) -> Seq<
    char,
> {
    "cd "@ + conformance_root()
        + " && source test_suite_env/bin/activate && solana-test-suite run-tests -i "@ + inputs
        + " -s "@ + solana + " -t "@ + target
}

/// The text that the harness prints when some fixture failed.
pub open spec fn failure_marker() -> Seq<char> {
    "Failed tests:"@
}

/// Runs the conformance harness against the program's ELF.
#[derive(Debug)]
pub struct ConformanceHandler {
    /// The builtin target, once built.
    pub builtin_target_path: Option<String>,
    /// The Core BPF target, once built.
    pub bpf_target_path: Option<String>,
    /// The ELF of the program under test.
    pub elf_path: String,
    /// The fixtures to run.
    pub fixtures_path: String,
    /// The program under test.
    pub program_id: Address,
}

/// Where the harness is checked out.
fn conformance_root_path() -> (r: &'static str)
    ensures
        r@ == conformance_root(),
{
    "./solana-conformance"
}

/// The solfuzz-agave checkout.
fn solfuzz_path() -> (r: String)
    ensures
        r@ == solfuzz_dir(),
{
    join_path(conformance_root_path(), "impl/solfuzz-agave")
}

/// The command that creates the targets directory.
fn make_targets_dir() -> (r: ShellCommand)
    ensures
        r@ == make_targets_dir_command(),
{
    let args: Vec<String> = vec![owned("-p"), owned("impl/lib")];
    let r = command_in(conformance_root_path(), "mkdir", args);
    assert(r@.args =~= seq!["-p"@, targets_subdir()]);
    r
}

/// The cargo command that builds solfuzz-agave, with `extra` arguments.
fn solfuzz_build(extra: Vec<String>) -> (r: ShellCommand)
    ensures
        r@ == (CommandSpec {
            program: "cargo"@,
            args: solfuzz_build_args(texts(extra@)),
            current_dir: None,
        }),
{
    let manifest = join_path(solfuzz_path().as_str(), "Cargo.toml");
    let mut args: Vec<String> = vec![
        owned("build"),
        owned("--manifest-path"),
        manifest,
        owned("--lib"),
        owned("--release"),
        owned("--target"),
        owned("x86_64-unknown-linux-gnu"),
    ];
    let ghost front = args@;
    let ghost extra_v = extra@;
    assert(texts(front) =~= solfuzz_build_args(seq![]));
    let mut extra = extra;
    args.append(&mut extra);
    assert(args@ =~= front + extra_v);
    assert(texts(args@) =~= texts(front) + texts(extra_v));
    command("cargo", args)
}

/// The command that moves the built solfuzz-agave library to `target`.
fn move_library(target: &str) -> (r: ShellCommand)
    ensures
        r@ == move_library_command(target@),
{
    let library = join_path(
        solfuzz_path().as_str(),
        "target/x86_64-unknown-linux-gnu/release/libsolfuzz_agave.so",
    );
    let args: Vec<String> = vec![library, owned(target)];
    let r = command("mv", args);
    assert(r@.args =~= seq![solfuzz_library(), target@]);
    r
}

/// Where a built target named `file` is placed.
fn target_path(file: &str) -> (r: String)
    ensures
        r@ == target_file(file@),
{
    let dir = join_path(conformance_root_path(), "impl/lib");
    join_path(dir.as_str(), file)
}

impl ConformanceHandler {
    fn new(program: &Program, elf_directory: &str, fixtures_path: String) -> (r: Self)
        ensures
            r.builtin_target_path is None,
            r.bpf_target_path is None,
            r.elf_path@ == program_elf_path(*program, elf_directory@),
            r.fixtures_path@ == fixtures_path@,
            r.program_id@ == program_id_text(*program),
    {
        let elf_name = program.elf_name();
        ConformanceHandler {
            builtin_target_path: None,
            bpf_target_path: None,
            elf_path: join_path(elf_directory, elf_name.as_str()),
            fixtures_path,
            program_id: program.program_id(),
        }
    }

    /// A handler for a harness that is already set up: the fixtures are
    /// Mollusk's, in the program's repository inside the harness, or
    /// Firedancer's test vectors for the program.
    pub fn no_setup(program: &Program, elf_directory: &str, use_mollusk_fixtures: bool) -> (r: Self)
        ensures
            r.builtin_target_path is None,
            r.bpf_target_path is None,
            r.elf_path@ == program_elf_path(*program, elf_directory@),
            r.fixtures_path@ == handler_fixtures_dir(*program, use_mollusk_fixtures),
            r.program_id@ == program_id_text(*program),
    {
        let fixtures = if use_mollusk_fixtures {
            let repo = join_path(conformance_root_path(), "impl/program-repo");
            let program_dir = join_path(repo.as_str(), "program");
            let fuzz = join_path(program_dir.as_str(), "fuzz");
            join_path(fuzz.as_str(), "blob")
        } else {
            let vectors = join_path(conformance_root_path(), "impl/test-vectors");
            join_path(vectors.as_str(), program.fixtures_path())
        };
        Self::new(program, elf_directory, fixtures)
    }

    /// A handler together with the steps that set the harness up before it
    /// is used (see `setup_steps`). The handler is the one `no_setup` gives:
    /// setting up only installs the harness and fetches the fixtures.
    pub fn setup(program: &Program, elf_directory: &str, use_mollusk_fixtures: bool) -> (r: (
        Self,
        Vec<Step>,
    ))
        ensures
            r.0.builtin_target_path is None,
            r.0.bpf_target_path is None,
            r.0.elf_path@ == program_elf_path(*program, elf_directory@),
            r.0.fixtures_path@ == handler_fixtures_dir(*program, use_mollusk_fixtures),
            r.0.program_id@ == program_id_text(*program),
            step_specs(r.1@) == setup_steps(*program, use_mollusk_fixtures),
    {
        let mut steps: Vec<Step> = Vec::new();
        steps.push(
            Step::Checkout {
                url: owned("https://github.com/firedancer-io/solana-conformance.git"),
                branch: owned("main"),
                out_dir: owned(conformance_root_path()),
            },
        );
        steps.push(
            Step::Checkout {
                url: owned("https://github.com/firedancer-io/solfuzz-agave.git"),
                branch: owned("agave-v2.3.1"),
                out_dir: solfuzz_path(),
            },
        );
        let ghost clones = step_specs(steps@);
        let fixtures = if use_mollusk_fixtures {
            let repo = join_path(conformance_root_path(), "impl/program-repo");
            steps.push(
                Step::Checkout {
                    url: program.repository(),
                    branch: owned("main"),
                    out_dir: repo.clone(),
                },
            );
            let program_dir = join_path(repo.as_str(), "program");
            let fuzz = join_path(program_dir.as_str(), "fuzz");
            join_path(fuzz.as_str(), "blob")
        } else {
            let vectors = join_path(conformance_root_path(), "impl/test-vectors");
            steps.push(
                Step::Checkout {
                    url: owned("https://github.com/firedancer-io/test-vectors.git"),
                    branch: owned("main"),
                    out_dir: vectors.clone(),
                },
            );
            let path = join_path(vectors.as_str(), program.fixtures_path());
            let skipped = program.skip_conformance_fixtures();
            let ghost before = step_specs(steps@);
            let ghost removals = skipped_fixtures(*program).map_values(
                |fix: Seq<char>|
                    StepSpec::Run(
                        CommandSpec {
                            program: "rm"@,
                            args: seq![skipped_fixture_file(firedancer_fixtures_dir(*program), fix)],
                            current_dir: None,
                        },
                    ),
            );
            let mut i: usize = 0;
            while i < skipped.len()
                invariant
                    path@ == firedancer_fixtures_dir(*program),
                    skipped@.map_values(|s: &'static str| s@) == skipped_fixtures(*program),
                    removals == skipped_fixtures(*program).map_values(
                        |fix: Seq<char>|
                            StepSpec::Run(
                                CommandSpec {
                                    program: "rm"@,
                                    args: seq![
                                        skipped_fixture_file(firedancer_fixtures_dir(*program), fix),
                                    ],
                                    current_dir: None,
                                },
                            ),
                    ),
                    i <= skipped@.len(),
                    step_specs(steps@) == before + removals.subrange(0, i as int),
                decreases skipped.len() - i,
            {
                let fixture_dir = join_path(path.as_str(), skipped[i]);
                let file = join_path(fixture_dir.as_str(), ".fix");
                let args: Vec<String> = vec![file];
                let step = Step::Run(command("rm", args));
                assert(skipped@.map_values(|s: &'static str| s@)[i as int] == skipped@[i as int]@);
                assert(step@ == removals[i as int]) by {
                    assert(texts(args@) =~= seq![
                        skipped_fixture_file(firedancer_fixtures_dir(*program), skipped@[i as int]@),
                    ]);
                }
                let ghost prev = steps@;
                let ghost spec = step@;
                steps.push(step);
                proof {
                    lemma_step_specs_push(prev, steps@.last());
                    assert(steps@ == prev.push(steps@.last()));
                    assert(step_specs(steps@) =~= before + removals.subrange(0, i + 1));
                }
                i = i + 1;
            }
            assert(removals.subrange(0, skipped@.len() as int) =~= removals);
            path
        };
        let ghost middle = steps@;
        let fetch: Vec<String> = vec![owned("-j"), owned("-C"), owned("impl/solfuzz-agave"), owned("fetch_proto")];
        let fetch_step = Step::Run(command_in(conformance_root_path(), "make", fetch));
        assert(texts(fetch@) =~= seq!["-j"@, "-C"@, "impl/solfuzz-agave"@, "fetch_proto"@]);
        steps.push(fetch_step);
        let ghost with_fetch = steps@;
        let install: Vec<String> = vec![owned("install_ubuntu_lite.sh")];
        let install_step = Step::Run(command_in(conformance_root_path(), "bash", install));
        assert(texts(install@) =~= seq!["install_ubuntu_lite.sh"@]);
        steps.push(install_step);
        proof {
            lemma_step_specs_push(middle, with_fetch.last());
            lemma_step_specs_push(with_fetch, steps@.last());
            assert(with_fetch == middle.push(with_fetch.last()));
            assert(steps@ == with_fetch.push(steps@.last()));
        }
        assert(step_specs(steps@) =~= setup_steps(*program, use_mollusk_fixtures));
        (Self::new(program, elf_directory, fixtures), steps)
    }

    /// The handler for a test run and the steps to perform before it: none
    /// when `skip_setup` asks to skip installing the harness, otherwise the
    /// setup steps. Either way the handler is the same.
    pub fn initialize(
        program: &Program,
        elf_directory: &str,
        use_mollusk_fixtures: bool,
        skip_setup: bool,
    ) -> (r: (Self, Vec<Step>))
        ensures
            r.0.builtin_target_path is None,
            r.0.bpf_target_path is None,
            r.0.elf_path@ == program_elf_path(*program, elf_directory@),
            r.0.fixtures_path@ == handler_fixtures_dir(*program, use_mollusk_fixtures),
            r.0.program_id@ == program_id_text(*program),
            skip_setup ==> r.1@.len() == 0,
            !skip_setup ==> step_specs(r.1@) == setup_steps(*program, use_mollusk_fixtures),
    {
        if skip_setup {
            (Self::no_setup(program, elf_directory, use_mollusk_fixtures), Vec::new())
        } else {
            Self::setup(program, elf_directory, use_mollusk_fixtures)
        }
    }

    /// Builds the builtin target: returns the steps that build solfuzz-agave
    /// and move it to `builtin.so`, and records that path as the builtin
    /// target.
    pub fn build_conformance_target_builtin(&mut self) -> (steps: Vec<Step>)
        ensures
            final(self).builtin_target_path matches Some(t) && t@ == target_file("builtin.so"@),
            final(self).bpf_target_path == old(self).bpf_target_path,
            final(self).elf_path == old(self).elf_path,
            final(self).fixtures_path == old(self).fixtures_path,
            final(self).program_id == old(self).program_id,
            step_specs(steps@) == builtin_build_steps(),
    {
        let target = target_path("builtin.so");
        let mut steps: Vec<Step> = Vec::new();
        let mkdir = Step::Run(make_targets_dir());
        let build = Step::Run(solfuzz_build(Vec::new()));
        let mv = Step::Run(move_library(target.as_str()));
        steps.push(mkdir);
        steps.push(build);
        steps.push(mv);
        assert(texts(Seq::<String>::empty()) =~= seq![]);
        assert(step_specs(steps@) =~= builtin_build_steps());
        self.builtin_target_path = Some(target);
        steps
    }

    /// Builds the Core BPF target from the program's ELF: returns the steps
    /// (see `bpf_build_steps`), with `cwd` the current directory that the
    /// ELF path is resolved against, and records `bpf.so` as the Core BPF
    /// target.
    pub fn build_conformance_target_bpf(&mut self, conformance_mode: bool, cwd: &str) -> (steps:
        Vec<Step>)
        ensures
            final(self).bpf_target_path matches Some(t) && t@ == target_file("bpf.so"@),
            final(self).builtin_target_path == old(self).builtin_target_path,
            final(self).elf_path == old(self).elf_path,
            final(self).fixtures_path == old(self).fixtures_path,
            final(self).program_id == old(self).program_id,
            step_specs(steps@) == bpf_build_steps(
                old(self).program_id@,
                old(self).elf_path@,
                cwd@,
                conformance_mode,
            ),
    {
        let target = target_path("bpf.so");
        let feature = if conformance_mode {
            "core-bpf-conformance"
        } else {
            "core-bpf"
        };
        let extra: Vec<String> = vec![owned("--features"), owned(feature)];
        assert(texts(extra@) =~= seq!["--features"@, bpf_feature(conformance_mode)]);
        let mut steps: Vec<Step> = Vec::new();
        steps.push(Step::Run(make_targets_dir()));
        steps.push(Step::SetEnv(owned("CORE_BPF_PROGRAM_ID"), self.program_id.text.clone()));
        steps.push(Step::SetEnv(owned("CORE_BPF_TARGET"), join_path(cwd, self.elf_path.as_str())));
        steps.push(Step::SetEnv(owned("FORCE_RECOMPILE"), owned("true")));
        steps.push(Step::Run(solfuzz_build(extra)));
        steps.push(Step::Run(move_library(target.as_str())));
        steps.push(Step::RemoveEnv(owned("CORE_BPF_PROGRAM_ID")));
        steps.push(Step::RemoveEnv(owned("CORE_BPF_TARGET")));
        steps.push(Step::RemoveEnv(owned("FORCE_RECOMPILE")));
        assert(step_specs(steps@) =~= bpf_build_steps(
            self.program_id@,
            self.elf_path@,
            cwd@,
            conformance_mode,
        ));
        self.bpf_target_path = Some(target);
        steps
    }

    /// The command that runs the fixtures against the Core BPF target, with
    /// paths resolved against the current directory `cwd`. The Core BPF
    /// target must be built first.
    pub fn run_fixtures(&self, cwd: &str) -> (r: ShellCommand)
        requires
            self.bpf_target_path is Some,
        ensures
            r@.program == "bash"@,
            r@.current_dir is None,
            r@.args == seq![
                "-c"@,
                exec_fixtures_line(
                    joined_path(cwd@, self.fixtures_path@),
                    joined_path(cwd@, self.bpf_target_path.unwrap()@),
                ),
            ],
    {
        let inputs = join_path(cwd, self.fixtures_path.as_str());
        let bpf = match &self.bpf_target_path {
            Some(t) => t,
            None => {
                assert(false);
                &self.fixtures_path
            },
        };
        let target = join_path(cwd, bpf.as_str());
        let line = owned("cd ").concat(conformance_root_path()).concat(
            " && source test_suite_env/bin/activate && solana-test-suite exec-fixtures -i ",
        ).concat(inputs.as_str()).concat(" -t ").concat(target.as_str());
        let args: Vec<String> = vec![owned("-c"), line];
        let r = command("bash", args);
        assert(r@.args =~= seq!["-c"@, exec_fixtures_line(inputs@, target@)]);
        r
    }

    /// Whether the output of a fixtures run reports failed fixtures.
    pub fn fixtures_failed(output: &str) -> (r: bool)
        ensures
            r == contains_text(output@, failure_marker()),
    {
        contains(output, "Failed tests:")
    }

    /// The command that runs the conformance tests, comparing the builtin
    /// target with the Core BPF one, with paths resolved against `cwd`. Both
    /// targets must be built first.
    pub fn run_conformance(&self, cwd: &str) -> (r: ShellCommand)
        requires
            self.builtin_target_path is Some,
            self.bpf_target_path is Some,
        ensures
            r@.program == "bash"@,
            r@.current_dir is None,
            r@.args == seq![
                "-c"@,
                run_tests_line(
                    joined_path(cwd@, self.fixtures_path@),
                    joined_path(cwd@, self.builtin_target_path.unwrap()@),
                    joined_path(cwd@, self.bpf_target_path.unwrap()@),
                ),
            ],
    {
        let inputs = join_path(cwd, self.fixtures_path.as_str());
        let builtin = match &self.builtin_target_path {
            Some(t) => t,
            None => {
                assert(false);
                &self.fixtures_path
            },
        };
        let bpf = match &self.bpf_target_path {
            Some(t) => t,
            None => {
                assert(false);
                &self.fixtures_path
            },
        };
        let solana = join_path(cwd, builtin.as_str());
        let target = join_path(cwd, bpf.as_str());
        let line = owned("cd ").concat(conformance_root_path()).concat(
            " && source test_suite_env/bin/activate && solana-test-suite run-tests -i ",
        ).concat(inputs.as_str()).concat(" -s ").concat(solana.as_str()).concat(" -t ").concat(
            target.as_str(),
        );
        let args: Vec<String> = vec![owned("-c"), line];
        let r = command("bash", args);
        assert(r@.args =~= seq!["-c"@, run_tests_line(inputs@, solana@, target@)]);
        r
    }

    /// Where the harness leaves the protobufs of failed conformance tests.
    pub fn failed_protobufs_path() -> (r: String)
        ensures
            r@ == failed_protobufs_dir(),
    {
        join_path(conformance_root_path(), "test_results/failed_protobufs")
    }

    /// Whether a conformance run failed, from what the failed-protobufs
    /// directory holds: it failed when that path is a directory, unless the
    /// directory could be listed and was empty. `listed_empty` is `None`
    /// when listing failed, else whether the listing was empty.
    pub fn conformance_failed(is_dir: bool, listed_empty: Option<bool>) -> (r: bool)
        ensures
            r == (is_dir && listed_empty != Some(true)),
    {
        is_dir && !(match listed_empty {
            Some(empty) => empty,
            None => false,
        })
    }
}

} // verus!
