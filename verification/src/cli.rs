//! The decisions of the command-line tool around its outside work: where
//! ELFs go, how programs are built, which migration the stub test stages,
//! and how account owners are checked.

use vstd::prelude::*;
use crate::address::Address;
use crate::command::{CommandSpec, ShellCommand, command, owned, texts};
use crate::genesis::MigrationTarget;
use crate::program::{Program, buffer_address_text, feature_gate_text};
use crate::text::{join_path, joined_path, str_eq};

verus! {

/// The directory that receives the built and cloned ELFs.
pub open spec fn elf_directory() -> Seq<char> {
    "elfs"@
}

/// The ELF directory.
pub fn elf_dir() -> (r: &'static str)
    ensures
        r@ == elf_directory(),
{
    "elfs"
}

/// The manifest of the activator program, which hands staged feature
/// accounts to the feature program.
pub fn activator_manifest() -> (r: &'static str)
    ensures
        r@ == "./programs/activator/Cargo.toml"@,
{
    "./programs/activator/Cargo.toml"
}

/// The manifest of the stub program, whose ELF replaces the builtin in the
/// stub test.
pub fn stub_manifest() -> (r: &'static str)
    ensures
        r@ == "./programs/stub/Cargo.toml"@,
{
    "./programs/stub/Cargo.toml"
}

/// The command that builds the SBF program at `manifest_path` into the ELF
/// directory.
pub fn cargo_build_sbf(manifest_path: &str) -> (r: ShellCommand)
    ensures
        r@ == (CommandSpec {
            program: "cargo"@,
            args: seq![
                "build-sbf"@,
                "--manifest-path"@,
                manifest_path@,
                "--features"@,
                "sbf-entrypoint"@,
                "--sbf-out-dir"@,
                elf_directory(),
            ],
            current_dir: None,
        }),
{
    let args: Vec<String> = vec![
        owned("build-sbf"),
        owned("--manifest-path"),
        owned(manifest_path),
        owned("--features"),
        owned("sbf-entrypoint"),
        owned("--sbf-out-dir"),
        owned(elf_dir()),
    ];
    let r = command("cargo", args);
    assert(texts(args@) =~= seq![
        "build-sbf"@,
        "--manifest-path"@,
        manifest_path@,
        "--features"@,
        "sbf-entrypoint"@,
        "--sbf-out-dir"@,
        elf_directory(),
    ]);
    r
}

/// The file that a cloned ELF named `elf_name` is written to.
pub fn elf_file_path(elf_name: &str) -> (r: String)
    ensures
        r@ == joined_path(elf_directory(), elf_name@),
{
    join_path(elf_dir(), elf_name)
}

/// The migration that the stub test stages for `program`: its feature, its
/// buffer address, and the stub program's ELF.
pub fn stub_migration_target(program: &Program) -> (r: MigrationTarget)
    ensures
        r.feature_id@ == feature_gate_text(*program),
        r.buffer_address@ == buffer_address_text(*program),
        r.elf_name@ == "cbmt_program_stub"@,
{
    MigrationTarget {
        feature_id: program.feature_gate(),
        buffer_address: program.buffer_address(),
        elf_name: owned("cbmt_program_stub"),
    }
}

/// The name of the activator program's ELF.
pub fn activator_elf_name() -> (r: &'static str)
    ensures
        r@ == "cbmt_program_activator"@,
{
    "cbmt_program_activator"
}

/// Checks that a program account is owned by `expected`; the error is the
/// message the tool stops with.
pub fn check_owner(expected: &Address, actual: &Address) -> (r: Result<(), String>)
    ensures
        r is Ok <==> expected@ == actual@,
        r matches Err(m) ==> m@ == "incorrect program owner: expected "@ + expected@ + ", got "@
            + actual@,
{
    if str_eq(expected.as_str(), actual.as_str()) {
        Ok(())
    } else {
        Err(
            owned("incorrect program owner: expected ").concat(expected.as_str()).concat(
                ", got ",
            ).concat(actual.as_str()),
        )
    }
}

/// Checks that a program account is owned by the native loader, i.e. that
/// the program is still a builtin.
pub fn check_builtin(owner: &Address) -> (r: Result<(), String>)
    ensures
        r is Ok <==> owner@ == "NativeLoader1111111111111111111111111111111"@,
        r matches Err(m) ==> m@ == "Program is not a builtin"@,
{
    let native = crate::address::native_loader_id();
    if str_eq(native.as_str(), owner.as_str()) {
        Ok(())
    } else {
        Err(owned("Program is not a builtin"))
    }
}

} // verus!
