use cbmt::command::{ShellCommand, Step};
use cbmt::conformance::ConformanceHandler;
use cbmt::program::Program;

fn run(step: &Step) -> &ShellCommand {
    match step {
        Step::Run(c) => c,
        other => panic!("expected a command, got {:?}", other),
    }
}

#[test]
fn no_setup_with_firedancer_fixtures() {
    let h = ConformanceHandler::no_setup(&Program::Config, "elfs", false);
    assert_eq!(h.fixtures_path, "./solana-conformance/impl/test-vectors/instr/fixtures/config");
    assert_eq!(h.elf_path, "elfs/config.so");
    assert_eq!(h.program_id.as_str(), "Config1111111111111111111111111111111111111");
    assert!(h.builtin_target_path.is_none());
    assert!(h.bpf_target_path.is_none());
}

#[test]
fn no_setup_with_mollusk_fixtures() {
    let h = ConformanceHandler::no_setup(&Program::Token, "elfs", true);
    assert_eq!(h.fixtures_path, "./solana-conformance/impl/program-repo/program/fuzz/blob");
    assert_eq!(h.elf_path, "elfs/token.so");
}

#[test]
fn setup_with_firedancer_fixtures() {
    let (h, steps) = ConformanceHandler::setup(&Program::AddressLookupTable, "elfs", false);
    assert_eq!(
        h.fixtures_path,
        "./solana-conformance/impl/test-vectors/instr/fixtures/address-lookup-table"
    );
    // Two harness checkouts, the test vectors, six removals, protos, install.
    assert_eq!(steps.len(), 11);
    match &steps[0] {
        Step::Checkout { url, branch, out_dir } => {
            assert_eq!(url, "https://github.com/firedancer-io/solana-conformance.git");
            assert_eq!(branch, "main");
            assert_eq!(out_dir, "./solana-conformance");
        }
        other => panic!("unexpected {:?}", other),
    }
    match &steps[1] {
        Step::Checkout { branch, out_dir, .. } => {
            assert_eq!(branch, "agave-v2.3.1");
            assert_eq!(out_dir, "./solana-conformance/impl/solfuzz-agave");
        }
        other => panic!("unexpected {:?}", other),
    }
    match &steps[2] {
        Step::Checkout { url, out_dir, .. } => {
            assert_eq!(url, "https://github.com/firedancer-io/test-vectors.git");
            assert_eq!(out_dir, "./solana-conformance/impl/test-vectors");
        }
        other => panic!("unexpected {:?}", other),
    }
    let rm = run(&steps[3]);
    assert_eq!(rm.program, "rm");
    assert_eq!(
        rm.args,
        vec!["./solana-conformance/impl/test-vectors/instr/fixtures/address-lookup-table/6d8f5dc4bb073f6ae72a950b5108c82b41c6347a_3246919/.fix"]
    );
    let make = run(&steps[9]);
    assert_eq!(make.program, "make");
    assert_eq!(make.args, vec!["-j", "-C", "impl/solfuzz-agave", "fetch_proto"]);
    assert_eq!(make.current_dir.as_deref(), Some("./solana-conformance"));
    let install = run(&steps[10]);
    assert_eq!(install.program, "bash");
    assert_eq!(install.args, vec!["install_ubuntu_lite.sh"]);
}

#[test]
fn setup_with_mollusk_fixtures() {
    let (h, steps) = ConformanceHandler::setup(&Program::Config, "elfs", true);
    assert_eq!(h.fixtures_path, "./solana-conformance/impl/program-repo/program/fuzz/blob");
    assert_eq!(steps.len(), 5);
    assert!(matches!(steps[0], Step::Checkout { .. }));
    assert!(matches!(steps[1], Step::Checkout { .. }));
    match &steps[2] {
        Step::Checkout { url, branch, out_dir } => {
            assert_eq!(url, "https://github.com/solana-program/config.git");
            assert_eq!(branch, "main");
            assert_eq!(out_dir, "./solana-conformance/impl/program-repo");
        }
        other => panic!("unexpected {:?}", other),
    }
    assert_eq!(run(&steps[3]).program, "make");
    assert_eq!(run(&steps[4]).program, "bash");
}

#[test]
fn setup_and_no_setup_give_the_same_handler() {
    for p in [Program::AddressLookupTable, Program::Config, Program::FeatureGate, Program::Token] {
        for mollusk in [false, true] {
            let (s, _) = ConformanceHandler::setup(&p, "elfs", mollusk);
            let n = ConformanceHandler::no_setup(&p, "elfs", mollusk);
            assert_eq!(s.fixtures_path, n.fixtures_path);
            assert_eq!(s.elf_path, n.elf_path);
            assert_eq!(s.program_id.text, n.program_id.text);
            assert!(s.builtin_target_path.is_none() && n.builtin_target_path.is_none());
            assert!(s.bpf_target_path.is_none() && n.bpf_target_path.is_none());
        }
    }
}

#[test]
fn initialize_skips_or_plans_setup() {
    let (h, steps) = ConformanceHandler::initialize(&Program::Token, "elfs", true, true);
    assert!(steps.is_empty());
    assert_eq!(h.fixtures_path, "./solana-conformance/impl/program-repo/program/fuzz/blob");
    let (h, steps) = ConformanceHandler::initialize(&Program::Token, "elfs", false, false);
    assert_eq!(steps.len(), 5);
    assert_eq!(h.fixtures_path, "./solana-conformance/impl/test-vectors/instr/fixtures/token");
}

#[test]
fn setup_without_skipped_fixtures() {
    let (_, steps) = ConformanceHandler::setup(&Program::FeatureGate, "elfs", false);
    assert_eq!(steps.len(), 5);
}

#[test]
fn build_builtin_target() {
    let mut h = ConformanceHandler::no_setup(&Program::Config, "elfs", false);
    let steps = h.build_conformance_target_builtin();
    assert_eq!(
        h.builtin_target_path.as_deref(),
        Some("./solana-conformance/impl/lib/builtin.so")
    );
    assert!(h.bpf_target_path.is_none());
    assert_eq!(steps.len(), 3);
    let mkdir = run(&steps[0]);
    assert_eq!(mkdir.program, "mkdir");
    assert_eq!(mkdir.args, vec!["-p", "impl/lib"]);
    assert_eq!(mkdir.current_dir.as_deref(), Some("./solana-conformance"));
    let cargo = run(&steps[1]);
    assert_eq!(cargo.program, "cargo");
    assert_eq!(
        cargo.args,
        vec![
            "build",
            "--manifest-path",
            "./solana-conformance/impl/solfuzz-agave/Cargo.toml",
            "--lib",
            "--release",
            "--target",
            "x86_64-unknown-linux-gnu",
        ]
    );
    let mv = run(&steps[2]);
    assert_eq!(
        mv.args,
        vec![
            "./solana-conformance/impl/solfuzz-agave/target/x86_64-unknown-linux-gnu/release/libsolfuzz_agave.so",
            "./solana-conformance/impl/lib/builtin.so",
        ]
    );
}

#[test]
fn build_bpf_target() {
    let mut h = ConformanceHandler::no_setup(&Program::Config, "elfs", false);
    let steps = h.build_conformance_target_bpf(true, "/work");
    assert_eq!(h.bpf_target_path.as_deref(), Some("./solana-conformance/impl/lib/bpf.so"));
    assert_eq!(steps.len(), 9);
    match &steps[1] {
        Step::SetEnv(k, v) => {
            assert_eq!(k, "CORE_BPF_PROGRAM_ID");
            assert_eq!(v, "Config1111111111111111111111111111111111111");
        }
        other => panic!("unexpected {:?}", other),
    }
    match &steps[2] {
        Step::SetEnv(k, v) => {
            assert_eq!(k, "CORE_BPF_TARGET");
            assert_eq!(v, "/work/elfs/config.so");
        }
        other => panic!("unexpected {:?}", other),
    }
    match &steps[3] {
        Step::SetEnv(k, v) => {
            assert_eq!(k, "FORCE_RECOMPILE");
            assert_eq!(v, "true");
        }
        other => panic!("unexpected {:?}", other),
    }
    let cargo = run(&steps[4]);
    assert_eq!(&cargo.args[7..], &["--features".to_string(), "core-bpf-conformance".to_string()]);
    assert!(matches!(&steps[8], Step::RemoveEnv(k) if k == "FORCE_RECOMPILE"));

    let mut plain = ConformanceHandler::no_setup(&Program::Config, "elfs", false);
    let steps = plain.build_conformance_target_bpf(false, "/work");
    assert_eq!(run(&steps[4]).args[8], "core-bpf");
}

#[test]
fn run_fixtures_command() {
    let mut h = ConformanceHandler::no_setup(&Program::Config, "elfs", false);
    h.build_conformance_target_bpf(false, "/w");
    let cmd = h.run_fixtures("/w");
    assert_eq!(cmd.program, "bash");
    assert_eq!(cmd.args[0], "-c");
    assert_eq!(
        cmd.args[1],
        "cd ./solana-conformance && source test_suite_env/bin/activate && solana-test-suite exec-fixtures -i /w/./solana-conformance/impl/test-vectors/instr/fixtures/config -t /w/./solana-conformance/impl/lib/bpf.so"
    );
}

#[test]
fn run_conformance_command() {
    let mut h = ConformanceHandler::no_setup(&Program::Token, "elfs", true);
    h.build_conformance_target_builtin();
    h.build_conformance_target_bpf(true, "/w");
    let cmd = h.run_conformance("/w");
    assert_eq!(
        cmd.args[1],
        "cd ./solana-conformance && source test_suite_env/bin/activate && solana-test-suite run-tests -i /w/./solana-conformance/impl/program-repo/program/fuzz/blob -s /w/./solana-conformance/impl/lib/builtin.so -t /w/./solana-conformance/impl/lib/bpf.so"
    );
}

#[test]
fn fixtures_outcome() {
    assert!(ConformanceHandler::fixtures_failed("ok\nFailed tests: 2\n"));
    assert!(!ConformanceHandler::fixtures_failed("Total tests: 10\nPassed tests: 10\n"));
    assert!(!ConformanceHandler::fixtures_failed(""));
}

#[test]
fn conformance_outcome() {
    assert!(!ConformanceHandler::conformance_failed(false, None));
    assert!(!ConformanceHandler::conformance_failed(false, Some(false)));
    assert!(!ConformanceHandler::conformance_failed(true, Some(true)));
    assert!(ConformanceHandler::conformance_failed(true, Some(false)));
    assert!(ConformanceHandler::conformance_failed(true, None));
    assert_eq!(
        ConformanceHandler::failed_protobufs_path(),
        "./solana-conformance/test_results/failed_protobufs"
    );
}

#[test]
fn bpf_build_clears_environment() {
    let mut h = ConformanceHandler::no_setup(&Program::FeatureGate, "elfs", false);
    let steps = h.build_conformance_target_bpf(false, "/w");
    for (i, step) in steps.iter().enumerate() {
        if let Step::SetEnv(key, _) = step {
            assert!(steps[i + 1..]
                .iter()
                .any(|later| matches!(later, Step::RemoveEnv(k) if k == key)));
        }
    }
}
