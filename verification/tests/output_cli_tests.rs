use cbmt::address::Address;
use cbmt::cli::{
    activator_manifest, cargo_build_sbf, check_builtin, check_owner, elf_file_path,
    stub_manifest, stub_migration_target,
};
use cbmt::output::{title_conformance_test, title_fixtures_test, title_program_owner, title_stub_test};
use cbmt::program::Program;

#[test]
fn stub_banner_for_known_feature() {
    let feature = Program::Config.feature_gate();
    let buffer = Program::Config.buffer_address();
    let lines = title_stub_test(&feature, &buffer).unwrap();
    assert_eq!(lines.len(), 12);
    assert_eq!(lines[0], "");
    assert_eq!(lines[1], "    =============================================");
    assert_eq!(lines[2], "    Loader v2 -> Loader v3 BPF Migration Test");
    assert_eq!(lines[4], "    Description   : Migrate Config program to Core BPF #1378");
    assert_eq!(lines[6], "    Feature ID    : 2Fr57nzzkLYXW695UdDxDeR5fhnZWSttZeZYemrnpGFV");
    assert_eq!(lines[8], "    Buffer Address: BuafH9fBv62u6XjzrzS4ZjAE8963ejqF5rt1f8Uga4Q3");
    assert_eq!(lines[11], "");
}

#[test]
fn stub_banner_for_every_program() {
    for p in [Program::AddressLookupTable, Program::Config, Program::FeatureGate, Program::Token] {
        let lines = title_stub_test(&p.feature_gate(), &p.buffer_address()).unwrap();
        let description = agave_feature_set::FEATURE_NAMES
            .get(&p.feature_gate().text.parse().unwrap())
            .unwrap();
        let expected: String = description.chars().take(160).collect();
        assert_eq!(lines[4], format!("    Description   : {}", expected));
    }
}

#[test]
fn stub_banner_for_unknown_feature() {
    let buffer = Program::Config.buffer_address();
    assert!(title_stub_test(&Address::from_text("11111111111111111111111111111111"), &buffer).is_none());
    assert!(title_stub_test(&Address::from_text("not base58!"), &buffer).is_none());
}

#[test]
fn fixtures_and_conformance_banners() {
    let buffer = Program::Token.buffer_address();
    let lines = title_fixtures_test("mainnet-beta", &buffer, false);
    assert_eq!(lines.len(), 12);
    assert_eq!(lines[2], "    Core BPF Migration Test: Fixtures Test");
    assert_eq!(lines[4], "    Buffer Address: ptokNfvuU7terQ2r2452RzVXB3o4GT33yPWo1fUkkZ2");
    assert_eq!(lines[6], "    Cloning From  : mainnet-beta");
    assert_eq!(lines[8], "    Fixtures      : Firedancer");
    let lines = title_conformance_test("testnet", &buffer, true);
    assert_eq!(lines[2], "    Core BPF Migration Test: Conformance Test");
    assert_eq!(lines[6], "    Cloning From  : testnet");
    assert_eq!(lines[8], "    Fixtures      : Mollusk");
}

#[test]
fn program_owner_lines() {
    let lines = title_program_owner(&Address::from_text("P"), &Address::from_text("O"));
    assert_eq!(lines, vec!["    Program      : P", "    Owner        : O", ""]);
}

#[test]
fn build_sbf_command() {
    let cmd = cargo_build_sbf(stub_manifest());
    assert_eq!(cmd.program, "cargo");
    assert_eq!(
        cmd.args,
        vec![
            "build-sbf",
            "--manifest-path",
            "./programs/stub/Cargo.toml",
            "--features",
            "sbf-entrypoint",
            "--sbf-out-dir",
            "elfs",
        ]
    );
    assert!(cmd.current_dir.is_none());
    assert_eq!(activator_manifest(), "./programs/activator/Cargo.toml");
}

#[test]
fn cloned_elf_file_path() {
    assert_eq!(elf_file_path("token.so"), "elfs/token.so");
}

#[test]
fn stub_target_for_program() {
    let t = stub_migration_target(&Program::FeatureGate);
    assert_eq!(t.feature_id.as_str(), "4eohviozzEeivk1y9UbrnekbAFMDQyJz5JjA9Y6gyvky");
    assert_eq!(t.buffer_address.as_str(), "3D3ydPWvmEszrSjrickCtnyRSJm1rzbbSsZog8Ub6vLh");
    assert_eq!(t.elf_name, "cbmt_program_stub");
}

#[test]
fn owner_checks() {
    let v2 = cbmt::address::bpf_loader_id();
    let v3 = cbmt::address::bpf_loader_upgradeable_id();
    assert_eq!(check_owner(&v2, &v2.clone()), Ok(()));
    assert_eq!(
        check_owner(&v3, &v2),
        Err("incorrect program owner: expected BPFLoaderUpgradeab1e11111111111111111111111, got BPFLoader2111111111111111111111111111111111".to_string())
    );
    assert_eq!(check_builtin(&cbmt::address::native_loader_id()), Ok(()));
    assert_eq!(check_builtin(&v2), Err("Program is not a builtin".to_string()));
}
