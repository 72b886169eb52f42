use cbmt::program::Program;

const ALL: [Program; 4] = [
    Program::AddressLookupTable,
    Program::Config,
    Program::FeatureGate,
    Program::Token,
];

#[test]
fn program_names() {
    assert_eq!(Program::AddressLookupTable.to_string(), "address-lookup-table");
    assert_eq!(Program::Config.to_string(), "config");
    assert_eq!(Program::FeatureGate.to_string(), "feature-gate");
    assert_eq!(Program::Token.to_string(), "token");
}

#[test]
fn program_name_round_trip() {
    for p in ALL {
        assert_eq!(Program::from_str(&p.to_string()), Ok(p));
        assert_eq!(p.to_string().parse::<Program>(), Ok(p));
    }
}

#[test]
fn program_from_str_rejects_unknown_names() {
    assert_eq!(
        Program::from_str("stake"),
        Err("Invalid program name: stake".to_string())
    );
    assert_eq!(Program::from_str(""), Err("Invalid program name: ".to_string()));
    assert_eq!(
        Program::from_str("Config"),
        Err("Invalid program name: Config".to_string())
    );
    assert!("address_lookup_table".parse::<Program>().is_err());
}

#[test]
fn program_elf_names() {
    assert_eq!(Program::AddressLookupTable.elf_name(), "address_lookup_table.so");
    assert_eq!(Program::Config.elf_name(), "config.so");
    assert_eq!(Program::FeatureGate.elf_name(), "feature_gate.so");
    assert_eq!(Program::Token.elf_name(), "token.so");
}

#[test]
fn program_repositories() {
    assert_eq!(
        Program::AddressLookupTable.repository(),
        "https://github.com/solana-program/address-lookup-table.git"
    );
    assert_eq!(Program::Token.repository(), "https://github.com/solana-program/token.git");
}

#[test]
fn program_fixtures_paths() {
    for p in ALL {
        assert_eq!(p.fixtures_path(), format!("instr/fixtures/{}", p.to_string()));
    }
    assert_eq!(Program::Config.fixtures_path(), "instr/fixtures/config");
}

#[test]
fn program_skipped_fixtures() {
    assert_eq!(Program::AddressLookupTable.skip_conformance_fixtures().len(), 6);
    assert_eq!(
        Program::AddressLookupTable.skip_conformance_fixtures()[0],
        "6d8f5dc4bb073f6ae72a950b5108c82b41c6347a_3246919"
    );
    assert_eq!(
        Program::Config.skip_conformance_fixtures(),
        vec![
            "04a0b782cb1f4b1be044313331edda9dfb4696d6",
            "c7ec10c03d5faadcebd32dc5b9a4086abef892ca_3157979",
            "68e8dbf0f31de69a2bd1d2c0fe9af3ba676301d6_3157979",
            "f84b5ad44f7a253ebc8056d06396694370a7fa4c_3157979",
            "8bbe900444c675cfc3fbf0f80ae2eb061e536a09",
        ]
    );
    assert!(Program::FeatureGate.skip_conformance_fixtures().is_empty());
    assert!(Program::Token.skip_conformance_fixtures().is_empty());
}

#[test]
fn program_buffer_addresses() {
    assert_eq!(
        Program::AddressLookupTable.buffer_address().as_str(),
        "AhXWrD9BBUYcKjtpA3zuiiZG4ysbo6C6wjHo1QhERk6A"
    );
    assert_eq!(
        Program::Token.buffer_address().as_str(),
        "ptokNfvuU7terQ2r2452RzVXB3o4GT33yPWo1fUkkZ2"
    );
    for p in ALL {
        let text = p.buffer_address().text;
        let key: solana_sdk::pubkey::Pubkey = text.parse().unwrap();
        assert_eq!(key.to_string(), text);
    }
}

#[test]
fn program_feature_gates_match_agave() {
    assert_eq!(
        Program::AddressLookupTable.feature_gate().text,
        agave_feature_set::migrate_address_lookup_table_program_to_core_bpf::id().to_string()
    );
    assert_eq!(
        Program::Config.feature_gate().text,
        agave_feature_set::migrate_config_program_to_core_bpf::id().to_string()
    );
    assert_eq!(
        Program::FeatureGate.feature_gate().text,
        agave_feature_set::migrate_feature_gate_program_to_core_bpf::id().to_string()
    );
    assert_eq!(
        Program::Token.feature_gate().text,
        agave_feature_set::replace_spl_token_with_p_token::id().to_string()
    );
    assert_eq!(
        Program::AddressLookupTable.feature_gate().as_str(),
        "C97eKZygrkU4JxJsZdjgbUY7iQR7rKTr4NyDWo2E5pRm"
    );
    assert_eq!(
        Program::Config.feature_gate().as_str(),
        "2Fr57nzzkLYXW695UdDxDeR5fhnZWSttZeZYemrnpGFV"
    );
    assert_eq!(
        Program::FeatureGate.feature_gate().as_str(),
        "4eohviozzEeivk1y9UbrnekbAFMDQyJz5JjA9Y6gyvky"
    );
    assert_eq!(
        Program::Token.feature_gate().as_str(),
        "ptokFjwyJtrwCa9Kgo9xoDS59V4QccBGEaRFnRPnSdP"
    );
}

#[test]
fn program_ids_match_sdk() {
    assert_eq!(
        Program::AddressLookupTable.program_id().text,
        solana_sdk_ids::address_lookup_table::id().to_string()
    );
    assert_eq!(
        Program::Config.program_id().text,
        solana_sdk::config::program::id().to_string()
    );
    assert_eq!(Program::FeatureGate.program_id().text, solana_sdk_ids::feature::id().to_string());
    assert_eq!(
        Program::AddressLookupTable.program_id().as_str(),
        "AddressLookupTab1e1111111111111111111111111"
    );
    assert_eq!(
        Program::Config.program_id().as_str(),
        "Config1111111111111111111111111111111111111"
    );
    assert_eq!(
        Program::FeatureGate.program_id().as_str(),
        "Feature111111111111111111111111111111111111"
    );
    assert_eq!(
        Program::Token.program_id().as_str(),
        "TokenkegQfeZyiNwAJbNbGKPFXCWuBvf9Ss623VQ5DA"
    );
    assert_eq!(
        Program::Token.program_id().text,
        agave_feature_set::replace_spl_token_with_p_token::SPL_TOKEN_PROGRAM_ID.to_string()
    );
}

#[test]
fn loader_ids_match_sdk() {
    assert_eq!(
        cbmt::address::bpf_loader_id().text,
        solana_sdk::bpf_loader::id().to_string()
    );
    assert_eq!(
        cbmt::address::bpf_loader_id().as_str(),
        "BPFLoader2111111111111111111111111111111111"
    );
    assert_eq!(
        cbmt::address::native_loader_id().as_str(),
        "NativeLoader1111111111111111111111111111111"
    );
    assert_eq!(
        cbmt::address::bpf_loader_upgradeable_id().as_str(),
        "BPFLoaderUpgradeab1e11111111111111111111111"
    );
    assert_eq!(
        cbmt::address::native_loader_id().text,
        solana_sdk::native_loader::id().to_string()
    );
}

#[test]
fn snake_case_is_name_with_underscores() {
    for p in ALL {
        let snake = p.to_string().replace('-', "_");
        assert_eq!(p.elf_name(), format!("{}.so", snake));
    }
    assert_eq!(Program::AddressLookupTable.elf_name(), "address_lookup_table.so");
    assert_eq!(Program::FeatureGate.elf_name(), "feature_gate.so");
}

#[test]
fn elf_path_of_program_elf_name() {
    for p in ALL {
        let snake = p.to_string().replace('-', "_");
        let expected = std::path::Path::new("elfs").join(p.elf_name());
        assert_eq!(cbmt::genesis::elf_path("elfs", &snake), expected.to_str().unwrap());
    }
}
