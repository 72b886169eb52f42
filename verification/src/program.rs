//! The builtin programs whose migration to Core BPF can be tested.

use vstd::prelude::*;
use crate::address::Address;
use crate::text::str_eq;

verus! {

/// A builtin program with a Core BPF replacement.
#[derive(Clone, Copy, Debug, PartialEq, Eq, Structural)]
pub enum Program {
    AddressLookupTable,
    Config,
    FeatureGate,
    Token,
}

/// The name by which the command line selects the program.
pub open spec fn program_name(p: Program) -> Seq<char> {
    match p {
        Program::AddressLookupTable => "address-lookup-table"@,
        Program::Config => "config"@,
        Program::FeatureGate => "feature-gate"@,
        Program::Token => "token"@,
    }
}

/// The program that a command-line name selects, if any.
pub open spec fn parse_program(s: Seq<char>) -> Option<Program> {
    if s == "address-lookup-table"@ {
        Some(Program::AddressLookupTable)
    } else if s == "config"@ {
        Some(Program::Config)
    } else if s == "feature-gate"@ {
        Some(Program::FeatureGate)
    } else if s == "token"@ {
        Some(Program::Token)
    } else {
        None
    }
}

/// The program's name with underscores, as its crate and ELF file are named.
pub open spec fn snake_case_name(p: Program) -> Seq<char> {
    match p {
        Program::AddressLookupTable => "address_lookup_table"@,
        Program::Config => "config"@,
        Program::FeatureGate => "feature_gate"@,
        Program::Token => "token"@,
    }
}

/// Where the program's fixtures lie inside the test-vectors repository.
pub open spec fn fixtures_dir(p: Program) -> Seq<char> {
    match p {
        Program::AddressLookupTable => "instr/fixtures/address-lookup-table"@,
        Program::Config => "instr/fixtures/config"@,
        Program::FeatureGate => "instr/fixtures/feature-gate"@,
        Program::Token => "instr/fixtures/token"@,
    }
}

/// The base58 address of the buffer account that holds the program's
/// Core BPF ELF on the clusters.
pub open spec fn buffer_address_text(p: Program) -> Seq<char> {
    match p {
        Program::AddressLookupTable => "AhXWrD9BBUYcKjtpA3zuiiZG4ysbo6C6wjHo1QhERk6A"@,
        Program::Config => "BuafH9fBv62u6XjzrzS4ZjAE8963ejqF5rt1f8Uga4Q3"@,
        Program::FeatureGate => "3D3ydPWvmEszrSjrickCtnyRSJm1rzbbSsZog8Ub6vLh"@,
        Program::Token => "ptokNfvuU7terQ2r2452RzVXB3o4GT33yPWo1fUkkZ2"@,
    }
}

/// The feature whose activation performs the program's migration.
pub open spec fn feature_gate_text(p: Program) -> Seq<char> {
    match p {
        Program::AddressLookupTable => "C97eKZygrkU4JxJsZdjgbUY7iQR7rKTr4NyDWo2E5pRm"@,
        Program::Config => "2Fr57nzzkLYXW695UdDxDeR5fhnZWSttZeZYemrnpGFV"@,
        Program::FeatureGate => "4eohviozzEeivk1y9UbrnekbAFMDQyJz5JjA9Y6gyvky"@,
        Program::Token => "ptokFjwyJtrwCa9Kgo9xoDS59V4QccBGEaRFnRPnSdP"@,
    }
}

/// The address of the program itself.
pub open spec fn program_id_text(p: Program) -> Seq<char> {
    match p {
        Program::AddressLookupTable => "AddressLookupTab1e1111111111111111111111111"@,
        Program::Config => "Config1111111111111111111111111111111111111"@,
        Program::FeatureGate => "Feature111111111111111111111111111111111111"@,
        Program::Token => "TokenkegQfeZyiNwAJbNbGKPFXCWuBvf9Ss623VQ5DA"@,
    }
}

/// The conformance fixtures that are known not to pass for the program and
/// are removed before a run.
pub open spec fn skipped_fixtures(p: Program) -> Seq<Seq<char>> {
    match p {
        Program::AddressLookupTable => seq![
            "6d8f5dc4bb073f6ae72a950b5108c82b41c6347a_3246919"@,
            "9017cf61dc0da7aa28a0b63a058f685e87df1e9a_2789718"@,
            "9c02f3e6bc4f519ed342f4a017a4d7050faef079_2789718"@,
            "9d3983516dd9cc4d515bf05f98011f22935093a4_3246919"@,
            "c328874b96d05db6bacb01c6534e43c1c065f3bd_3246919"@,
            "e5474fe3b664271f922437a3c707dc7d537d91ec_2789718"@,
        ],
        Program::Config => seq![
            "04a0b782cb1f4b1be044313331edda9dfb4696d6"@,
            "c7ec10c03d5faadcebd32dc5b9a4086abef892ca_3157979"@,
            "68e8dbf0f31de69a2bd1d2c0fe9af3ba676301d6_3157979"@,
            "f84b5ad44f7a253ebc8056d06396694370a7fa4c_3157979"@,
            "8bbe900444c675cfc3fbf0f80ae2eb061e536a09"@,
        ],
        Program::FeatureGate => seq![],
        Program::Token => seq![],
    }
}


/// `agave_feature_set::migrate_address_lookup_table_program_to_core_bpf::ID` as
/// text; the crate declares it with
/// `declare_id!("C97eKZygrkU4JxJsZdjgbUY7iQR7rKTr4NyDWo2E5pRm")`, and `to_string`
/// writes the key back as that base58 text.
#[verifier::external_body]
fn address_lookup_table_migration_feature() -> (r: String)
    ensures
        r@ == "C97eKZygrkU4JxJsZdjgbUY7iQR7rKTr4NyDWo2E5pRm"@,
{
    agave_feature_set::migrate_address_lookup_table_program_to_core_bpf::ID.to_string()
}

/// `agave_feature_set::migrate_config_program_to_core_bpf::ID` as text; declared
/// with `declare_id!("2Fr57nzzkLYXW695UdDxDeR5fhnZWSttZeZYemrnpGFV")`.
#[verifier::external_body]
fn config_migration_feature() -> (r: String)
    ensures
        r@ == "2Fr57nzzkLYXW695UdDxDeR5fhnZWSttZeZYemrnpGFV"@,
{
    agave_feature_set::migrate_config_program_to_core_bpf::ID.to_string()
}

/// `agave_feature_set::migrate_feature_gate_program_to_core_bpf::ID` as text;
/// declared with `declare_id!("4eohviozzEeivk1y9UbrnekbAFMDQyJz5JjA9Y6gyvky")`.
#[verifier::external_body]
fn feature_gate_migration_feature() -> (r: String)
    ensures
        r@ == "4eohviozzEeivk1y9UbrnekbAFMDQyJz5JjA9Y6gyvky"@,
{
    agave_feature_set::migrate_feature_gate_program_to_core_bpf::ID.to_string()
}

/// `agave_feature_set::replace_spl_token_with_p_token::ID` as text; declared
/// with `declare_id!("ptokFjwyJtrwCa9Kgo9xoDS59V4QccBGEaRFnRPnSdP")`.
#[verifier::external_body]
fn token_replacement_feature() -> (r: String)
    ensures
        r@ == "ptokFjwyJtrwCa9Kgo9xoDS59V4QccBGEaRFnRPnSdP"@,
{
    agave_feature_set::replace_spl_token_with_p_token::ID.to_string()
}

/// `agave_feature_set::replace_spl_token_with_p_token::SPL_TOKEN_PROGRAM_ID` as
/// text; the crate defines it as
/// `Pubkey::from_str_const("TokenkegQfeZyiNwAJbNbGKPFXCWuBvf9Ss623VQ5DA")`.
#[verifier::external_body]
fn spl_token_program() -> (r: String)
    ensures
        r@ == "TokenkegQfeZyiNwAJbNbGKPFXCWuBvf9Ss623VQ5DA"@,
{
    agave_feature_set::replace_spl_token_with_p_token::SPL_TOKEN_PROGRAM_ID.to_string()
}

/// `solana_sdk_ids::address_lookup_table::ID` as text; declared with
/// `declare_id!("AddressLookupTab1e1111111111111111111111111")`.
#[verifier::external_body]
fn address_lookup_table_program() -> (r: String)
    ensures
        r@ == "AddressLookupTab1e1111111111111111111111111"@,
{
    solana_sdk_ids::address_lookup_table::ID.to_string()
}

/// `solana_sdk::config::program::ID` (re-exported from
/// `solana_sdk_ids::config`) as text; declared with
/// `declare_id!("Config1111111111111111111111111111111111111")`.
#[verifier::external_body]
fn config_program() -> (r: String)
    ensures
        r@ == "Config1111111111111111111111111111111111111"@,
{
    solana_sdk::config::program::ID.to_string()
}

/// `solana_sdk_ids::feature::ID` as text; declared with
/// `declare_id!("Feature111111111111111111111111111111111111")`.
#[verifier::external_body]
fn feature_program() -> (r: String)
    ensures
        r@ == "Feature111111111111111111111111111111111111"@,
{
    solana_sdk_ids::feature::ID.to_string()
}

impl Program {
    /// The buffer account that holds the program's Core BPF ELF.
    pub fn buffer_address(&self) -> (r: Address)
        ensures
            r@ == buffer_address_text(*self),
    {
        match self {
            Program::AddressLookupTable => Address::from_text("AhXWrD9BBUYcKjtpA3zuiiZG4ysbo6C6wjHo1QhERk6A"),
            Program::Config => Address::from_text("BuafH9fBv62u6XjzrzS4ZjAE8963ejqF5rt1f8Uga4Q3"),
            Program::FeatureGate => Address::from_text("3D3ydPWvmEszrSjrickCtnyRSJm1rzbbSsZog8Ub6vLh"),
            Program::Token => Address::from_text("ptokNfvuU7terQ2r2452RzVXB3o4GT33yPWo1fUkkZ2"),
        }
    }

    /// The file name of the program's ELF: its snake-case name and `.so`.
    pub fn elf_name(&self) -> (r: String)
        ensures
            r@ == snake_case_name(*self) + ".so"@,
    {
        String::from_str(self.name_snake_case()).concat(".so")
    }

    /// The feature gate that migrates the program.
    pub fn feature_gate(&self) -> (r: Address)
        ensures
            r@ == feature_gate_text(*self),
    {
        let text = match self {
            Program::AddressLookupTable => address_lookup_table_migration_feature(),
            Program::Config => config_migration_feature(),
            Program::FeatureGate => feature_gate_migration_feature(),
            Program::Token => token_replacement_feature(),
        };
        Address { text }
    }

    /// Where the program's fixtures lie inside the test-vectors repository.
    pub fn fixtures_path(&self) -> (r: &'static str)
        ensures
            r@ == fixtures_dir(*self),
    {
        match self {
            Program::AddressLookupTable => "instr/fixtures/address-lookup-table",
            Program::Config => "instr/fixtures/config",
            Program::FeatureGate => "instr/fixtures/feature-gate",
            Program::Token => "instr/fixtures/token",
        }
    }

    fn name_snake_case(&self) -> (r: &'static str)
        ensures
            r@ == snake_case_name(*self),
    {
        match self {
            Program::AddressLookupTable => "address_lookup_table",
            Program::Config => "config",
            Program::FeatureGate => "feature_gate",
            Program::Token => "token",
        }
    }

    /// The address of the program.
    pub fn program_id(&self) -> (r: Address)
        ensures
            r@ == program_id_text(*self),
    {
        let text = match self {
            Program::AddressLookupTable => address_lookup_table_program(),
            Program::Config => config_program(),
            Program::FeatureGate => feature_program(),
            Program::Token => spl_token_program(),
        };
        Address { text }
    }

    /// The git URL of the program's repository.
    pub fn repository(&self) -> (r: String)
        ensures
            r@ == "https://github.com/solana-program/"@ + program_name(*self) + ".git"@,
    {
        let name = self.to_string();
        String::from_str("https://github.com/solana-program/").concat(name.as_str()).concat(".git")
    }

    /// The conformance fixtures to remove before running the suite.
    pub fn skip_conformance_fixtures(&self) -> (r: Vec<&'static str>)
        ensures
            r@.map_values(|s: &'static str| s@) == skipped_fixtures(*self),
    {
        let r: Vec<&'static str> = match self {
            Program::AddressLookupTable => vec![
                "6d8f5dc4bb073f6ae72a950b5108c82b41c6347a_3246919",
                "9017cf61dc0da7aa28a0b63a058f685e87df1e9a_2789718",
                "9c02f3e6bc4f519ed342f4a017a4d7050faef079_2789718",
                "9d3983516dd9cc4d515bf05f98011f22935093a4_3246919",
                "c328874b96d05db6bacb01c6534e43c1c065f3bd_3246919",
                "e5474fe3b664271f922437a3c707dc7d537d91ec_2789718",
            ],
            Program::Config => vec![
                "04a0b782cb1f4b1be044313331edda9dfb4696d6",
                "c7ec10c03d5faadcebd32dc5b9a4086abef892ca_3157979",
                "68e8dbf0f31de69a2bd1d2c0fe9af3ba676301d6_3157979",
                "f84b5ad44f7a253ebc8056d06396694370a7fa4c_3157979",
                "8bbe900444c675cfc3fbf0f80ae2eb061e536a09",
            ],
            Program::FeatureGate => vec![],
            Program::Token => vec![],
        };
        assert(r@.map_values(|s: &'static str| s@) =~= skipped_fixtures(*self));
        r
    }

    /// The program's command-line name, as it is printed.
    pub fn to_string(&self) -> (r: String)
        ensures
            r@ == program_name(*self),
    {
        let s: &str = match self {
            Program::AddressLookupTable => "address-lookup-table",
            Program::Config => "config",
            Program::FeatureGate => "feature-gate",
            Program::Token => "token",
        };
        String::from_str(s)
    }

    /// Selects a program by its command-line name.
    pub fn from_str(s: &str) -> (r: Result<Program, String>)
        ensures
            r is Ok <==> parse_program(s@) is Some,
            r matches Ok(p) ==> parse_program(s@) == Some(p),
            r matches Err(e) ==> e@ == "Invalid program name: "@ + s@,
    {
        if str_eq(s, "address-lookup-table") {
            Ok(Program::AddressLookupTable)
        } else if str_eq(s, "config") {
            Ok(Program::Config)
        } else if str_eq(s, "feature-gate") {
            Ok(Program::FeatureGate)
        } else if str_eq(s, "token") {
            Ok(Program::Token)
        } else {
            Err(String::from_str("Invalid program name: ").concat(s))
        }
    }
}


/// Every program's command-line name selects that program again: what the
/// program prints as its name, `from_str` turns back into it.
pub proof fn lemma_name_round_trip(p: Program)
    ensures
        parse_program(program_name(p)) == Some(p),
{
    reveal_strlit("address-lookup-table");
    reveal_strlit("config");
    reveal_strlit("feature-gate");
    reveal_strlit("token");
    // The four names differ in length.
    assert("address-lookup-table"@.len() == 20);
    assert("config"@.len() == 6);
    assert("feature-gate"@.len() == 12);
    assert("token"@.len() == 5);
}

/// Distinct programs have distinct command-line names.
pub proof fn lemma_names_distinct(p: Program, q: Program)
    requires
        p != q,
    ensures
        program_name(p) != program_name(q),
{
    lemma_name_round_trip(p);
    lemma_name_round_trip(q);
}

/// A name is accepted exactly when it is the name of some program.
pub proof fn lemma_parse_accepts_only_names(s: Seq<char>)
    ensures
        parse_program(s) is Some <==> exists|p: Program| program_name(p) == s,
        parse_program(s) matches Some(p) ==> program_name(p) == s,
{
    if parse_program(s) is Some {
        assert(program_name(parse_program(s).unwrap()) == s);
    }
    assert forall|p: Program| program_name(p) == s implies parse_program(s) is Some by {
        lemma_name_round_trip(p);
    }
}

/// No program skips a fixture twice: its skipped fixtures are pairwise
/// distinct, so that each entry removes a fixture of its own. The address
/// lookup table program skips six fixtures, among them
/// `9017cf61dc0da7aa28a0b63a058f685e87df1e9a_2789718`; the config program
/// skips five; the other programs skip none.
pub proof fn lemma_skipped_fixtures_distinct(p: Program)
    ensures
        forall|i: int, j: int|
            0 <= i < j < skipped_fixtures(p).len() ==> #[trigger] skipped_fixtures(p)[i]
                != #[trigger] skipped_fixtures(p)[j],
        skipped_fixtures(Program::AddressLookupTable).len() == 6,
        skipped_fixtures(Program::AddressLookupTable).contains(
            "9017cf61dc0da7aa28a0b63a058f685e87df1e9a_2789718"@,
        ),
        skipped_fixtures(Program::Config).len() == 5,
        skipped_fixtures(Program::FeatureGate).len() == 0,
        skipped_fixtures(Program::Token).len() == 0,
{
    reveal_strlit("6d8f5dc4bb073f6ae72a950b5108c82b41c6347a_3246919");
    reveal_strlit("9017cf61dc0da7aa28a0b63a058f685e87df1e9a_2789718");
    reveal_strlit("9c02f3e6bc4f519ed342f4a017a4d7050faef079_2789718");
    reveal_strlit("9d3983516dd9cc4d515bf05f98011f22935093a4_3246919");
    reveal_strlit("c328874b96d05db6bacb01c6534e43c1c065f3bd_3246919");
    reveal_strlit("e5474fe3b664271f922437a3c707dc7d537d91ec_2789718");
    reveal_strlit("04a0b782cb1f4b1be044313331edda9dfb4696d6");
    reveal_strlit("c7ec10c03d5faadcebd32dc5b9a4086abef892ca_3157979");
    reveal_strlit("68e8dbf0f31de69a2bd1d2c0fe9af3ba676301d6_3157979");
    reveal_strlit("f84b5ad44f7a253ebc8056d06396694370a7fa4c_3157979");
    reveal_strlit("8bbe900444c675cfc3fbf0f80ae2eb061e536a09");
    let alt = skipped_fixtures(Program::AddressLookupTable);
    let cfg = skipped_fixtures(Program::Config);
    // The address lookup table ids differ in their first two characters.
    assert(alt[0][0] == '6');
    assert(alt[1][0] == '9' && alt[1][1] == '0');
    assert(alt[2][0] == '9' && alt[2][1] == 'c');
    assert(alt[3][0] == '9' && alt[3][1] == 'd');
    assert(alt[4][0] == 'c');
    assert(alt[5][0] == 'e');
    // The config ids differ in their first character.
    assert(cfg[0][0] == '0');
    assert(cfg[1][0] == 'c');
    assert(cfg[2][0] == '6');
    assert(cfg[3][0] == 'f');
    assert(cfg[4][0] == '8');
    assert(alt[1] == "9017cf61dc0da7aa28a0b63a058f685e87df1e9a_2789718"@);
    assert(alt.contains("9017cf61dc0da7aa28a0b63a058f685e87df1e9a_2789718"@));
}

/// `s` with every `-` replaced by `_`.
pub open spec fn dashes_to_underscores(s: Seq<char>) -> Seq<char> {
    s.map_values(|c: char| if c == '-' { '_' } else { c })
}

/// A program's snake-case name (that of its ELF) is its command-line name
/// with every `-` replaced by `_`.
pub proof fn lemma_snake_case_is_name_with_underscores(p: Program)
    ensures
        snake_case_name(p) == dashes_to_underscores(program_name(p)),
{
    reveal_strlit("address-lookup-table");
    reveal_strlit("address_lookup_table");
    reveal_strlit("config");
    reveal_strlit("feature-gate");
    reveal_strlit("feature_gate");
    reveal_strlit("token");
    match p {
        Program::AddressLookupTable => {
            assert(snake_case_name(p) =~= dashes_to_underscores(program_name(p)));
        },
        Program::Config => {
            assert(snake_case_name(p) =~= dashes_to_underscores(program_name(p)));
        },
        Program::FeatureGate => {
            assert(snake_case_name(p) =~= dashes_to_underscores(program_name(p)));
        },
        Program::Token => {
            assert(snake_case_name(p) =~= dashes_to_underscores(program_name(p)));
        },
    }
}

/// A program's fixtures lie under `instr/fixtures/`, in a directory named
/// after the program.
pub proof fn lemma_fixtures_dir_named_after_program(p: Program)
    ensures
        fixtures_dir(p) == "instr/fixtures/"@ + program_name(p),
{
    reveal_strlit("instr/fixtures/");
    reveal_strlit("address-lookup-table");
    reveal_strlit("config");
    reveal_strlit("feature-gate");
    reveal_strlit("token");
    reveal_strlit("instr/fixtures/address-lookup-table");
    reveal_strlit("instr/fixtures/config");
    reveal_strlit("instr/fixtures/feature-gate");
    reveal_strlit("instr/fixtures/token");
    match p {
        Program::AddressLookupTable => {
            assert(fixtures_dir(p) =~= "instr/fixtures/"@ + program_name(p));
        },
        Program::Config => {
            assert(fixtures_dir(p) =~= "instr/fixtures/"@ + program_name(p));
        },
        Program::FeatureGate => {
            assert(fixtures_dir(p) =~= "instr/fixtures/"@ + program_name(p));
        },
        Program::Token => {
            assert(fixtures_dir(p) =~= "instr/fixtures/"@ + program_name(p));
        },
    }
}

impl std::str::FromStr for Program {
    type Err = String;

    fn from_str(s: &str) -> (r: Result<Self, Self::Err>)
        ensures
            r is Ok <==> parse_program(s@) is Some,
            r matches Ok(p) ==> parse_program(s@) == Some(p),
            r matches Err(e) ==> e@ == "Invalid program name: "@ + s@,
    {
        Program::from_str(s)
    }
}

} // verus!
