//! The banners printed at the start of each test: their lines, decided
//! here, printed by the program.

use vstd::prelude::*;
use crate::address::Address;
use crate::command::{opt_text, owned, texts};
use vstd::string::StrSliceExecFns;

verus! {

/// The description that `agave_feature_set::FEATURE_NAMES` holds for the
/// feature at the address written by `id`.
pub uninterp spec fn feature_name(id: Seq<char>) -> Option<Seq<char>>;

/// Looks the feature up in `agave_feature_set::FEATURE_NAMES` (a fixed map
/// from feature address to description), after reading `id` as a base58
/// address with `Pubkey::from_str`. `None` when the text is no address or
/// the map does not hold it.
#[verifier::external_body]
fn lookup_feature_name(id: &str) -> (r: Option<String>)
    ensures
        opt_text(r) == feature_name(id@),
{
    <solana_pubkey::Pubkey as std::str::FromStr>::from_str(id).ok().and_then(
        |key| agave_feature_set::FEATURE_NAMES.get(&key).map(|name| name.to_string()),
    )
}

/// The rule above and below the banner's content.
pub open spec fn rule() -> Seq<char> {
    "    ============================================="@
}

/// At most the first `n` characters of `s`.
pub open spec fn first_chars(s: Seq<char>, n: nat) -> Seq<char> {
    if s.len() <= n {
        s
    } else {
        s.subrange(0, n as int)
    }
}

/// The lines of the banner of the stub test: its title, the start of the
/// feature's description (160 characters at most), the feature and the
/// buffer address.
pub open spec fn stub_banner(description: Seq<char>, feature_id: Seq<char>, buffer: Seq<char>) -> Seq<
    Seq<char>,
> {
    seq![
        Seq::empty(),
        rule(),
        "    Loader v2 -> Loader v3 BPF Migration Test"@,
        Seq::empty(),
        "    Description   : "@ + first_chars(description, 160),
        Seq::empty(),
        "    Feature ID    : "@ + feature_id,
        Seq::empty(),
        "    Buffer Address: "@ + buffer,
        rule(),
        Seq::empty(),
        Seq::empty(),
    ]
}

/// The name of the fixtures in use.
pub open spec fn fixtures_name(use_mollusk_fixtures: bool) -> Seq<char> {
    if use_mollusk_fixtures {
        "Mollusk"@
    } else {
        "Firedancer"@
    }
}

/// The lines of the banner of a fixtures or conformance test titled
/// `title`.
pub open spec fn cluster_banner(
    title: Seq<char>,
    cluster: Seq<char>,
    buffer: Seq<char>,
    use_mollusk_fixtures: bool,
) -> Seq<Seq<char>> {
    seq![
        Seq::empty(),
        rule(),
        title,
        Seq::empty(),
        "    Buffer Address: "@ + buffer,
        Seq::empty(),
        "    Cloning From  : "@ + cluster,
        Seq::empty(),
        "    Fixtures      : "@ + fixtures_name(use_mollusk_fixtures),
        rule(),
        Seq::empty(),
        Seq::empty(),
    ]
}

/// At most the first `n` characters of `s`.
fn take_chars(s: &str, n: usize) -> (r: String)
    ensures
        r@ == first_chars(s@, n as nat),
{
    let len: usize = s.unicode_len();
    let k: usize = if len <= n {
        len
    } else {
        n
    };
    let r = String::from_str(s.substring_char(0, k));
    assert(len <= n ==> s@.subrange(0, k as int) =~= s@);
    r
}

/// The banner of the stub test for the migration `feature_id` with the ELF
/// in `buffer_address`; `None` when the feature is not a known feature.
pub fn title_stub_test(feature_id: &Address, buffer_address: &Address) -> (r: Option<
    Vec<String>,
>)
    ensures
        r is None <==> feature_name(feature_id@) is None,
        r matches Some(lines) ==> texts(lines@) == stub_banner(
            feature_name(feature_id@).unwrap(),
            feature_id@,
            buffer_address@,
        ),
{
    let description = match lookup_feature_name(feature_id.as_str()) {
        Some(d) => d,
        None => {
            return None;
        },
    };
    let short = take_chars(description.as_str(), 160);
    let lines: Vec<String> = vec![
        String::new(),
        owned("    ============================================="),
        owned("    Loader v2 -> Loader v3 BPF Migration Test"),
        String::new(),
        owned("    Description   : ").concat(short.as_str()),
        String::new(),
        owned("    Feature ID    : ").concat(feature_id.as_str()),
        String::new(),
        owned("    Buffer Address: ").concat(buffer_address.as_str()),
        owned("    ============================================="),
        String::new(),
        String::new(),
    ];
    assert(texts(lines@) =~= stub_banner(description@, feature_id@, buffer_address@));
    Some(lines)
}

/// The lines of a banner of a test against a cluster.
fn cluster_test_banner(
    title: &str,
    cluster: &str,
    buffer_address: &Address,
    use_mollusk_fixtures: bool,
) -> (r: Vec<String>)
    ensures
        texts(r@) == cluster_banner(title@, cluster@, buffer_address@, use_mollusk_fixtures),
{
    let fixtures = if use_mollusk_fixtures {
        "Mollusk"
    } else {
        "Firedancer"
    };
    let lines: Vec<String> = vec![
        String::new(),
        owned("    ============================================="),
        owned(title),
        String::new(),
        owned("    Buffer Address: ").concat(buffer_address.as_str()),
        String::new(),
        owned("    Cloning From  : ").concat(cluster),
        String::new(),
        owned("    Fixtures      : ").concat(fixtures),
        owned("    ============================================="),
        String::new(),
        String::new(),
    ];
    assert(texts(lines@) =~= cluster_banner(title@, cluster@, buffer_address@, use_mollusk_fixtures));
    lines
}

/// The banner of the fixtures test of the ELF in `buffer_address`, cloned
/// from `cluster`.
pub fn title_fixtures_test(cluster: &str, buffer_address: &Address, use_mollusk_fixtures: bool) -> (r:
    Vec<String>)
    ensures
        texts(r@) == cluster_banner(
            "    Core BPF Migration Test: Fixtures Test"@,
            cluster@,
            buffer_address@,
            use_mollusk_fixtures,
        ),
{
    cluster_test_banner(
        "    Core BPF Migration Test: Fixtures Test",
        cluster,
        buffer_address,
        use_mollusk_fixtures,
    )
}

/// The banner of the conformance test of the ELF in `buffer_address`,
/// cloned from `cluster`.
pub fn title_conformance_test(
    cluster: &str,
    buffer_address: &Address,
    use_mollusk_fixtures: bool,
) -> (r: Vec<String>)
    ensures
        texts(r@) == cluster_banner(
            "    Core BPF Migration Test: Conformance Test"@,
            cluster@,
            buffer_address@,
            use_mollusk_fixtures,
        ),
{
    cluster_test_banner(
        "    Core BPF Migration Test: Conformance Test",
        cluster,
        buffer_address,
        use_mollusk_fixtures,
    )
}

/// The lines that show a program and its owner.
pub fn title_program_owner(program_id: &Address, owner: &Address) -> (r: Vec<String>)
    ensures
        texts(r@) == seq![
            "    Program      : "@ + program_id@,
            "    Owner        : "@ + owner@,
            Seq::<char>::empty(),
        ],
{
    let lines: Vec<String> = vec![
        owned("    Program      : ").concat(program_id.as_str()),
        owned("    Owner        : ").concat(owner.as_str()),
        String::new(),
    ];
    assert(texts(lines@) =~= seq![
        "    Program      : "@ + program_id@,
        "    Owner        : "@ + owner@,
        Seq::<char>::empty(),
    ]);
    lines
}

} // verus!
