//! The accounts that the test validator starts with: for each migration
//! target, a staged feature account and a buffer account holding the ELF.

use vstd::prelude::*;
use crate::address::{Address, bpf_loader_upgradeable_id};
use crate::text::{joined_path, join_path};
use solana_sdk::account::ReadableAccount;

verus! {

/// What `solana_sdk::rent::Rent::default().minimum_balance(len)` returns.
pub uninterp spec fn default_rent_minimum_balance(len: usize) -> u64;

/// The serialized state `UpgradeableLoaderState::Buffer { authority_address: None }`
/// (bincode): the variant index 1 as a little-endian `u32`, then the tag 0
/// of `None`.
pub open spec fn buffer_state_bytes() -> Seq<u8> {
    seq![1u8, 0u8, 0u8, 0u8, 0u8]
}

/// `n` zero bytes.
pub open spec fn zeros(n: nat) -> Seq<u8> {
    Seq::new(n, |i: int| 0u8)
}

/// The data of a new buffer account of `space` bytes with no authority: the
/// serialized state, then zeros.
pub open spec fn empty_buffer_account_data(space: nat) -> Seq<u8> {
    buffer_state_bytes() + zeros((space - 5) as nat)
}

/// The lamports that make an account of `len` data bytes rent exempt under
/// the default rent, where the arithmetic is exact:
/// `(128 + len) * 3480` lamports per year, held for two years.
pub open spec fn exact_rent_minimum(len: int) -> int {
    2 * ((128 + len) * 3480)
}

/// `Rent::default().minimum_balance(len)`. The crate computes
/// `(((128 + len) * 3480) as f64 * 2.0) as u64` (its `ACCOUNT_STORAGE_OVERHEAD`,
/// `DEFAULT_LAMPORTS_PER_BYTE_YEAR` and `DEFAULT_EXEMPTION_THRESHOLD`); the
/// integer product must not overflow. The contract gives the exact value
/// where the product is below 2^53, so that the float steps are exact;
/// above that it only names the result.
#[verifier::external_body]
fn rent_minimum_balance(len: usize) -> (r: u64)
    requires
        (128 + len) * 3480 <= u64::MAX,
    ensures
        r == default_rent_minimum_balance(len),
        (128 + len) * 3480 < 0x20_0000_0000_0000 ==> r == exact_rent_minimum(len as int),
{
    solana_sdk::rent::Rent::default().minimum_balance(len)
}

/// `solana_sdk::feature::Feature::size_of()`, which the crate defines as
/// the constant 9.
#[verifier::external_body]
fn feature_account_size() -> (r: usize)
    ensures
        r == 9,
{
    solana_sdk::feature::Feature::size_of()
}

/// `UpgradeableLoaderState::size_of_buffer_metadata()`, the constant 37.
#[verifier::external_body]
fn buffer_metadata_size() -> (r: usize)
    ensures
        r == 37,
{
    solana_sdk::bpf_loader_upgradeable::UpgradeableLoaderState::size_of_buffer_metadata()
}

/// `UpgradeableLoaderState::size_of_buffer(program_len)`, which the crate
/// defines as `37usize.saturating_add(program_len)`.
#[verifier::external_body]
fn buffer_account_size(program_len: usize) -> (r: usize)
    ensures
        r == if 37 + program_len <= usize::MAX { 37 + program_len } else { usize::MAX as int },
{
    solana_sdk::bpf_loader_upgradeable::UpgradeableLoaderState::size_of_buffer(program_len)
}

/// The data of a new buffer account of `space` bytes with no authority:
/// `AccountSharedData::new_data_with_space` with the state
/// `UpgradeableLoaderState::Buffer { authority_address: None }` (the lamports
/// and owner given to it do not enter the data). The crate zeroes `space`
/// bytes and serializes the state into their front with bincode (5 bytes:
/// the variant index 1 as a little-endian `u32`, then the `None` tag 0),
/// failing only when the serialized state is longer than `space`.
#[verifier::external_body]
fn new_empty_buffer_data(space: usize) -> (r: Option<Vec<u8>>)
    ensures
        r is Some <==> space >= 5,
        r matches Some(d) ==> d@ == empty_buffer_account_data(space as nat),
{
    solana_sdk::account::AccountSharedData::new_data_with_space(
        0,
        &solana_sdk::bpf_loader_upgradeable::UpgradeableLoaderState::Buffer {
            authority_address: None,
        },
        space,
        &solana_sdk::pubkey::Pubkey::default(),
    ).ok().map(|a| a.data().to_vec())
}

/// An account to add to the validator's genesis: what
/// `AccountSharedData::new` would hold, not executable and at rent epoch 0.
#[derive(Debug)]
pub struct GenesisAccount {
    pub lamports: u64,
    pub data: Vec<u8>,
    pub owner: Address,
}

/// A program whose builtin is replaced through a feature activation.
#[derive(Debug)]
pub struct MigrationTarget {
    /// The feature that triggers the migration.
    pub feature_id: Address,
    /// The buffer account that will hold the new ELF.
    pub buffer_address: Address,
    /// The name of the ELF file (without `.so`) to place in the buffer.
    pub elf_name: String,
}

/// The data of the buffer account that holds `elf`: the serialized buffer
/// metadata in its first 37 bytes, then the ELF.
pub open spec fn buffer_account_data(elf: Seq<u8>) -> Seq<u8> {
    buffer_state_bytes() + zeros(32) + elf
}

/// `acct` is the staged feature account: rent-exempt lamports for the 9
/// bytes of a feature, zeroed data, owned by the activator program.
pub open spec fn is_staged_feature_account(acct: GenesisAccount, activator: Seq<char>) -> bool {
    &&& acct.lamports == default_rent_minimum_balance(9)
    &&& acct.data@ == Seq::new(9, |i: int| 0u8)
    &&& acct.owner@ == activator
}

/// `acct` is the buffer account that holds `elf`, owned by the upgradeable
/// loader and rent exempt for its size.
pub open spec fn is_buffer_account(acct: GenesisAccount, elf: Seq<u8>) -> bool {
    &&& acct.lamports == default_rent_minimum_balance((37 + elf.len()) as usize)
    &&& acct.data@ == buffer_account_data(elf)
    &&& acct.owner@ == "BPFLoaderUpgradeab1e11111111111111111111111"@
}

/// The ELF sizes that fit in a buffer account: the
/// account size must not saturate and the rent computation must not
/// overflow.
pub open spec fn elf_fits(elf_len: int) -> bool {
    &&& 37 + elf_len <= usize::MAX
    &&& (128 + 37 + elf_len) * 3480 <= u64::MAX
}

/// A "staged" feature account, owned by the activator program, so that the
/// activator can later hand it to the feature program.
pub fn staged_feature_account(activator: &Address) -> (r: GenesisAccount)
    ensures
        is_staged_feature_account(r, activator@),
        r.lamports == exact_rent_minimum(9),
{
    let space = feature_account_size();
    let lamports = rent_minimum_balance(space);
    let mut data: Vec<u8> = Vec::new();
    let mut i: usize = 0;
    while i < space
        invariant
            space == 9,
            i <= space,
            data@ == Seq::new(i as nat, |k: int| 0u8),
        decreases space - i,
    {
        data.push(0u8);
        i = i + 1;
    }
    GenesisAccount { lamports, data, owner: activator.clone() }
}

/// A buffer account, owned by the upgradeable loader, holding `elf` after
/// the buffer metadata.
pub fn buffer_account(elf: &[u8]) -> (r: GenesisAccount)
    requires
        elf_fits(elf@.len() as int),
    ensures
        is_buffer_account(r, elf@),
        r.data@.len() == 37 + elf@.len(),
        r.data@.subrange(37, 37 + elf@.len() as int) == elf@,
        (128 + 37 + elf@.len()) * 3480 < 0x20_0000_0000_0000 ==> r.lamports == exact_rent_minimum(
            37 + elf@.len() as int,
        ),
{
    let space = buffer_account_size(elf.len());
    let lamports = rent_minimum_balance(space);
    let metadata = buffer_metadata_size();
    let template = new_empty_buffer_data(space);
    // The template is always there: `space` is at least the 37 metadata bytes.
    let mut data = match template {
        Some(d) => d,
        None => Vec::new(),
    };
    let ghost header = data@.subrange(0, 37);
    assert(header =~= buffer_state_bytes() + zeros(32));
    let mut i: usize = 0;
    while i < elf.len()
        invariant
            space == 37 + elf@.len(),
            metadata == 37,
            data@.len() == space,
            i <= elf@.len(),
            data@.subrange(0, 37) == header,
            forall|k: int| 0 <= k < i ==> data@[37 + k] == elf@[k],
        decreases elf.len() - i,
    {
        data.set(metadata + i, elf[i]);
        i = i + 1;
    }
    assert(data@ =~= header + elf@);
    GenesisAccount { lamports, data, owner: bpf_loader_upgradeable_id() }
}

/// The features that the test validator must start with deactivated: the
/// migration features of all targets, in order.
pub fn deactivate_list(targets: &Vec<MigrationTarget>) -> (r: Vec<Address>)
    ensures
        r@.len() == targets@.len(),
        forall|i: int| 0 <= i < targets@.len() ==> r@[i]@ == targets@[i].feature_id@,
{
    let mut r: Vec<Address> = Vec::new();
    let mut i: usize = 0;
    while i < targets.len()
        invariant
            i <= targets@.len(),
            r@.len() == i,
            forall|k: int| 0 <= k < i ==> r@[k]@ == targets@[k].feature_id@,
        decreases targets.len() - i,
    {
        r.push(targets[i].feature_id.clone());
        i = i + 1;
    }
    r
}

/// The accounts to add to the genesis, two per target in the targets'
/// order: the staged feature account at the feature's address, then the
/// buffer account holding the target's ELF at the buffer address.
/// `elfs[i]` is the ELF read for `targets[i]`.
pub fn genesis_accounts(
    targets: &Vec<MigrationTarget>,
    elfs: &Vec<Vec<u8>>,
    activator: &Address,
) -> (r: Vec<(Address, GenesisAccount)>)
    requires
        elfs@.len() == targets@.len(),
        forall|i: int| 0 <= i < elfs@.len() ==> elf_fits(#[trigger] elfs@[i]@.len() as int),
    ensures
        r@.len() == 2 * targets@.len(),
        forall|i: int|
            0 <= i < targets@.len() ==> {
                &&& (#[trigger] r@[2 * i]).0@ == targets@[i].feature_id@
                &&& is_staged_feature_account(r@[2 * i].1, activator@)
                &&& r@[2 * i + 1].0@ == targets@[i].buffer_address@
                &&& is_buffer_account(r@[2 * i + 1].1, elfs@[i]@)
            },
{
    let mut r: Vec<(Address, GenesisAccount)> = Vec::new();
    let mut i: usize = 0;
    while i < targets.len()
        invariant
            elfs@.len() == targets@.len(),
            forall|k: int| 0 <= k < elfs@.len() ==> elf_fits(#[trigger] elfs@[k]@.len() as int),
            i <= targets@.len(),
            r@.len() == 2 * i,
            forall|k: int|
                0 <= k < i ==> {
                    &&& (#[trigger] r@[2 * k]).0@ == targets@[k].feature_id@
                    &&& is_staged_feature_account(r@[2 * k].1, activator@)
                    &&& r@[2 * k + 1].0@ == targets@[k].buffer_address@
                    &&& is_buffer_account(r@[2 * k + 1].1, elfs@[k]@)
                },
        decreases targets.len() - i,
    {
        let feature = (targets[i].feature_id.clone(), staged_feature_account(activator));
        let elf: &[u8] = elfs[i].as_slice();
        let buffer = (targets[i].buffer_address.clone(), buffer_account(elf));
        r.push(feature);
        r.push(buffer);
        assert(r@[2 * i as int] == feature);
        i = i + 1;
    }
    r
}

/// The path of the ELF file `program_name.so` in `elf_dir`.
pub fn elf_path(elf_dir: &str, program_name: &str) -> (r: String)
    ensures
        r@ == joined_path(elf_dir@, program_name@ + ".so"@),
{
    let file = String::from_str(program_name).concat(".so");
    join_path(elf_dir, file.as_str())
}

/// The ELF held by a buffer account's data: what follows the 37 bytes of
/// buffer metadata. `None` when the data is too short to hold the metadata
/// (the buffer account is too small).
pub fn elf_from_buffer_data(data: &[u8]) -> (r: Option<Vec<u8>>)
    ensures
        r is None <==> data@.len() < 37,
        r matches Some(elf) ==> elf@ == data@.subrange(37, data@.len() as int),
{
    let metadata = buffer_metadata_size();
    if data.len() < metadata {
        return None;
    }
    let mut elf: Vec<u8> = Vec::new();
    let mut i: usize = metadata;
    while i < data.len()
        invariant
            metadata == 37,
            37 <= i <= data@.len(),
            elf@ == data@.subrange(37, i as int),
        decreases data.len() - i,
    {
        elf.push(data[i]);
        i = i + 1;
        assert(elf@ =~= data@.subrange(37, i as int));
    }
    Some(elf)
}

/// Reading the ELF back from a buffer account's data gives the ELF that was
/// placed in it: the data holds 37 bytes of metadata, which reading strips,
/// then the ELF.
pub proof fn lemma_buffer_round_trip(elf: Seq<u8>)
    ensures
        buffer_account_data(elf).len() == 37 + elf.len(),
        buffer_account_data(elf).subrange(37, buffer_account_data(elf).len() as int) == elf,
{
    assert(buffer_account_data(elf).subrange(37, buffer_account_data(elf).len() as int) =~= elf);
}

} // verus!
