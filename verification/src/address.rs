//! Account addresses, carried as their base58 text, and the well-known
//! addresses that the outside crates declare.

use vstd::prelude::*;

verus! {

/// An account address, held as the base58 text that Solana tools print and
/// parse for a 32-byte public key.
#[derive(Debug)]
pub struct Address {
    pub text: String,
}

impl Clone for Address {
    fn clone(&self) -> (r: Self)
        ensures
            r@ == self@,
    {
        Address { text: self.text.clone() }
    }
}

impl View for Address {
    type V = Seq<char>;

    open spec fn view(&self) -> Seq<char> {
        self.text@
    }
}

impl Address {
    /// The address written by `text`.
    pub fn from_text(text: &str) -> (r: Address)
        ensures
            r@ == text@,
    {
        Address { text: String::from_str(text) }
    }

    /// The base58 text of the address.
    pub fn as_str(&self) -> (r: &str)
        ensures
            r@ == self@,
    {
        self.text.as_str()
    }
}

/// `solana_sdk::bpf_loader::id()` as text. The crate declares it with
/// `declare_id!("BPFLoader2111111111111111111111111111111111")`, and `to_string`
/// writes the key back as that base58 text.
#[verifier::external_body]
fn bpf_loader_text() -> (r: String)
    ensures
        r@ == "BPFLoader2111111111111111111111111111111111"@,
{
    solana_sdk::bpf_loader::id().to_string()
}

/// `solana_sdk::bpf_loader_upgradeable::id()` as text; declared with
/// `declare_id!("BPFLoaderUpgradeab1e11111111111111111111111")`.
#[verifier::external_body]
fn bpf_loader_upgradeable_text() -> (r: String)
    ensures
        r@ == "BPFLoaderUpgradeab1e11111111111111111111111"@,
{
    solana_sdk::bpf_loader_upgradeable::id().to_string()
}

/// `solana_sdk::native_loader::id()` as text; declared with
/// `declare_id!("NativeLoader1111111111111111111111111111111")`.
#[verifier::external_body]
fn native_loader_text() -> (r: String)
    ensures
        r@ == "NativeLoader1111111111111111111111111111111"@,
{
    solana_sdk::native_loader::id().to_string()
}

/// The owner of a program deployed with the BPF loader v2.
pub fn bpf_loader_id() -> (r: Address)
    ensures
        r@ == "BPFLoader2111111111111111111111111111111111"@,
{
    Address { text: bpf_loader_text() }
}

/// The owner of a program deployed with the upgradeable BPF loader (v3).
pub fn bpf_loader_upgradeable_id() -> (r: Address)
    ensures
        r@ == "BPFLoaderUpgradeab1e11111111111111111111111"@,
{
    Address { text: bpf_loader_upgradeable_text() }
}

/// The owner of a builtin (native) program.
pub fn native_loader_id() -> (r: Address)
    ensures
        r@ == "NativeLoader1111111111111111111111111111111"@,
{
    Address { text: native_loader_text() }
}

} // verus!
