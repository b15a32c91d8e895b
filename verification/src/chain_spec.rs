//! The development chain's declarative values, in their computable form:
//! the chain-spec header, the genesis preset, the fee schedule and the
//! runtime version. What only an outside serializer can do — turning
//! these values into a chain-spec or genesis JSON document — happens
//! around the library, from these values.

use vstd::prelude::*;
use crate::consensus::str_eq;
use crate::pipeline::{Account, FeeParams};

verus! {

/// The kind of chain a spec describes.
#[derive(Clone, Copy, Debug, PartialEq, Eq, Structural)]
pub enum ChainType {
    Development,
    Local,
    Live,
}

/// The chain properties advertised to clients.
pub struct ChainProperties {
    pub token_decimals: u32,
    pub token_symbol: String,
}

/// The header of a chain spec: its display name, its identifier, its
/// kind, the genesis preset it builds from, and its properties.
pub struct ChainSpecInfo {
    pub name: String,
    pub id: String,
    pub chain_type: ChainType,
    pub genesis_preset: String,
    pub properties: ChainProperties,
}

/// The name of the one genesis preset the runtime offers.
pub open spec fn dev_preset_word() -> Seq<char> {
    "development"@
}

/// The development chain's spec: named `Development`, identified as
/// `dev`, built from the development genesis preset, with a bare token
/// of zero decimals.
pub fn development_chain_spec() -> (s: ChainSpecInfo)
    ensures
        s.name@ == "Development"@,
        s.id@ == "dev"@,
        s.chain_type == ChainType::Development,
        s.genesis_preset@ == dev_preset_word(),
        s.properties.token_decimals == 0,
        s.properties.token_symbol@ == "MINI"@,
{
    ChainSpecInfo {
        name: "Development".to_owned(),
        id: "dev".to_owned(),
        chain_type: ChainType::Development,
        genesis_preset: "development".to_owned(),
        properties: ChainProperties { token_decimals: 0, token_symbol: "MINI".to_owned() },
    }
}

/// The genesis state a preset denotes: the ledger with every test
/// account endowed alike, and the sudo key.
pub struct GenesisConfig {
    /// The balance every endowed account starts with.
    pub endowment: u64,
    /// Account `i` of the ledger; identity `0` is the null identity and
    /// owns nothing.
    pub accounts: Vec<Account>,
    /// The identity holding the sudo key.
    pub sudo: u64,
}

/// The development genesis: every one of the `n_accounts` test accounts
/// (identities `1` to `n_accounts`) is endowed with a thousand times the
/// minimum balance (at least a thousand), and the first account holds
/// the sudo key.
pub fn development_config_genesis(minimum_balance: u64, n_accounts: u64) -> (g: GenesisConfig)
    requires
        minimum_balance <= u64::MAX / 1000,
        n_accounts < 0xFFFF_FFFF,
        n_accounts >= 1,
    ensures
        g.endowment == (if minimum_balance >= 1 {
            minimum_balance
        } else {
            1u64
        }) * 1000,
        g.accounts@.len() == n_accounts + 1,
        g.accounts@[0] == (Account { nonce: 0, balance: 0 }),
        forall|i: int|
            1 <= i <= n_accounts ==> g.accounts@[i] == (Account {
                nonce: 0,
                balance: g.endowment,
            }),
        g.sudo == 1,
{
    let base: u64 = if minimum_balance >= 1 {
        minimum_balance
    } else {
        1
    };
    let endowment: u64 = base * 1000;
    let mut accounts: Vec<Account> = Vec::new();
    accounts.push(Account { nonce: 0, balance: 0 });
    let mut i: u64 = 0;
    while i < n_accounts
        invariant
            0 <= i <= n_accounts,
            accounts@.len() == i + 1,
            accounts@[0] == (Account { nonce: 0, balance: 0 }),
            forall|j: int|
                1 <= j <= i ==> accounts@[j] == (Account { nonce: 0, balance: endowment }),
        decreases n_accounts - i,
    {
        accounts.push(Account { nonce: 0, balance: endowment });
        i += 1;
    }
    GenesisConfig { endowment, accounts, sudo: 1 }
}

/// Looks a preset name up: only the development preset exists, and it
/// denotes the development genesis — the same endowed ledger that
/// `development_config_genesis` builds.
pub fn get_preset(id: &str, minimum_balance: u64, n_accounts: u64) -> (r: Option<GenesisConfig>)
    requires
        minimum_balance <= u64::MAX / 1000,
        n_accounts < 0xFFFF_FFFF,
        n_accounts >= 1,
    ensures
        r is Some <==> id@ == dev_preset_word(),
        r matches Some(g) ==> {
            &&& g.endowment == (if minimum_balance >= 1 {
                minimum_balance
            } else {
                1u64
            }) * 1000
            &&& g.accounts@.len() == n_accounts + 1
            &&& g.accounts@[0] == (Account { nonce: 0, balance: 0 })
            &&& (forall|i: int|
                1 <= i <= n_accounts ==> g.accounts@[i] == (Account {
                    nonce: 0,
                    balance: g.endowment,
                }))
            &&& g.sudo == 1
        },
{
    proof {
        reveal_strlit("development");
    }
    if str_eq(id, "development") {
        Some(development_config_genesis(minimum_balance, n_accounts))
    } else {
        Option::None
    }
}

/// The names of the supported genesis presets.
pub fn preset_names() -> (v: Vec<String>)
    ensures
        v@.len() == 1,
        v@[0]@ == dev_preset_word(),
{
    let mut v: Vec<String> = Vec::new();
    v.push("development".to_owned());
    v
}

/// The development fee schedule: the fee does not depend on the call's
/// weight, and the length fee is a fixed unit per transaction.
pub fn development_fee_params() -> (f: FeeParams)
    ensures
        f == (FeeParams { weight_fee: 0, length_fee: 1 }),
{
    FeeParams { weight_fee: 0, length_fee: 1 }
}

/// The runtime's version identity.
pub struct RuntimeVersionInfo {
    pub spec_name: String,
    pub impl_name: String,
    pub authoring_version: u32,
    pub spec_version: u32,
    pub impl_version: u32,
    pub transaction_version: u32,
    pub system_version: u32,
}

/// The version information used to identify this runtime when it runs
/// natively.
pub fn native_version() -> (v: RuntimeVersionInfo)
    ensures
        v.spec_name@ == "minimal-template-runtime"@,
        v.impl_name@ == "minimal-template-runtime"@,
        v.authoring_version == 1,
        v.spec_version == 0,
        v.impl_version == 1,
        v.transaction_version == 1,
        v.system_version == 1,
{
    RuntimeVersionInfo {
        spec_name: "minimal-template-runtime".to_owned(),
        impl_name: "minimal-template-runtime".to_owned(),
        authoring_version: 1,
        spec_version: 0,
        impl_version: 1,
        transaction_version: 1,
        system_version: 1,
    }
}

} // verus!
