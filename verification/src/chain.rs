//! The data model of a simulated chain session: the accounts and contracts
//! a session is seeded with, and the configuration values they are loaded
//! from. Accounts and contracts are immutable once loaded.

use vstd::prelude::*;

verus! {

/// The fixed well-known test address that deploys every contract unless
/// the project configuration names another deployer.
pub const DEFAULT_DEPLOYER: &'static str = "ST1D0XTBR7WVNSYBJ7M26XSJAXMDJGJQKNEXAM6JH";

/// One account of a session, immutable once loaded from the chain
/// configuration.
pub struct Account {
    pub name: String,
    pub address: String,
    pub balance: u64,
    pub mnemonic: String,
    pub derivation: String,
}

impl Clone for Account {
    /// A clone keeps every field.
    fn clone(&self) -> (r: Self)
        ensures
            r == *self,
    {
        Account {
            name: self.name.clone(),
            address: self.address.clone(),
            balance: self.balance,
            mnemonic: self.mnemonic.clone(),
            derivation: self.derivation.clone(),
        }
    }
}

/// One contract of a session, immutable once loaded from the project
/// manifest.
pub struct Contract {
    pub name: String,
    pub code: String,
    pub deployer: String,
}

impl Clone for Contract {
    /// A clone keeps every field.
    fn clone(&self) -> (r: Self)
        ensures
            r == *self,
    {
        Contract { name: self.name.clone(), code: self.code.clone(), deployer: self.deployer.clone() }
    }
}

/// A snapshot of an account list: the same accounts, in the same order.
pub fn clone_accounts(v: &Vec<Account>) -> (r: Vec<Account>)
    ensures
        r@ == v@,
{
    let mut r: Vec<Account> = Vec::new();
    let mut i: usize = 0;
    while i < v.len()
        invariant
            i <= v.len(),
            r@ =~= v@.take(i as int),
        decreases v.len() - i,
    {
        r.push(v[i].clone());
        proof {
            assert(v@.take(i + 1) =~= v@.take(i as int).push(v@[i as int]));
        }
        i += 1;
    }
    proof {
        assert(v@.take(v@.len() as int) =~= v@);
    }
    r
}

/// One contract reference of the project manifest, together with the
/// source text read for it (`None` when the referenced file could not be
/// read).
pub struct ContractConfig {
    pub name: String,
    pub path: String,
    pub source: Option<String>,
    pub deployer: Option<String>,
}

/// The project manifest: the contracts every new session is seeded with.
pub struct MainConfig {
    pub contracts: Vec<ContractConfig>,
}

/// One declared account of the chain configuration.
pub struct AccountConfig {
    pub name: String,
    pub address: String,
    pub balance: u64,
    pub mnemonic: String,
    pub derivation: String,
}

/// The chain configuration: the accounts every new session starts with.
pub struct ChainConfig {
    pub accounts: Vec<AccountConfig>,
}

/// The deployer a manifest entry resolves to: the configured address, or
/// the fixed well-known test address.
pub open spec fn resolved_deployer(c: ContractConfig) -> Seq<char> {
    match c.deployer {
        Some(d) => d@,
        None => DEFAULT_DEPLOYER@,
    }
}

/// The loaded contract a manifest entry denotes.
pub open spec fn contract_matches(c: ContractConfig, k: Contract) -> bool {
    &&& k.name@ == c.name@
    &&& (c.source matches Some(src) && k.code@ == src@)
    &&& k.deployer@ == resolved_deployer(c)
}

/// The loaded account a configuration entry denotes.
pub open spec fn account_matches(a: AccountConfig, k: Account) -> bool {
    &&& k.name@ == a.name@
    &&& k.address@ == a.address@
    &&& k.balance == a.balance
    &&& k.mnemonic@ == a.mnemonic@
    &&& k.derivation@ == a.derivation@
}

} // verus!
