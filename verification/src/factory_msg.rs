use vstd::prelude::*;

use crate::factory::Vault;

verus! {

/// What a client hands the factory when it is created. The factory needs no
/// configuration.
#[derive(Clone, Copy, Debug)]
pub struct InstantiateMsg {}

/// The factory's execution surface.
#[derive(Clone, Debug)]
pub enum ExecuteMsg {
    RegisterVault(VaultData),
}

/// The descriptive metadata a vault registers itself under.
#[derive(Clone, Debug)]
pub struct VaultData {
    pub name: String,
    pub symbol: String,
    pub vault_address: String,
}

/// The queries the factory answers.
#[derive(Clone, Copy, Debug)]
pub enum QueryMsg {
    GetVaults {},
}

/// Every vault the factory has registered.
#[derive(Debug)]
pub struct GetVaultRecordResponse {
    pub vault_array: Vec<Vault>,
}

} // verus!
