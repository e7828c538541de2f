use vstd::prelude::*;

verus! {

/// Configuration handed to the vault when it is created.
#[derive(Clone, Debug)]
pub struct VaultInstantiateMsg {
    pub supported_token: String,
    pub vault_owner: String,
}

/// The instruction a token transfer carries: what to do ("Deposit" or
/// "Withdraw") and which token service the sender paid with.
#[derive(Clone, Debug)]
pub struct SendCw20Msg {
    pub message: String,
    pub address: String,
}

/// A received token transfer: who sent it, how much, and the decoded
/// instruction that came along with it.
#[derive(Clone, Debug)]
pub struct Cw20ReceiveMsg {
    pub sender: String,
    pub amount: u128,
    pub msg: SendCw20Msg,
}

/// Metadata of a fungible token, as the token service reports it.
#[derive(Clone, Debug)]
pub struct TokenMetadata {
    pub name: String,
    pub symbol: String,
}

/// The vault's query surface.
#[derive(Clone, Copy, Debug)]
pub enum QueryMsg {
    TotalBalance {},
    TotalSupply {},
    SupportedToken {},
    Vtoken {},
}

/// The pool balance currently held on behalf of the vault.
#[derive(Clone, Copy, Debug)]
pub struct TotalBalanceResponse {
    pub balance: u128,
}

/// The total share-token supply.
#[derive(Clone, Copy, Debug)]
pub struct TotalVtokenResponse {
    pub total_supply: u128,
}

/// The asset the vault accepts.
#[derive(Clone, Debug)]
pub struct SupportedTokenResponse {
    pub supported_token: String,
}

/// The share token's address.
#[derive(Clone, Debug)]
pub struct VTokenResponse {
    pub vtoken: String,
}

} // verus!
