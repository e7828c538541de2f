use vstd::prelude::*;

use crate::msg::Cw20ReceiveMsg;

verus! {

/// What a client hands the vault when it is created.
#[derive(Clone, Debug)]
pub struct InstantiateMsg {
    pub supported_token: String,
}

/// The vault's execution surface: a token transfer carrying an instruction,
/// or the admin request to route pooled funds into the yield strategy.
#[derive(Clone, Debug)]
pub enum ExecuteMsg {
    Receive(Cw20ReceiveMsg),
    Strategies {},
}

/// The queries the vault answers.
#[derive(Clone, Copy, Debug)]
pub enum QueryMsg {
    TotalBalance {},
    TotalSupply {},
}

} // verus!
