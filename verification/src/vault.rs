use vstd::prelude::*;
use vstd::string::*;

use crate::accounting::{compute_mint_amount, compute_redeem_amount, mint_amount_spec,
    redeem_amount_spec};
use crate::error::ContractError;
use crate::msg::{Cw20ReceiveMsg, QueryMsg, SupportedTokenResponse, TokenMetadata,
    TotalBalanceResponse, TotalVtokenResponse, VTokenResponse, VaultInstantiateMsg};
use crate::state::{ContractInfo, ReplyMode, VaultAction, VaultState, VaultStateV,
    DEPOSIT_MINT_ID, EXECUTE_DEPOSIT_ID, EXECUTE_WITHDRAW_ID, FACTORY_REGISTER_REPLY_ID,
    VTOKEN_CODE_ID, VTOKEN_DECIMALS, VTOKEN_INSTANTIATE_REPLY_ID, WITHDRAW_MINT_ID, BURN_ID};
use crate::vault_msg::ExecuteMsg;

verus! {

/// The action asks the host to instantiate the share token under the vault's
/// mint authority, with the given display name and symbol, and to report the
/// outcome under the share-token creation identifier on success.
pub open spec fn is_create_share_token(a: VaultAction, name: Seq<char>, symbol: Seq<char>,
    minter: Seq<char>) -> bool {
    a matches VaultAction::CreateShareToken {
        code_id, name: n, symbol: s, decimals, minter: m, reply_id, mode }
        && code_id == VTOKEN_CODE_ID
        && n@ == name
        && s@ == symbol
        && decimals == VTOKEN_DECIMALS
        && m@ == minter
        && reply_id == VTOKEN_INSTANTIATE_REPLY_ID
        && mode == ReplyMode::OnSuccess
}

/// The action announces the vault to the factory's registry, fire-and-forget.
pub open spec fn is_register_vault(a: VaultAction, name: Seq<char>, symbol: Seq<char>,
    vault_address: Seq<char>) -> bool {
    a matches VaultAction::RegisterVault {
        factory, name: n, symbol: s, vault_address: va, reply_id, mode }
        && factory@ == "osmo186ux5ef9ere664rvv9ck5t6hdz7duwr7qu3qmrhe3sj02hp7h40qu0f5af"@
        && n@ == name
        && s@ == symbol
        && va@ == vault_address
        && reply_id == FACTORY_REGISTER_REPLY_ID
        && mode == ReplyMode::OnSuccess
}

/// The action mints `amount` shares of the share token to the depositor.
pub open spec fn is_mint_shares(a: VaultAction, token: Seq<char>, recipient: Seq<char>,
    amount: int) -> bool {
    a matches VaultAction::MintShares { token: t, recipient: rc, amount: m, reply_id, mode }
        && t@ == token
        && rc@ == recipient
        && m == amount
        && reply_id == DEPOSIT_MINT_ID
        && mode == ReplyMode::OnError
}

/// The action pays `amount` of the supported asset out to the withdrawer.
pub open spec fn is_transfer_asset(a: VaultAction, token: Seq<char>, recipient: Seq<char>,
    amount: int) -> bool {
    a matches VaultAction::TransferAsset { token: t, recipient: rc, amount: m, reply_id, mode }
        && t@ == token
        && rc@ == recipient
        && m == amount
        && reply_id == WITHDRAW_MINT_ID
        && mode == ReplyMode::OnError
}

/// The action burns the returned shares, with the completion always
/// reported, so a failed burn is observable.
pub open spec fn is_burn_shares(a: VaultAction, token: Seq<char>, amount: int) -> bool {
    a matches VaultAction::BurnShares { token: t, amount: m, reply_id, mode }
        && t@ == token
        && m == amount
        && reply_id == BURN_ID
        && mode == ReplyMode::Always
}

/// The action moves `amount` of the pool into the yield strategy.
pub open spec fn is_strategy_deposit(a: VaultAction, amount: int, on_behalf_of: Seq<char>) -> bool {
    a matches VaultAction::StrategyDeposit {
        strategy, denom, amount: m, on_behalf_of: ob, reply_id, mode }
        && strategy@ == "osmo1g30recyv8pfy3qd4qn3dn7plc0rn5z68y5gn32j39e96tjhthzxsw3uvvu"@
        && denom@ == "osmo"@
        && m == amount
        && ob@ == on_behalf_of
        && reply_id == EXECUTE_DEPOSIT_ID
        && mode == ReplyMode::OnSuccess
}

/// The action asks the yield strategy to send everything it holds for the
/// vault back to the vault.
pub open spec fn is_strategy_withdraw(a: VaultAction, recipient: Seq<char>) -> bool {
    a matches VaultAction::StrategyWithdraw { strategy, denom, recipient: rc, reply_id, mode }
        && strategy@ == "osmo1g30recyv8pfy3qd4qn3dn7plc0rn5z68y5gn32j39e96tjhthzxsw3uvvu"@
        && denom@ == "osmo"@
        && rc@ == recipient
        && reply_id == EXECUTE_WITHDRAW_ID
        && mode == ReplyMode::OnSuccess
}

/// The supply a deposit works with: a failed supply query counts as zero.
pub open spec fn effective_supply(supply_query: Option<u128>) -> u128 {
    match supply_query {
        Some(s) => s,
        None => 0,
    }
}

/// The share product of a deposit stays within machine bounds; the host's
/// checked token arithmetic aborts beyond them.
pub open spec fn deposit_mul_ok(supply_query: Option<u128>, amount: u128) -> bool {
    effective_supply(supply_query) * amount <= u128::MAX
}

/// The asset product of a withdrawal stays within machine bounds.
pub open spec fn withdraw_mul_ok(balance_query: Option<u128>, amount: u128) -> bool {
    match balance_query {
        Some(b) => b * amount <= u128::MAX,
        None => true,
    }
}

/// What a deposit returns, for every combination of vault state, sender,
/// instruction and query outcome. A deposit never changes the vault's
/// persistent state.
pub open spec fn deposit_spec(pre: VaultStateV, sender: Seq<char>, amount: u128,
    asset_address: Seq<char>, supply_query: Option<u128>, balance_query: Option<u128>,
    r: Result<Vec<VaultAction>, ContractError>) -> bool {
    let supply = effective_supply(supply_query);
    if pre.contract_info is None {
        r == Err::<Vec<VaultAction>, ContractError>(ContractError::NotInitialized)
    } else if pre.contract_info->0.supported_token != asset_address {
        r == Err::<Vec<VaultAction>, ContractError>(ContractError::UnsupportedAsset)
    } else if supply != 0 && balance_query is None {
        r == Err::<Vec<VaultAction>, ContractError>(ContractError::Configuration)
    } else if supply != 0 && amount >= balance_query->0 {
        r == Err::<Vec<VaultAction>, ContractError>(ContractError::Arithmetic)
    } else if pre.vtoken_address is None {
        r == Err::<Vec<VaultAction>, ContractError>(ContractError::NotInitialized)
    } else {
        r matches Ok(acts) && acts@.len() == 1
            && is_mint_shares(acts@[0], pre.vtoken_address->0, sender,
                if supply == 0 {
                    amount as int
                } else {
                    mint_amount_spec(supply as int, balance_query->0 as int, amount as int)
                })
    }
}

/// What a withdrawal returns and how it changes the vault's state, for every
/// combination of inputs. The pending burn amount is persisted before the
/// configuration is read, so the one error discovered after that point
/// leaves it set: state written ahead of an external call is durable even
/// when the operation then fails.
pub open spec fn withdraw_spec(pre: VaultStateV, post: VaultStateV, sender: Seq<char>,
    amount: u128, share_address: Seq<char>, vault_address: Seq<char>,
    supply_query: Option<u128>, balance_query: Option<u128>,
    r: Result<Vec<VaultAction>, ContractError>) -> bool {
    if pre.vtoken_address is None {
        r == Err::<Vec<VaultAction>, ContractError>(ContractError::NotInitialized) && post == pre
    } else if pre.vtoken_address->0 != share_address {
        r == Err::<Vec<VaultAction>, ContractError>(ContractError::InvalidShareToken)
            && post == pre
    } else if supply_query is None {
        r == Err::<Vec<VaultAction>, ContractError>(ContractError::Configuration) && post == pre
    } else if balance_query is None {
        r == Err::<Vec<VaultAction>, ContractError>(ContractError::Configuration) && post == pre
    } else if amount >= supply_query->0 {
        r == Err::<Vec<VaultAction>, ContractError>(ContractError::Arithmetic) && post == pre
    } else if pre.contract_info is None {
        r == Err::<Vec<VaultAction>, ContractError>(ContractError::NotInitialized)
            && post == VaultStateV { burn_amount: Some(amount), ..pre }
    } else {
        r matches Ok(acts) && acts@.len() == 3
            && is_strategy_withdraw(acts@[0], vault_address)
            && is_transfer_asset(acts@[1], pre.contract_info->0.supported_token, sender,
                redeem_amount_spec(supply_query->0 as int, balance_query->0 as int, amount as int))
            && is_burn_shares(acts@[2], pre.vtoken_address->0, amount as int)
            && post == VaultStateV { burn_amount: Some(amount), ..pre }
    }
}

/// What receiving a token transfer does: a "Deposit" instruction deposits, a
/// "Withdraw" instruction withdraws, anything else is rejected untouched.
pub open spec fn receive_spec(pre: VaultStateV, post: VaultStateV, msg: Cw20ReceiveMsg,
    vault_address: Seq<char>, supply_query: Option<u128>, balance_query: Option<u128>,
    r: Result<Vec<VaultAction>, ContractError>) -> bool {
    if msg.msg.message@ == "Deposit"@ {
        deposit_spec(pre, msg.sender@, msg.amount, msg.msg.address@, supply_query,
            balance_query, r) && post == pre
    } else if msg.msg.message@ == "Withdraw"@ {
        withdraw_spec(pre, post, msg.sender@, msg.amount, msg.msg.address@, vault_address,
            supply_query, balance_query, r)
    } else {
        r == Err::<Vec<VaultAction>, ContractError>(ContractError::Orchestration) && post == pre
    }
}

/// What the pool-balance query answers: the balance the asset service
/// reported, an error when the vault has no configuration or the service
/// was unreachable.
pub open spec fn total_balance_spec(pre: VaultStateV, balance_query: Option<u128>)
    -> Result<u128, ContractError> {
    if pre.contract_info is None {
        Err(ContractError::NotInitialized)
    } else if balance_query is None {
        Err(ContractError::Configuration)
    } else {
        Ok(balance_query->0)
    }
}

/// What the share-supply query answers.
pub open spec fn total_supply_spec(pre: VaultStateV, supply_query: Option<u128>)
    -> Result<u128, ContractError> {
    if pre.vtoken_address is None {
        Err(ContractError::NotInitialized)
    } else if supply_query is None {
        Err(ContractError::Configuration)
    } else {
        Ok(supply_query->0)
    }
}

/// What the supported-token query answers.
pub open spec fn supported_token_spec(pre: VaultStateV) -> Result<Seq<char>, ContractError> {
    match pre.contract_info {
        Some(ci) => Ok(ci.supported_token),
        None => Err(ContractError::NotInitialized),
    }
}

/// What the share-token query answers.
pub open spec fn vtoken_spec(pre: VaultStateV) -> Result<Seq<char>, ContractError> {
    match pre.vtoken_address {
        Some(a) => Ok(a),
        None => Err(ContractError::NotInitialized),
    }
}

/// What the strategy-routing operation returns: the whole observed pool
/// balance is forwarded to the yield strategy.
pub open spec fn strategies_spec(pre: VaultStateV, vault_address: Seq<char>,
    balance_query: Option<u128>, r: Result<Vec<VaultAction>, ContractError>) -> bool {
    if pre.contract_info is None {
        r == Err::<Vec<VaultAction>, ContractError>(ContractError::NotInitialized)
    } else if balance_query is None {
        r == Err::<Vec<VaultAction>, ContractError>(ContractError::Configuration)
    } else {
        r matches Ok(acts) && acts@.len() == 1
            && is_strategy_deposit(acts@[0], balance_query->0 as int, vault_address)
    }
}

impl VaultState {
    /// Create the vault: persist its configuration, then ask the host to
    /// instantiate the share token and to register the vault with the
    /// factory. The configuration is persisted even when the metadata query
    /// failed and the operation reports `Configuration`.
    pub fn instantiate(&mut self, msg: VaultInstantiateMsg, vault_address: String,
        token_info: Option<TokenMetadata>) -> (r: Result<Vec<VaultAction>, ContractError>)
        ensures
            final(self)@.contract_info matches Some(ci)
                && ci.contract_owner == msg.vault_owner@
                && ci.supported_token == msg.supported_token@,
            final(self)@.vtoken_address == old(self)@.vtoken_address,
            final(self)@.burn_amount == old(self)@.burn_amount,
            r is Ok <==> token_info is Some,
            r is Err ==> r == Err::<Vec<VaultAction>, ContractError>(ContractError::Configuration),
            token_info matches Some(ti) ==> (r matches Ok(acts) && acts@.len() == 2
                && is_create_share_token(acts@[0], "v"@ + ti.name@, "V"@ + ti.symbol@,
                    vault_address@)
                && is_register_vault(acts@[1], "usdt"@, "USDT"@, vault_address@)),
    {
        let info = ContractInfo {
            contract_owner: msg.vault_owner,
            supported_token: msg.supported_token,
        };
        self.contract_info = Some(info);
        match token_info {
            Some(ti) => {
                let name = String::from_str("v").concat(ti.name.as_str());
                let symbol = String::from_str("V").concat(ti.symbol.as_str());
                let create = VaultAction::CreateShareToken {
                    code_id: VTOKEN_CODE_ID,
                    name,
                    symbol,
                    decimals: VTOKEN_DECIMALS,
                    minter: vault_address.clone(),
                    reply_id: VTOKEN_INSTANTIATE_REPLY_ID,
                    mode: ReplyMode::OnSuccess,
                };
                let register = VaultAction::RegisterVault {
                    factory: String::from_str(
                        "osmo186ux5ef9ere664rvv9ck5t6hdz7duwr7qu3qmrhe3sj02hp7h40qu0f5af"),
                    name: String::from_str("usdt"),
                    symbol: String::from_str("USDT"),
                    vault_address,
                    reply_id: FACTORY_REGISTER_REPLY_ID,
                    mode: ReplyMode::OnSuccess,
                };
                let mut acts: Vec<VaultAction> = Vec::new();
                acts.push(create);
                acts.push(register);
                Ok(acts)
            },
            None => Err(ContractError::Configuration),
        }
    }

    /// Deposit: the sender has already paid `amount` of an asset into the
    /// pool; mint them their proportional shares, provided the asset is the
    /// supported one and the share token exists. Reads nothing but the
    /// queries and writes nothing.
    pub fn execute_deposit(&self, sender: String, amount: u128, asset_address: String,
        supply_query: Option<u128>, balance_query: Option<u128>)
        -> (r: Result<Vec<VaultAction>, ContractError>)
        requires
            deposit_mul_ok(supply_query, amount),
        ensures
            deposit_spec(self@, sender@, amount, asset_address@, supply_query, balance_query, r),
    {
        let info = match &self.contract_info {
            Some(info) => info,
            None => { return Err(ContractError::NotInitialized); },
        };
        if !(info.supported_token == asset_address) {
            return Err(ContractError::UnsupportedAsset);
        }
        let supply: u128 = match supply_query {
            Some(s) => s,
            None => 0,
        };
        let mint_amount: u128;
        if supply == 0 {
            mint_amount = amount;
        } else {
            match balance_query {
                Some(balance) => {
                    match compute_mint_amount(supply, balance, amount) {
                        Ok(m) => { mint_amount = m; },
                        Err(e) => { return Err(e); },
                    }
                },
                None => { return Err(ContractError::Configuration); },
            }
        }
        match &self.vtoken_address {
            Some(addr) => {
                let mut acts: Vec<VaultAction> = Vec::new();
                acts.push(VaultAction::MintShares {
                    token: addr.clone(),
                    recipient: sender,
                    amount: mint_amount,
                    reply_id: DEPOSIT_MINT_ID,
                    mode: ReplyMode::OnError,
                });
                Ok(acts)
            },
            None => Err(ContractError::NotInitialized),
        }
    }

    /// Withdraw: the sender has returned `amount` shares; unwind the
    /// strategy, pay out their proportional claim and burn the shares. The
    /// burn amount is persisted as pending before the payout call is built.
    pub fn execute_withdraw(&mut self, sender: String, amount: u128, share_address: String,
        vault_address: String, supply_query: Option<u128>, balance_query: Option<u128>)
        -> (r: Result<Vec<VaultAction>, ContractError>)
        requires
            withdraw_mul_ok(balance_query, amount),
        ensures
            withdraw_spec(old(self)@, final(self)@, sender@, amount, share_address@,
                vault_address@, supply_query, balance_query, r),
    {
        let vtoken = match &self.vtoken_address {
            Some(addr) => addr.clone(),
            None => { return Err(ContractError::NotInitialized); },
        };
        if !(vtoken == share_address) {
            return Err(ContractError::InvalidShareToken);
        }
        let supply: u128 = match supply_query {
            Some(s) => s,
            None => { return Err(ContractError::Configuration); },
        };
        let balance: u128 = match balance_query {
            Some(b) => b,
            None => { return Err(ContractError::Configuration); },
        };
        let transfer_amount: u128 = match compute_redeem_amount(supply, balance, amount) {
            Ok(a) => a,
            Err(e) => { return Err(e); },
        };
        self.burn_amount = Some(amount);
        let token_address = match &self.contract_info {
            Some(info) => info.supported_token.clone(),
            None => {
                proof {
                    assert(self@ =~= VaultStateV { burn_amount: Some(amount), ..old(self)@ });
                }
                return Err(ContractError::NotInitialized);
            },
        };
        let mut acts: Vec<VaultAction> = Vec::new();
        acts.push(VaultAction::StrategyWithdraw {
            strategy: String::from_str(
                "osmo1g30recyv8pfy3qd4qn3dn7plc0rn5z68y5gn32j39e96tjhthzxsw3uvvu"),
            denom: String::from_str("osmo"),
            recipient: vault_address,
            reply_id: EXECUTE_WITHDRAW_ID,
            mode: ReplyMode::OnSuccess,
        });
        acts.push(VaultAction::TransferAsset {
            token: token_address,
            recipient: sender,
            amount: transfer_amount,
            reply_id: WITHDRAW_MINT_ID,
            mode: ReplyMode::OnError,
        });
        acts.push(VaultAction::BurnShares {
            token: vtoken,
            amount,
            reply_id: BURN_ID,
            mode: ReplyMode::Always,
        });
        proof {
            assert(self@ =~= VaultStateV { burn_amount: Some(amount), ..old(self)@ });
        }
        Ok(acts)
    }

    /// Receive a token transfer and run the instruction it carries.
    pub fn handle_cw20_receive(&mut self, msg: Cw20ReceiveMsg, vault_address: String,
        supply_query: Option<u128>, balance_query: Option<u128>)
        -> (r: Result<Vec<VaultAction>, ContractError>)
        requires
            msg.msg.message@ == "Deposit"@ ==> deposit_mul_ok(supply_query, msg.amount),
            msg.msg.message@ == "Withdraw"@ ==> withdraw_mul_ok(balance_query, msg.amount),
        ensures
            receive_spec(old(self)@, final(self)@, msg, vault_address@, supply_query,
                balance_query, r),
    {
        let Cw20ReceiveMsg { sender, amount, msg: send_msg } = msg;
        if send_msg.message == String::from_str("Deposit") {
            self.execute_deposit(sender, amount, send_msg.address, supply_query, balance_query)
        } else if send_msg.message == String::from_str("Withdraw") {
            self.execute_withdraw(sender, amount, send_msg.address, vault_address,
                supply_query, balance_query)
        } else {
            Err(ContractError::Orchestration)
        }
    }

    /// Route the whole observed pool balance into the yield strategy.
    pub fn strategies(&self, vault_address: String, balance_query: Option<u128>)
        -> (r: Result<Vec<VaultAction>, ContractError>)
        ensures
            strategies_spec(self@, vault_address@, balance_query, r),
    {
        let balance = match self.get_total_balance(balance_query) {
            Ok(resp) => resp.balance,
            Err(e) => { return Err(e); },
        };
        let mut acts: Vec<VaultAction> = Vec::new();
        acts.push(VaultAction::StrategyDeposit {
            strategy: String::from_str(
                "osmo1g30recyv8pfy3qd4qn3dn7plc0rn5z68y5gn32j39e96tjhthzxsw3uvvu"),
            denom: String::from_str("osmo"),
            amount: balance,
            on_behalf_of: vault_address,
            reply_id: EXECUTE_DEPOSIT_ID,
            mode: ReplyMode::OnSuccess,
        });
        Ok(acts)
    }

    /// Run an execution message: a received transfer or the strategy routing.
    pub fn execute(&mut self, msg: ExecuteMsg, vault_address: String,
        supply_query: Option<u128>, balance_query: Option<u128>)
        -> (r: Result<Vec<VaultAction>, ContractError>)
        requires
            (match msg {
                ExecuteMsg::Receive(m) => {
                    &&& m.msg.message@ == "Deposit"@ ==> deposit_mul_ok(supply_query, m.amount)
                    &&& m.msg.message@ == "Withdraw"@ ==> withdraw_mul_ok(balance_query, m.amount)
                },
                ExecuteMsg::Strategies {  } => true,
            }),
        ensures
            (match msg {
                ExecuteMsg::Receive(m) => receive_spec(old(self)@, final(self)@, m,
                    vault_address@, supply_query, balance_query, r),
                ExecuteMsg::Strategies {  } => strategies_spec(old(self)@, vault_address@,
                    balance_query, r) && final(self)@ == old(self)@,
            }),
    {
        match msg {
            ExecuteMsg::Receive(m) => self.handle_cw20_receive(m, vault_address, supply_query,
                balance_query),
            ExecuteMsg::Strategies {} => self.strategies(vault_address, balance_query),
        }
    }

    /// The pool balance the supported-asset service reports for the vault.
    pub fn get_total_balance(&self, balance_query: Option<u128>)
        -> (r: Result<TotalBalanceResponse, ContractError>)
        ensures
            (match total_balance_spec(self@, balance_query) {
                Ok(b) => r matches Ok(resp) && resp.balance == b,
                Err(e) => r == Err::<TotalBalanceResponse, ContractError>(e),
            }),
    {
        if self.contract_info.is_none() {
            return Err(ContractError::NotInitialized);
        }
        match balance_query {
            Some(balance) => Ok(TotalBalanceResponse { balance }),
            None => Err(ContractError::Configuration),
        }
    }

    /// The share supply the share-token service reports.
    pub fn get_total_supply(&self, supply_query: Option<u128>)
        -> (r: Result<TotalVtokenResponse, ContractError>)
        ensures
            (match total_supply_spec(self@, supply_query) {
                Ok(s) => r matches Ok(resp) && resp.total_supply == s,
                Err(e) => r == Err::<TotalVtokenResponse, ContractError>(e),
            }),
    {
        if self.vtoken_address.is_none() {
            return Err(ContractError::NotInitialized);
        }
        match supply_query {
            Some(total_supply) => Ok(TotalVtokenResponse { total_supply }),
            None => Err(ContractError::Configuration),
        }
    }

    /// The asset this vault accepts.
    pub fn get_supported_token(&self) -> (r: Result<SupportedTokenResponse, ContractError>)
        ensures
            (match supported_token_spec(self@) {
                Ok(t) => r matches Ok(resp) && resp.supported_token@ == t,
                Err(e) => r == Err::<SupportedTokenResponse, ContractError>(e),
            }),
    {
        match &self.contract_info {
            Some(info) => Ok(SupportedTokenResponse {
                supported_token: info.supported_token.clone(),
            }),
            None => Err(ContractError::NotInitialized),
        }
    }

    /// The share token's address, once its creation callback has arrived.
    pub fn get_vtoken(&self) -> (r: Result<VTokenResponse, ContractError>)
        ensures
            (match vtoken_spec(self@) {
                Ok(a) => r matches Ok(resp) && resp.vtoken@ == a,
                Err(e) => r == Err::<VTokenResponse, ContractError>(e),
            }),
    {
        match &self.vtoken_address {
            Some(addr) => Ok(VTokenResponse { vtoken: addr.clone() }),
            None => Err(ContractError::NotInitialized),
        }
    }

    /// Answer a query. The queries observe and never change anything.
    pub fn query(&self, msg: QueryMsg, supply_query: Option<u128>, balance_query: Option<u128>)
        -> (r: Result<QueryResponse, ContractError>)
        ensures
            (match msg {
                QueryMsg::TotalBalance {  } => match total_balance_spec(self@, balance_query) {
                    Ok(b) => r matches Ok(a) && a matches QueryResponse::TotalBalance(resp)
                        && resp.balance == b,
                    Err(e) => r == Err::<QueryResponse, ContractError>(e),
                },
                QueryMsg::TotalSupply {  } => match total_supply_spec(self@, supply_query) {
                    Ok(s) => r matches Ok(a) && a matches QueryResponse::TotalSupply(resp)
                        && resp.total_supply == s,
                    Err(e) => r == Err::<QueryResponse, ContractError>(e),
                },
                QueryMsg::SupportedToken {  } => match supported_token_spec(self@) {
                    Ok(t) => r matches Ok(a) && a matches QueryResponse::SupportedToken(resp)
                        && resp.supported_token@ == t,
                    Err(e) => r == Err::<QueryResponse, ContractError>(e),
                },
                QueryMsg::Vtoken {  } => match vtoken_spec(self@) {
                    Ok(v) => r matches Ok(a) && a matches QueryResponse::Vtoken(resp)
                        && resp.vtoken@ == v,
                    Err(e) => r == Err::<QueryResponse, ContractError>(e),
                },
            }),
    {
        match msg {
            QueryMsg::TotalBalance {} => match self.get_total_balance(balance_query) {
                Ok(resp) => Ok(QueryResponse::TotalBalance(resp)),
                Err(e) => Err(e),
            },
            QueryMsg::TotalSupply {} => match self.get_total_supply(supply_query) {
                Ok(resp) => Ok(QueryResponse::TotalSupply(resp)),
                Err(e) => Err(e),
            },
            QueryMsg::SupportedToken {} => match self.get_supported_token() {
                Ok(resp) => Ok(QueryResponse::SupportedToken(resp)),
                Err(e) => Err(e),
            },
            QueryMsg::Vtoken {} => match self.get_vtoken() {
                Ok(resp) => Ok(QueryResponse::Vtoken(resp)),
                Err(e) => Err(e),
            },
        }
    }
}

/// A query's answer, one variant per query.
#[derive(Clone, Debug)]
pub enum QueryResponse {
    TotalBalance(TotalBalanceResponse),
    TotalSupply(TotalVtokenResponse),
    SupportedToken(SupportedTokenResponse),
    Vtoken(VTokenResponse),
}

} // verus!
