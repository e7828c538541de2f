use vstd::prelude::*;

verus! {

/// Correlation identifier of the share-token creation call.
pub const VTOKEN_INSTANTIATE_REPLY_ID: u64 = 1;

/// Correlation identifier of the deposit mint call.
pub const DEPOSIT_MINT_ID: u64 = 2;

/// Correlation identifier of the withdrawal asset-transfer call.
pub const WITHDRAW_MINT_ID: u64 = 3;

/// Correlation identifier of the strategy-routing deposit call. Distinct
/// from every callback identifier the vault dispatches on, so a strategy
/// completion can never be mistaken for a share-token or mint completion.
pub const EXECUTE_DEPOSIT_ID: u64 = 4;

/// Correlation identifier of the registry registration call.
pub const FACTORY_REGISTER_REPLY_ID: u64 = 5;

/// Correlation identifier of the strategy-unwind call issued ahead of a
/// withdrawal. Distinct for the same reason as the strategy deposit.
pub const EXECUTE_WITHDRAW_ID: u64 = 6;

/// Correlation identifier of the share burn call.
pub const BURN_ID: u64 = 7;

/// Code identifier under which the host instantiates the share token.
pub const VTOKEN_CODE_ID: u64 = 846;

/// Decimal places of the share token.
pub const VTOKEN_DECIMALS: u8 = 18;

/// The vault's immutable configuration, written once when it is created.
#[derive(Clone, Debug)]
pub struct ContractInfo {
    pub contract_owner: String,
    pub supported_token: String,
}

/// Mathematical value of a [`ContractInfo`].
#[verifier::ext_equal]
pub ghost struct ContractInfoV {
    pub contract_owner: Seq<char>,
    pub supported_token: Seq<char>,
}

impl View for ContractInfo {
    type V = ContractInfoV;

    open spec fn view(&self) -> ContractInfoV {
        ContractInfoV { contract_owner: self.contract_owner@, supported_token: self.supported_token@ }
    }
}

/// Everything the vault keeps in its persistent slots: the configuration,
/// the share-token reference once its creation callback has arrived, and the
/// pending burn amount of an in-flight withdrawal.
#[derive(Debug)]
pub struct VaultState {
    pub contract_info: Option<ContractInfo>,
    pub vtoken_address: Option<String>,
    pub burn_amount: Option<u128>,
}

/// Mathematical value of a [`VaultState`].
#[verifier::ext_equal]
pub ghost struct VaultStateV {
    pub contract_info: Option<ContractInfoV>,
    pub vtoken_address: Option<Seq<char>>,
    pub burn_amount: Option<u128>,
}

impl View for VaultState {
    type V = VaultStateV;

    open spec fn view(&self) -> VaultStateV {
        VaultStateV {
            contract_info: match self.contract_info {
                Some(ci) => Some(ci@),
                None => None,
            },
            vtoken_address: match self.vtoken_address {
                Some(a) => Some(a@),
                None => None,
            },
            burn_amount: self.burn_amount,
        }
    }
}

impl VaultState {
    /// A vault with nothing persisted yet.
    pub fn new() -> (s: VaultState)
        ensures
            s@.contract_info is None,
            s@.vtoken_address is None,
            s@.burn_amount is None,
    {
        VaultState { contract_info: None, vtoken_address: None, burn_amount: None }
    }

    /// The vault has been initialized: its configuration exists.
    pub open spec fn is_initialized(self) -> bool {
        self@.contract_info is Some
    }
}

impl Default for VaultState {
    /// Same as [`VaultState::new`].
    fn default() -> (s: VaultState)
        ensures
            s@.contract_info is None,
            s@.vtoken_address is None,
            s@.burn_amount is None,
    {
        VaultState::new()
    }
}

/// How the host should report the completion of an issued call.
#[derive(Clone, Copy, Debug, PartialEq, Eq, Structural)]
pub enum ReplyMode {
    /// Deliver a callback only if the call succeeded.
    OnSuccess,
    /// Deliver a callback only if the call failed.
    OnError,
    /// Always deliver a callback.
    Always,
}

/// An external call the vault asks the host to issue. Each carries the
/// correlation identifier under which its completion will come back and the
/// mode in which the host reports it.
#[derive(Clone, Debug)]
pub enum VaultAction {
    /// Instantiate the share token, with the vault as its mint authority.
    CreateShareToken {
        code_id: u64,
        name: String,
        symbol: String,
        decimals: u8,
        minter: String,
        reply_id: u64,
        mode: ReplyMode,
    },
    /// Announce this vault to the factory's registry.
    RegisterVault {
        factory: String,
        name: String,
        symbol: String,
        vault_address: String,
        reply_id: u64,
        mode: ReplyMode,
    },
    /// Mint shares to a depositor.
    MintShares { token: String, recipient: String, amount: u128, reply_id: u64, mode: ReplyMode },
    /// Transfer the supported asset to a withdrawing depositor.
    TransferAsset { token: String, recipient: String, amount: u128, reply_id: u64, mode: ReplyMode },
    /// Burn shares returned by a withdrawing depositor.
    BurnShares { token: String, amount: u128, reply_id: u64, mode: ReplyMode },
    /// Move the observed pool balance into the yield strategy.
    StrategyDeposit {
        strategy: String,
        denom: String,
        amount: u128,
        on_behalf_of: String,
        reply_id: u64,
        mode: ReplyMode,
    },
    /// Ask the yield strategy to return everything to the vault.
    StrategyWithdraw {
        strategy: String,
        denom: String,
        recipient: String,
        reply_id: u64,
        mode: ReplyMode,
    },
}

} // verus!
