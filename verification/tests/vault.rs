use pooled_vault::error::ContractError;
use pooled_vault::msg::{Cw20ReceiveMsg, QueryMsg, SendCw20Msg, TokenMetadata,
    VaultInstantiateMsg};
use pooled_vault::state::{ContractInfo, ReplyMode, VaultAction, VaultState};
use pooled_vault::vault::QueryResponse;
use pooled_vault::vault_msg::ExecuteMsg;

const VAULT_ADDR: &str = "osmo1vaultvaultvaultvaultvaultvaultvaultvault";
const FACTORY_ADDR: &str = "osmo186ux5ef9ere664rvv9ck5t6hdz7duwr7qu3qmrhe3sj02hp7h40qu0f5af";
const STRATEGY_ADDR: &str = "osmo1g30recyv8pfy3qd4qn3dn7plc0rn5z68y5gn32j39e96tjhthzxsw3uvvu";

fn initialized_vault() -> VaultState {
    VaultState {
        contract_info: Some(ContractInfo {
            contract_owner: "owner".to_string(),
            supported_token: "asset".to_string(),
        }),
        vtoken_address: Some("vtoken".to_string()),
        burn_amount: None,
    }
}

fn receive(message: &str, address: &str, amount: u128) -> Cw20ReceiveMsg {
    Cw20ReceiveMsg {
        sender: "alice".to_string(),
        amount,
        msg: SendCw20Msg { message: message.to_string(), address: address.to_string() },
    }
}

#[test]
fn instantiate_issues_creation_and_registration() {
    let mut vault = VaultState::new();
    let msg = VaultInstantiateMsg {
        supported_token: "asset".to_string(),
        vault_owner: "owner".to_string(),
    };
    let metadata = TokenMetadata { name: "usdc".to_string(), symbol: "USDC".to_string() };
    let acts = vault
        .instantiate(msg, VAULT_ADDR.to_string(), Some(metadata))
        .unwrap();
    assert_eq!(acts.len(), 2);
    match &acts[0] {
        VaultAction::CreateShareToken { code_id, name, symbol, decimals, minter, reply_id, mode } => {
            assert_eq!(*code_id, 846);
            assert_eq!(name, "vusdc");
            assert_eq!(symbol, "VUSDC");
            assert_eq!(*decimals, 18);
            assert_eq!(minter, VAULT_ADDR);
            assert_eq!(*reply_id, 1);
            assert_eq!(*mode, ReplyMode::OnSuccess);
        }
        other => panic!("unexpected action: {:?}", other),
    }
    match &acts[1] {
        VaultAction::RegisterVault { factory, name, symbol, vault_address, reply_id, mode } => {
            assert_eq!(factory, FACTORY_ADDR);
            assert_eq!(name, "usdt");
            assert_eq!(symbol, "USDT");
            assert_eq!(vault_address, VAULT_ADDR);
            assert_eq!(*reply_id, 5);
            assert_eq!(*mode, ReplyMode::OnSuccess);
        }
        other => panic!("unexpected action: {:?}", other),
    }
    let info = vault.contract_info.as_ref().unwrap();
    assert_eq!(info.contract_owner, "owner");
    assert_eq!(info.supported_token, "asset");
    assert!(vault.vtoken_address.is_none());
}

#[test]
fn instantiate_keeps_config_when_metadata_query_fails() {
    let mut vault = VaultState::new();
    let msg = VaultInstantiateMsg {
        supported_token: "asset".to_string(),
        vault_owner: "owner".to_string(),
    };
    let r = vault.instantiate(msg, VAULT_ADDR.to_string(), None);
    assert!(matches!(r, Err(ContractError::Configuration)));
    // The configuration was persisted before the metadata query was needed.
    assert!(vault.contract_info.is_some());
}

#[test]
fn wrong_asset_rejected_without_mutation() {
    let mut vault = initialized_vault();
    let r = vault.handle_cw20_receive(
        receive("Deposit", "other-asset", 100),
        VAULT_ADDR.to_string(),
        Some(1000),
        Some(1100),
    );
    assert!(matches!(r, Err(ContractError::UnsupportedAsset)));
    // Nothing in the vault changed.
    assert_eq!(vault.contract_info.as_ref().unwrap().supported_token, "asset");
    assert_eq!(vault.vtoken_address.as_deref(), Some("vtoken"));
    assert!(vault.burn_amount.is_none());
}

#[test]
fn first_deposit_mints_the_deposit() {
    let mut vault = initialized_vault();
    let acts = vault
        .handle_cw20_receive(receive("Deposit", "asset", 500), VAULT_ADDR.to_string(),
            Some(0), Some(500))
        .unwrap();
    assert_eq!(acts.len(), 1);
    match &acts[0] {
        VaultAction::MintShares { token, recipient, amount, reply_id, mode } => {
            assert_eq!(token, "vtoken");
            assert_eq!(recipient, "alice");
            assert_eq!(*amount, 500);
            assert_eq!(*reply_id, 2);
            assert_eq!(*mode, ReplyMode::OnError);
        }
        other => panic!("unexpected action: {:?}", other),
    }
}

#[test]
fn failed_supply_query_counts_as_empty_vault() {
    let mut vault = initialized_vault();
    let acts = vault
        .handle_cw20_receive(receive("Deposit", "asset", 500), VAULT_ADDR.to_string(),
            None, Some(500))
        .unwrap();
    match &acts[0] {
        VaultAction::MintShares { amount, .. } => assert_eq!(*amount, 500),
        other => panic!("unexpected action: {:?}", other),
    }
}

#[test]
fn deposit_mints_proportionally() {
    let mut vault = initialized_vault();
    let acts = vault
        .handle_cw20_receive(receive("Deposit", "asset", 100), VAULT_ADDR.to_string(),
            Some(1000), Some(1100))
        .unwrap();
    match &acts[0] {
        VaultAction::MintShares { amount, .. } => assert_eq!(*amount, 100),
        other => panic!("unexpected action: {:?}", other),
    }
}

#[test]
fn deposit_needs_share_token() {
    let mut vault = initialized_vault();
    vault.vtoken_address = None;
    let r = vault.handle_cw20_receive(receive("Deposit", "asset", 100),
        VAULT_ADDR.to_string(), Some(0), Some(100));
    assert!(matches!(r, Err(ContractError::NotInitialized)));
}

#[test]
fn deposit_needs_balance_when_supply_nonzero() {
    let mut vault = initialized_vault();
    let r = vault.handle_cw20_receive(receive("Deposit", "asset", 100),
        VAULT_ADDR.to_string(), Some(1000), None);
    assert!(matches!(r, Err(ContractError::Configuration)));
}

#[test]
fn deposit_whole_balance_fails_arithmetic() {
    let mut vault = initialized_vault();
    let r = vault.handle_cw20_receive(receive("Deposit", "asset", 1100),
        VAULT_ADDR.to_string(), Some(1000), Some(1100));
    assert!(matches!(r, Err(ContractError::Arithmetic)));
}

#[test]
fn withdraw_unwinds_pays_and_burns() {
    let mut vault = initialized_vault();
    let acts = vault
        .handle_cw20_receive(receive("Withdraw", "vtoken", 16), VAULT_ADDR.to_string(),
            Some(26), Some(8))
        .unwrap();
    assert_eq!(acts.len(), 3);
    match &acts[0] {
        VaultAction::StrategyWithdraw { strategy, denom, recipient, reply_id, mode } => {
            assert_eq!(strategy, STRATEGY_ADDR);
            assert_eq!(denom, "osmo");
            assert_eq!(recipient, VAULT_ADDR);
            assert_eq!(*reply_id, 6);
            assert_eq!(*mode, ReplyMode::OnSuccess);
        }
        other => panic!("unexpected action: {:?}", other),
    }
    match &acts[1] {
        VaultAction::TransferAsset { token, recipient, amount, reply_id, mode } => {
            assert_eq!(token, "asset");
            assert_eq!(recipient, "alice");
            assert_eq!(*amount, 12); // floor(8 * 16 / (26 - 16))
            assert_eq!(*reply_id, 3);
            assert_eq!(*mode, ReplyMode::OnError);
        }
        other => panic!("unexpected action: {:?}", other),
    }
    match &acts[2] {
        VaultAction::BurnShares { token, amount, reply_id, mode } => {
            assert_eq!(token, "vtoken");
            assert_eq!(*amount, 16);
            assert_eq!(*reply_id, 7);
            assert_eq!(*mode, ReplyMode::Always);
        }
        other => panic!("unexpected action: {:?}", other),
    }
    // The pending burn amount was persisted.
    assert_eq!(vault.burn_amount, Some(16));
}

#[test]
fn withdraw_rejects_foreign_share_token() {
    let mut vault = initialized_vault();
    let r = vault.handle_cw20_receive(receive("Withdraw", "not-vtoken", 10),
        VAULT_ADDR.to_string(), Some(26), Some(8));
    assert!(matches!(r, Err(ContractError::InvalidShareToken)));
    assert!(vault.burn_amount.is_none());
}

#[test]
fn withdraw_of_whole_supply_fails_arithmetic() {
    let mut vault = initialized_vault();
    let r = vault.handle_cw20_receive(receive("Withdraw", "vtoken", 26),
        VAULT_ADDR.to_string(), Some(26), Some(8));
    assert!(matches!(r, Err(ContractError::Arithmetic)));
    assert!(vault.burn_amount.is_none());
}

#[test]
fn unknown_instruction_rejected() {
    let mut vault = initialized_vault();
    let r = vault.handle_cw20_receive(receive("Borrow", "asset", 10),
        VAULT_ADDR.to_string(), Some(26), Some(8));
    assert!(matches!(r, Err(ContractError::Orchestration)));
}

#[test]
fn strategies_forwards_whole_balance() {
    let vault = initialized_vault();
    let acts = vault.strategies(VAULT_ADDR.to_string(), Some(750)).unwrap();
    assert_eq!(acts.len(), 1);
    match &acts[0] {
        VaultAction::StrategyDeposit { strategy, denom, amount, on_behalf_of, reply_id, mode } => {
            assert_eq!(strategy, STRATEGY_ADDR);
            assert_eq!(denom, "osmo");
            assert_eq!(*amount, 750);
            assert_eq!(on_behalf_of, VAULT_ADDR);
            assert_eq!(*reply_id, 4);
            assert_eq!(*mode, ReplyMode::OnSuccess);
        }
        other => panic!("unexpected action: {:?}", other),
    }
}

#[test]
fn strategies_needs_balance() {
    let vault = initialized_vault();
    assert!(matches!(vault.strategies(VAULT_ADDR.to_string(), None),
        Err(ContractError::Configuration)));
    let empty = VaultState::new();
    assert!(matches!(empty.strategies(VAULT_ADDR.to_string(), Some(1)),
        Err(ContractError::NotInitialized)));
}

#[test]
fn execute_routes_both_messages() {
    let mut vault = initialized_vault();
    let acts = vault
        .execute(ExecuteMsg::Strategies {}, VAULT_ADDR.to_string(), None, Some(9))
        .unwrap();
    assert!(matches!(&acts[0], VaultAction::StrategyDeposit { amount: 9, .. }));
    let acts = vault
        .execute(ExecuteMsg::Receive(receive("Deposit", "asset", 3)),
            VAULT_ADDR.to_string(), Some(0), Some(3))
        .unwrap();
    assert!(matches!(&acts[0], VaultAction::MintShares { amount: 3, .. }));
}

#[test]
fn queries_answer_from_state_and_services() {
    let vault = initialized_vault();
    match vault.query(QueryMsg::TotalBalance {}, Some(5), Some(77)).unwrap() {
        QueryResponse::TotalBalance(resp) => assert_eq!(resp.balance, 77),
        other => panic!("unexpected answer: {:?}", other),
    }
    match vault.query(QueryMsg::TotalSupply {}, Some(5), Some(77)).unwrap() {
        QueryResponse::TotalSupply(resp) => assert_eq!(resp.total_supply, 5),
        other => panic!("unexpected answer: {:?}", other),
    }
    match vault.query(QueryMsg::SupportedToken {}, None, None).unwrap() {
        QueryResponse::SupportedToken(resp) => assert_eq!(resp.supported_token, "asset"),
        other => panic!("unexpected answer: {:?}", other),
    }
    match vault.query(QueryMsg::Vtoken {}, None, None).unwrap() {
        QueryResponse::Vtoken(resp) => assert_eq!(resp.vtoken, "vtoken"),
        other => panic!("unexpected answer: {:?}", other),
    }
}

#[test]
fn queries_report_missing_state_and_services() {
    let empty = VaultState::new();
    assert!(matches!(empty.query(QueryMsg::TotalBalance {}, None, Some(1)),
        Err(ContractError::NotInitialized)));
    assert!(matches!(empty.query(QueryMsg::TotalSupply {}, Some(1), None),
        Err(ContractError::NotInitialized)));
    let vault = initialized_vault();
    assert!(matches!(vault.query(QueryMsg::TotalBalance {}, None, None),
        Err(ContractError::Configuration)));
    assert!(matches!(vault.query(QueryMsg::TotalSupply {}, None, None),
        Err(ContractError::Configuration)));
}
