use pooled_vault::error::ContractError;
use pooled_vault::reply::{CallOutcome, ReplyMsg};
use pooled_vault::state::{ContractInfo, VaultState};

fn initialized_vault() -> VaultState {
    VaultState {
        contract_info: Some(ContractInfo {
            contract_owner: "owner".to_string(),
            supported_token: "asset".to_string(),
        }),
        vtoken_address: None,
        burn_amount: None,
    }
}

/// Protobuf encoding of an instantiate response whose first field is the
/// contract address "addr1".
fn instantiate_payload() -> Vec<u8> {
    vec![0x0a, 0x05, b'a', b'd', b'd', b'r', b'1']
}

fn success(data: Option<Vec<u8>>) -> CallOutcome {
    CallOutcome::Success { data }
}

fn failure() -> CallOutcome {
    CallOutcome::Failure { error: "collaborator failed".to_string() }
}

#[test]
fn callback_before_initialize_is_rejected() {
    let mut vault = VaultState::new();
    let r = vault.reply(ReplyMsg { id: 1, outcome: success(Some(instantiate_payload())) });
    assert!(matches!(r, Err(ContractError::Orchestration)));
    assert!(vault.vtoken_address.is_none());
}

#[test]
fn unknown_identifier_is_rejected() {
    let mut vault = initialized_vault();
    for id in [0u64, 4, 6, 8, 9, 100] {
        let r = vault.reply(ReplyMsg { id, outcome: success(None) });
        assert!(matches!(r, Err(ContractError::Orchestration)), "id {id}");
    }
}

#[test]
fn creation_callback_stores_decoded_address() {
    let mut vault = initialized_vault();
    let r = vault.reply(ReplyMsg { id: 1, outcome: success(Some(instantiate_payload())) });
    assert!(r.is_ok());
    // The address is decoded out of the payload, not the payload itself.
    assert_eq!(vault.vtoken_address.as_deref(), Some("addr1"));
}

#[test]
fn creation_callback_rejects_undecodable_payload() {
    let mut vault = initialized_vault();
    let r = vault.reply(ReplyMsg { id: 1, outcome: success(Some(vec![0xff, 0x01])) });
    assert!(matches!(r, Err(ContractError::Orchestration)));
    assert!(vault.vtoken_address.is_none());
}

#[test]
fn creation_callback_rejects_missing_payload_and_failure() {
    let mut vault = initialized_vault();
    assert!(matches!(vault.reply(ReplyMsg { id: 1, outcome: success(None) }),
        Err(ContractError::Orchestration)));
    assert!(matches!(vault.reply(ReplyMsg { id: 1, outcome: failure() }),
        Err(ContractError::Orchestration)));
    assert!(vault.vtoken_address.is_none());
}

#[test]
fn registration_callback_is_acknowledged() {
    let mut vault = initialized_vault();
    assert!(vault.reply(ReplyMsg { id: 5, outcome: success(None) }).is_ok());
    assert!(vault.reply(ReplyMsg { id: 5, outcome: failure() }).is_ok());
}

#[test]
fn mint_callback_failure_surfaces() {
    let mut vault = initialized_vault();
    let r = vault.reply(ReplyMsg { id: 2, outcome: failure() });
    assert!(matches!(r, Err(ContractError::MintFailed)));
}

#[test]
fn mint_callback_success_payload_must_decode() {
    let mut vault = initialized_vault();
    // An empty execute response decodes (no fields at all).
    assert!(vault.reply(ReplyMsg { id: 2, outcome: success(Some(vec![])) }).is_ok());
    // Garbage does not.
    assert!(matches!(
        vault.reply(ReplyMsg { id: 2, outcome: success(Some(vec![0xff])) }),
        Err(ContractError::Orchestration)
    ));
    // A missing payload does not.
    assert!(matches!(vault.reply(ReplyMsg { id: 2, outcome: success(None) }),
        Err(ContractError::Orchestration)));
}

#[test]
fn transfer_callback_failure_surfaces() {
    let mut vault = initialized_vault();
    let r = vault.reply(ReplyMsg { id: 3, outcome: failure() });
    assert!(matches!(r, Err(ContractError::TransferFailed)));
}

#[test]
fn burn_callback_failure_keeps_pending_amount() {
    let mut vault = initialized_vault();
    vault.burn_amount = Some(16);
    let r = vault.reply(ReplyMsg { id: 7, outcome: failure() });
    assert!(matches!(r, Err(ContractError::BurnFailed)));
    assert_eq!(vault.burn_amount, Some(16));
}

#[test]
fn burn_callback_success_clears_pending_amount() {
    let mut vault = initialized_vault();
    vault.burn_amount = Some(16);
    assert!(vault.reply(ReplyMsg { id: 7, outcome: success(None) }).is_ok());
    assert!(vault.burn_amount.is_none());

    vault.burn_amount = Some(5);
    assert!(vault.reply(ReplyMsg { id: 7, outcome: success(Some(vec![])) }).is_ok());
    assert!(vault.burn_amount.is_none());
}
