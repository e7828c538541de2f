use vstd::prelude::*;

use crate::error::ContractError;
use crate::state::{VaultState, VaultStateV, BURN_ID, DEPOSIT_MINT_ID, FACTORY_REGISTER_REPLY_ID,
    VTOKEN_INSTANTIATE_REPLY_ID, WITHDRAW_MINT_ID};

verus! {

/// How the host reports the completion of an issued call: success with an
/// optional response payload, or failure with the collaborator's error text.
#[derive(Clone, Debug)]
pub enum CallOutcome {
    Success { data: Option<Vec<u8>> },
    Failure { error: String },
}

/// A completion callback: the correlation identifier chosen when the call
/// was issued, and its outcome.
#[derive(Clone, Debug)]
pub struct ReplyMsg {
    pub id: u64,
    pub outcome: CallOutcome,
}

/// The created contract's address held in an instantiate response payload,
/// if the payload decodes: what cw0's protobuf decoder returns on those
/// bytes.
pub uninterp spec fn instantiate_response_addr(data: Seq<u8>) -> Option<Seq<char>>;

/// Whether an execute response payload decodes: what cw0's protobuf decoder
/// accepts on those bytes.
pub uninterp spec fn execute_response_ok(data: Seq<u8>) -> bool;

/// Mathematical value of an optionally decoded address.
pub open spec fn opt_string_view(o: Option<String>) -> Option<Seq<char>> {
    match o {
        Some(s) => Some(s@),
        None => None,
    }
}

/// Relies on cw0::parse_instantiate_response_data: decodes the created
/// contract's address out of a protobuf-encoded instantiate response; the
/// result is a function of the payload bytes alone.
#[verifier::external_body]
fn parse_instantiate_response(data: &Vec<u8>) -> (r: Option<String>)
    ensures
        opt_string_view(r) == instantiate_response_addr(data@),
{
    match cw0::parse_instantiate_response_data(data.as_slice()) {
        Ok(res) => Some(res.contract_address),
        Err(_) => None,
    }
}

/// Relies on cw0::parse_execute_response_data: whether a protobuf-encoded
/// execute response decodes; a function of the payload bytes alone.
#[verifier::external_body]
fn parse_execute_response(data: &Vec<u8>) -> (r: bool)
    ensures
        r == execute_response_ok(data@),
{
    cw0::parse_execute_response_data(data.as_slice()).is_ok()
}

/// What the share-token creation callback does: a decodable success payload
/// stores the created token's address; a failure, a missing payload or an
/// undecodable one is rejected and changes nothing.
pub open spec fn instantiate_reply_spec(pre: VaultStateV, post: VaultStateV,
    outcome: CallOutcome, r: Result<(), ContractError>) -> bool {
    match outcome {
        CallOutcome::Success { data: Some(d) } => match instantiate_response_addr(d@) {
            Some(addr) => r is Ok && post == VaultStateV { vtoken_address: Some(addr), ..pre },
            None => r == Err::<(), ContractError>(ContractError::Orchestration) && post == pre,
        },
        _ => r == Err::<(), ContractError>(ContractError::Orchestration) && post == pre,
    }
}

/// An acknowledgement-only callback for an issued execute call: a reported
/// failure surfaces as `failure_error`, a success payload must decode, and
/// a missing or undecodable payload is rejected.
pub open spec fn execute_ack_spec(outcome: CallOutcome, failure_error: ContractError,
    r: Result<(), ContractError>) -> bool {
    match outcome {
        CallOutcome::Failure { .. } => r == Err::<(), ContractError>(failure_error),
        CallOutcome::Success { data: None } => r == Err::<(), ContractError>(
            ContractError::Orchestration),
        CallOutcome::Success { data: Some(d) } => if execute_response_ok(d@) {
            r is Ok
        } else {
            r == Err::<(), ContractError>(ContractError::Orchestration)
        },
    }
}

/// What the burn callback does: an acknowledged burn clears the pending
/// burn amount; a failed burn, or an undecodable payload, leaves it set for
/// the operator to reconcile.
pub open spec fn burn_reply_spec(pre: VaultStateV, post: VaultStateV, outcome: CallOutcome,
    r: Result<(), ContractError>) -> bool {
    match outcome {
        CallOutcome::Failure { .. } => r == Err::<(), ContractError>(ContractError::BurnFailed)
            && post == pre,
        CallOutcome::Success { data: Some(d) } => if execute_response_ok(d@) {
            r is Ok && post == VaultStateV { burn_amount: None, ..pre }
        } else {
            r == Err::<(), ContractError>(ContractError::Orchestration) && post == pre
        },
        CallOutcome::Success { data: None } => r is Ok
            && post == VaultStateV { burn_amount: None, ..pre },
    }
}

/// How a completion callback is routed: nothing is dispatched before the
/// vault exists, each reserved identifier reaches its handler, and an
/// identifier this vault never issued is rejected rather than ignored.
pub open spec fn reply_spec(pre: VaultStateV, post: VaultStateV, msg: ReplyMsg,
    r: Result<(), ContractError>) -> bool {
    if pre.contract_info is None {
        r == Err::<(), ContractError>(ContractError::Orchestration) && post == pre
    } else if msg.id == VTOKEN_INSTANTIATE_REPLY_ID {
        instantiate_reply_spec(pre, post, msg.outcome, r)
    } else if msg.id == FACTORY_REGISTER_REPLY_ID {
        r is Ok && post == pre
    } else if msg.id == DEPOSIT_MINT_ID {
        execute_ack_spec(msg.outcome, ContractError::MintFailed, r) && post == pre
    } else if msg.id == WITHDRAW_MINT_ID {
        execute_ack_spec(msg.outcome, ContractError::TransferFailed, r) && post == pre
    } else if msg.id == BURN_ID {
        burn_reply_spec(pre, post, msg.outcome, r)
    } else {
        r == Err::<(), ContractError>(ContractError::Orchestration) && post == pre
    }
}

impl VaultState {
    /// Record the share token the creation call produced, handed the decoded
    /// address; an undecodable response stores nothing.
    pub fn store_share_token(&mut self, decoded: Option<String>)
        -> (r: Result<(), ContractError>)
        ensures
            decoded matches Some(addr) ==> r is Ok
                && (final(self)@ == VaultStateV { vtoken_address: Some(addr@), ..old(self)@ }),
            decoded is None ==> (r == Err::<(), ContractError>(ContractError::Orchestration)
                && final(self)@ == old(self)@),
    {
        match decoded {
            Some(addr) => {
                let ghost a = addr@;
                self.vtoken_address = Some(addr);
                proof {
                    assert(self@ =~= VaultStateV { vtoken_address: Some(a), ..old(self)@ });
                }
                Ok(())
            },
            None => Err(ContractError::Orchestration),
        }
    }

    /// Complete the share-token creation: decode the created token's address
    /// from the callback payload and store it.
    pub fn handle_cw20_instantiate(&mut self, outcome: CallOutcome)
        -> (r: Result<(), ContractError>)
        ensures
            instantiate_reply_spec(old(self)@, final(self)@, outcome, r),
    {
        match outcome {
            CallOutcome::Success { data: Some(d) } => {
                let decoded = parse_instantiate_response(&d);
                self.store_share_token(decoded)
            },
            CallOutcome::Success { data: None } => Err(ContractError::Orchestration),
            CallOutcome::Failure { .. } => Err(ContractError::Orchestration),
        }
    }

    /// Acknowledge the registration callback. Registration failures are
    /// deliberately not fatal to the vault; nothing is read and nothing
    /// changes.
    pub fn handle_register_reply(&self, outcome: CallOutcome) -> (r: Result<(), ContractError>)
        ensures
            r is Ok,
    {
        let _ = outcome;
        Ok(())
    }

    /// Acknowledge the deposit-mint callback; a reported failure surfaces
    /// as a failed mint.
    pub fn handle_mint_reply(&self, outcome: CallOutcome) -> (r: Result<(), ContractError>)
        ensures
            execute_ack_spec(outcome, ContractError::MintFailed, r),
    {
        match outcome {
            CallOutcome::Failure { .. } => Err(ContractError::MintFailed),
            CallOutcome::Success { data: None } => Err(ContractError::Orchestration),
            CallOutcome::Success { data: Some(d) } => {
                if parse_execute_response(&d) {
                    Ok(())
                } else {
                    Err(ContractError::Orchestration)
                }
            },
        }
    }

    /// Acknowledge the withdrawal-transfer callback; a reported failure
    /// surfaces as a failed transfer.
    pub fn handle_withdraw_reply(&self, outcome: CallOutcome) -> (r: Result<(), ContractError>)
        ensures
            execute_ack_spec(outcome, ContractError::TransferFailed, r),
    {
        match outcome {
            CallOutcome::Failure { .. } => Err(ContractError::TransferFailed),
            CallOutcome::Success { data: None } => Err(ContractError::Orchestration),
            CallOutcome::Success { data: Some(d) } => {
                if parse_execute_response(&d) {
                    Ok(())
                } else {
                    Err(ContractError::Orchestration)
                }
            },
        }
    }

    /// Acknowledge the burn callback: on success the pending burn amount is
    /// consumed; on failure it stays set for the operator to reconcile.
    pub fn handle_burn_reply(&mut self, outcome: CallOutcome) -> (r: Result<(), ContractError>)
        ensures
            burn_reply_spec(old(self)@, final(self)@, outcome, r),
    {
        match outcome {
            CallOutcome::Failure { .. } => Err(ContractError::BurnFailed),
            CallOutcome::Success { data: Some(d) } => {
                if parse_execute_response(&d) {
                    self.burn_amount = None;
                    proof {
                        assert(self@ =~= VaultStateV { burn_amount: None, ..old(self)@ });
                    }
                    Ok(())
                } else {
                    Err(ContractError::Orchestration)
                }
            },
            CallOutcome::Success { data: None } => {
                self.burn_amount = None;
                proof {
                    assert(self@ =~= VaultStateV { burn_amount: None, ..old(self)@ });
                }
                Ok(())
            },
        }
    }

    /// Dispatch a completion callback by its correlation identifier.
    pub fn reply(&mut self, msg: ReplyMsg) -> (r: Result<(), ContractError>)
        ensures
            reply_spec(old(self)@, final(self)@, msg, r),
    {
        if self.contract_info.is_none() {
            return Err(ContractError::Orchestration);
        }
        let ReplyMsg { id, outcome } = msg;
        if id == VTOKEN_INSTANTIATE_REPLY_ID {
            self.handle_cw20_instantiate(outcome)
        } else if id == FACTORY_REGISTER_REPLY_ID {
            self.handle_register_reply(outcome)
        } else if id == DEPOSIT_MINT_ID {
            self.handle_mint_reply(outcome)
        } else if id == WITHDRAW_MINT_ID {
            self.handle_withdraw_reply(outcome)
        } else if id == BURN_ID {
            self.handle_burn_reply(outcome)
        } else {
            Err(ContractError::Orchestration)
        }
    }
}

} // verus!
