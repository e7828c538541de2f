use vstd::prelude::*;

verus! {

/// The error taxonomy of the vault and its registry. Each variant names the
/// condition an operation reports; the contracts of the operations state
/// exactly when each one is returned.
#[derive(Clone, Copy, Debug, PartialEq, Eq, Structural)]
pub enum ContractError {
    /// An external collaborator (asset metadata, balance or supply query)
    /// was unreachable or answered unusably.
    Configuration,
    /// The operation needs the vault configuration or the share token, and
    /// it does not exist yet.
    NotInitialized,
    /// A deposit presented an asset other than the supported one.
    UnsupportedAsset,
    /// A withdrawal presented a token other than the share token.
    InvalidShareToken,
    /// Division by zero or underflow in the share accounting.
    Arithmetic,
    /// The mint completion callback reported failure.
    MintFailed,
    /// The transfer completion callback reported failure.
    TransferFailed,
    /// The burn completion callback reported failure.
    BurnFailed,
    /// An unparsable callback payload, or a correlation identifier that was
    /// never issued by this vault.
    Orchestration,
    /// A registry record sharing a name, symbol or address already exists.
    DuplicateVault,
    /// The persistent store refused a read or write.
    Storage,
}

} // verus!
