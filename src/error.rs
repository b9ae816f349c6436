use vstd::prelude::*;

verus! {

/// Why a mint could not be carried out.
#[derive(Debug)]
pub enum TransactionError {
    /// The wallet has no change address set.
    ChangeAddress(String),
    /// A box value lies outside the ledger's bounds.
    BoxValue(u64),
    /// What is left over as change is no valid box value.
    ChangeValue(u128),
    /// A token amount lies outside the representable range.
    TokenValue(u64),
    /// The funding boxes do not cover what is needed.
    InsufficientFunds { required: u128, available: u128 },
    /// No contract template of that kind.
    TemplateNotFound(String),
    /// A placeholder of a template has no binding.
    MissingBinding(String),
    /// The node answered with something the mint did not ask for.
    OutOfOrder,
    /// The change address does not decode into an output address.
    Address(String),
}

} // verus!
