//! Contract templating and transaction construction for minting reserves and
//! notes on an Ergo-style ledger.
//!
//! Every step is a plain function over library values: the node, the wallet and
//! the remote compiler are driven by the caller, which hands their answers in.
pub mod assembly;
pub mod contract;
pub mod error;
pub mod flow;
pub mod selection;
pub mod store;
pub mod template;

pub use contract::{
    CompiledContract, ContractReference, ContractTemplates, RECEIPT_HASH_SLOT, RESERVE_HASH_SLOT,
    address_of,
};
pub use error::TransactionError;
pub use template::{Binding, substitute};
pub use selection::{BoxSelection, FundingBox, select_for};
pub use assembly::{
    Guard, MintNoteRequest, MintReserveRequest, OutputBox, TxContext, UnsignedTransaction,
    build_note, build_reserve, note_box_value,
};
pub use flow::{NodeAction, NodeEvent, NoteMint, NotePhase, ReserveMint, ReservePhase};
pub use store::Config;
