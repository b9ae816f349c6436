use vstd::prelude::*;

use crate::assembly::{
    MintNoteRequest, MintReserveRequest, TxContext, UnsignedTransaction, assembled, build_note,
    build_reserve, note_box_value,
};
use crate::contract::{
    CompiledContract, ContractReference, ContractTemplates, address_of, note_bindings,
    receipt_bindings, reference_of, rendered_as,
};
use crate::error::TransactionError;
use crate::selection::{BoxSelection, FundingBox, is_minimal_cover, select_for, total};

verus! {

/// What the node answered to the previous action.
pub enum NodeEvent {
    /// Nothing yet: the mint begins.
    Begin,
    /// The chain height and the wallet's change address (empty when unset).
    Context { height: u32, change_address: String },
    /// Unspent boxes of the wallet, in the node's order.
    Boxes(Vec<FundingBox>),
    /// The contract compiled from the source last asked for.
    Compiled(CompiledContract),
    /// The id of the transaction the node signed and broadcast.
    Submitted(String),
}

/// What the node is to do next, or how the mint ended.
pub enum NodeAction {
    FetchContext,
    SelectBoxes(u64),
    Compile(String),
    Submit(UnsignedTransaction),
    Done(String),
    Fail(TransactionError),
}

/// The source that a `Compile` action asks for, or the failure that ended the
/// mint.
pub open spec fn compile_outcome(a: NodeAction) -> Result<String, TransactionError> {
    match a {
        NodeAction::Compile(s) => Ok(s),
        NodeAction::Fail(e) => Err(e),
        _ => Err(TransactionError::OutOfOrder),
    }
}

/// The transaction that a `Submit` action hands over, or the failure that ended
/// the mint.
pub open spec fn submit_outcome(a: NodeAction) -> Result<UnsignedTransaction, TransactionError> {
    match a {
        NodeAction::Submit(tx) => Ok(tx),
        NodeAction::Fail(e) => Err(e),
        _ => Err(TransactionError::OutOfOrder),
    }
}

/// Where a reserve mint stands.
pub enum ReservePhase {
    Start,
    AwaitingContext,
    AwaitingBoxes { ctx: TxContext },
    AwaitingContract { ctx: TxContext, selection: BoxSelection },
    AwaitingSubmission,
    Finished,
}

/// A reserve mint: context first, then funding, then the reserve contract.
pub struct ReserveMint {
    pub request: MintReserveRequest,
    pub phase: ReservePhase,
}

/// Reads the context that the node reported, with the recommended fee, and the
/// value the funding must cover: `value` plus that fee.
fn context_and_target(value: u64, height: u32, change_address: String) -> (r: Result<
    (TxContext, u64),
    TransactionError,
>)
    ensures
        change_address@.len() == 0 ==> (r matches Err(TransactionError::ChangeAddress(_))),
        change_address@.len() > 0 && value + 1100000 > u64::MAX ==> (r matches Err(
            TransactionError::BoxValue(v),
        ) && v == value),
        change_address@.len() > 0 && value + 1100000 <= u64::MAX ==> (r matches Ok((c, t)) && t
            == value + 1100000 && c.current_height == height && c.change_address@
            == change_address@ && c.fee == 1100000),
{
    let ctx = TxContext::new(height, change_address)?;
    if value > u64::MAX - ctx.fee {
        return Err(TransactionError::BoxValue(value));
    }
    let target = value + ctx.fee;
    Ok((ctx, target))
}

impl ReserveMint {
    /// A reserve mint that has not asked the node anything yet.
    pub fn new(request: MintReserveRequest) -> (r: ReserveMint)
        ensures
            r.request == request,
            r.phase is Start,
    {
        ReserveMint { request, phase: ReservePhase::Start }
    }

    /// Takes the node's answer and says what to do next.
    pub fn step(self, templates: &ContractTemplates, event: NodeEvent) -> (r: (ReserveMint, NodeAction))
        ensures
            r.0.request == self.request,
            r.1 is Fail || r.1 is Done ==> r.0.phase is Finished,
            match (self.phase, event) {
                (ReservePhase::Start, NodeEvent::Begin) => r.1 is FetchContext && r.0.phase is AwaitingContext,
                (ReservePhase::AwaitingContext, NodeEvent::Context { height, change_address }) => {
                    &&& change_address@.len() == 0 ==> (r.1 matches NodeAction::Fail(TransactionError::ChangeAddress(_)))
                    &&& change_address@.len() > 0 && self.request.amount + 1100000 <= u64::MAX ==> {
                        &&& (r.1 matches NodeAction::SelectBoxes(t) && t == self.request.amount + 1100000)
                        &&& (r.0.phase matches ReservePhase::AwaitingBoxes { ctx } && ctx.current_height == height
                            && ctx.change_address@ == change_address@ && ctx.fee == 1100000)
                    }
                    &&& change_address@.len() > 0 && self.request.amount + 1100000 > u64::MAX
                        ==> (r.1 matches NodeAction::Fail(TransactionError::BoxValue(_)))
                },
                (ReservePhase::AwaitingBoxes { ctx }, NodeEvent::Boxes(bs)) => {
                    let target = self.request.amount + ctx.fee;
                    &&& (target == 0 || target > u64::MAX) ==> (r.1 matches NodeAction::Fail(
                        TransactionError::BoxValue(v),
                    ) && v == self.request.amount)
                    &&& 0 < target <= u64::MAX && total(bs@) < target ==> (r.1 matches NodeAction::Fail(TransactionError::InsufficientFunds { .. }))
                    &&& 0 < target <= u64::MAX && total(bs@) >= target ==> {
                        &&& (r.1 is Compile || r.1 is Fail)
                        &&& rendered_as(templates.reserve@, seq![], compile_outcome(r.1))
                        &&& r.1 is Compile ==> (r.0.phase matches ReservePhase::AwaitingContract { ctx: c, selection }
                            && c == ctx && is_minimal_cover(selection.boxes@, bs@, target)
                            && selection.change == total(selection.boxes@) - target)
                    }
                },
                (ReservePhase::AwaitingContract { ctx, selection }, NodeEvent::Compiled(c)) => {
                    assembled(self.request.amount, None, c@, selection.boxes@, ctx, submit_outcome(r.1)) && (r.1 is Submit || r.1 is Fail) && (r.1 is Submit ==> r.0.phase is AwaitingSubmission)
                },
                (ReservePhase::AwaitingSubmission, NodeEvent::Submitted(id)) => r.1 matches NodeAction::Done(d) && d@ == id@,
                _ => r.1 matches NodeAction::Fail(TransactionError::OutOfOrder),
            },
    {
        let request = self.request;
        match (self.phase, event) {
            (ReservePhase::Start, NodeEvent::Begin) => (
                ReserveMint { request, phase: ReservePhase::AwaitingContext },
                NodeAction::FetchContext,
            ),
            (ReservePhase::AwaitingContext, NodeEvent::Context { height, change_address }) => {
                match context_and_target(request.amount, height, change_address) {
                    Ok((ctx, target)) => (
                        ReserveMint { request, phase: ReservePhase::AwaitingBoxes { ctx } },
                        NodeAction::SelectBoxes(target),
                    ),
                    Err(e) => (ReserveMint { request, phase: ReservePhase::Finished }, NodeAction::Fail(e)),
                }
            },
            (ReservePhase::AwaitingBoxes { ctx }, NodeEvent::Boxes(bs)) => {
                if request.amount == 0 && ctx.fee == 0 || request.amount > u64::MAX - ctx.fee {
                    let amount = request.amount;
                    return (
                        ReserveMint { request, phase: ReservePhase::Finished },
                        NodeAction::Fail(TransactionError::BoxValue(amount)),
                    );
                }
                let target = request.amount + ctx.fee;
                match select_for(target, bs) {
                    Err(e) => (ReserveMint { request, phase: ReservePhase::Finished }, NodeAction::Fail(e)),
                    Ok(selection) => match templates.reserve_source() {
                        Err(e) => (ReserveMint { request, phase: ReservePhase::Finished }, NodeAction::Fail(e)),
                        Ok(source) => (
                            ReserveMint {
                                request,
                                phase: ReservePhase::AwaitingContract { ctx, selection },
                            },
                            NodeAction::Compile(source),
                        ),
                    },
                }
            },
            (ReservePhase::AwaitingContract { ctx, selection }, NodeEvent::Compiled(c)) => {
                match build_reserve(&request, c, selection, &ctx) {
                    Ok(tx) => (
                        ReserveMint { request, phase: ReservePhase::AwaitingSubmission },
                        NodeAction::Submit(tx),
                    ),
                    Err(e) => (ReserveMint { request, phase: ReservePhase::Finished }, NodeAction::Fail(e)),
                }
            },
            (ReservePhase::AwaitingSubmission, NodeEvent::Submitted(id)) => (
                ReserveMint { request, phase: ReservePhase::Finished },
                NodeAction::Done(id),
            ),
            _ => (ReserveMint { request, phase: ReservePhase::Finished }, NodeAction::Fail(TransactionError::OutOfOrder)),
        }
    }
}

/// Where a note mint stands.
pub enum NotePhase {
    Start,
    AwaitingReserveContract,
    AwaitingReceiptContract { reserve: ContractReference },
    AwaitingContext { reserve: ContractReference, receipt: ContractReference },
    AwaitingBoxes { reserve: ContractReference, receipt: ContractReference, ctx: TxContext },
    AwaitingContract { ctx: TxContext, selection: BoxSelection },
    AwaitingSubmission,
    Finished,
}

/// A note mint. The reserve contract is compiled and addressed before the
/// receipt template is filled with its reference, and the receipt contract
/// before the note template is filled with both.
pub struct NoteMint {
    pub request: MintNoteRequest,
    pub phase: NotePhase,
}

impl NoteMint {
    /// A note mint that has not asked the node anything yet.
    pub fn new(request: MintNoteRequest) -> (r: NoteMint)
        ensures
            r.request == request,
            r.phase is Start,
    {
        NoteMint { request, phase: NotePhase::Start }
    }

    fn finish(request: MintNoteRequest, e: TransactionError) -> (r: (NoteMint, NodeAction))
        ensures
            r.0.request == request,
            r.0.phase is Finished,
            r.1 == NodeAction::Fail(e),
    {
        (NoteMint { request, phase: NotePhase::Finished }, NodeAction::Fail(e))
    }

    /// Takes the node's answer and says what to do next.
    pub fn step(self, templates: &ContractTemplates, event: NodeEvent) -> (r: (NoteMint, NodeAction))
        ensures
            r.0.request == self.request,
            r.1 is Fail || r.1 is Done ==> r.0.phase is Finished,
            match (self.phase, event) {
                (NotePhase::Start, NodeEvent::Begin) => {
                    &&& (r.1 is Compile || r.1 is Fail)
                    &&& rendered_as(templates.reserve@, seq![], compile_outcome(r.1))
                    &&& r.1 is Compile ==> r.0.phase is AwaitingReserveContract
                },
                (NotePhase::AwaitingReserveContract, NodeEvent::Compiled(c)) => {
                    &&& (r.1 is Compile || r.1 is Fail)
                    &&& rendered_as(templates.receipt@, receipt_bindings(reference_of(c@)), compile_outcome(r.1))
                    &&& r.1 is Compile ==> (r.0.phase matches NotePhase::AwaitingReceiptContract { reserve }
                        && reserve@ == reference_of(c@))
                },
                (NotePhase::AwaitingReceiptContract { reserve }, NodeEvent::Compiled(c)) => {
                    &&& r.1 is FetchContext
                    &&& r.0.phase matches NotePhase::AwaitingContext { reserve: rs, receipt }
                        && rs == reserve && receipt@ == reference_of(c@)
                },
                (NotePhase::AwaitingContext { reserve, receipt }, NodeEvent::Context { height, change_address }) => {
                    &&& change_address@.len() == 0 ==> (r.1 matches NodeAction::Fail(TransactionError::ChangeAddress(_)))
                    &&& change_address@.len() > 0 ==> {
                        &&& (r.1 matches NodeAction::SelectBoxes(t) && t == 1000000 + 1100000)
                        &&& (r.0.phase matches NotePhase::AwaitingBoxes { reserve: rs, receipt: rc, ctx }
                            && rs == reserve && rc == receipt && ctx.current_height == height
                            && ctx.change_address@ == change_address@ && ctx.fee == 1100000)
                    }
                },
                (NotePhase::AwaitingBoxes { reserve, receipt, ctx }, NodeEvent::Boxes(bs)) => {
                    let target = 1000000 + ctx.fee;
                    &&& target > u64::MAX ==> (r.1 matches NodeAction::Fail(TransactionError::BoxValue(v))
                        && v == 1000000)
                    &&& target <= u64::MAX && total(bs@) < target ==> (r.1 matches NodeAction::Fail(
                        TransactionError::InsufficientFunds { .. },
                    ))
                    &&& target <= u64::MAX && total(bs@) >= target ==> {
                        &&& (r.1 is Compile || r.1 is Fail)
                        &&& rendered_as(templates.note@, note_bindings(reserve@, receipt@), compile_outcome(r.1))
                        &&& r.1 is Compile ==> (r.0.phase matches NotePhase::AwaitingContract { ctx: c, selection }
                            && c == ctx && is_minimal_cover(selection.boxes@, bs@, target)
                            && selection.change == total(selection.boxes@) - target)
                    }
                },
                (NotePhase::AwaitingContract { ctx, selection }, NodeEvent::Compiled(c)) => {
                    assembled(1000000, Some(self.request.amount), c@, selection.boxes@, ctx, submit_outcome(r.1)) && (r.1 is Submit || r.1 is Fail) && (r.1 is Submit ==> r.0.phase is AwaitingSubmission)
                },
                (NotePhase::AwaitingSubmission, NodeEvent::Submitted(id)) => r.1 matches NodeAction::Done(d) && d@ == id@,
                _ => r.1 matches NodeAction::Fail(TransactionError::OutOfOrder),
            },
    {
        let request = self.request;
        match (self.phase, event) {
            (NotePhase::Start, NodeEvent::Begin) => match templates.reserve_source() {
                Ok(source) => (
                    NoteMint { request, phase: NotePhase::AwaitingReserveContract },
                    NodeAction::Compile(source),
                ),
                Err(e) => NoteMint::finish(request, e),
            },
            (NotePhase::AwaitingReserveContract, NodeEvent::Compiled(c)) => {
                let reserve = address_of(&c);
                match templates.receipt_source(&reserve) {
                    Ok(source) => (
                        NoteMint { request, phase: NotePhase::AwaitingReceiptContract { reserve } },
                        NodeAction::Compile(source),
                    ),
                    Err(e) => NoteMint::finish(request, e),
                }
            },
            (NotePhase::AwaitingReceiptContract { reserve }, NodeEvent::Compiled(c)) => {
                let receipt = address_of(&c);
                (
                    NoteMint { request, phase: NotePhase::AwaitingContext { reserve, receipt } },
                    NodeAction::FetchContext,
                )
            },
            (NotePhase::AwaitingContext { reserve, receipt }, NodeEvent::Context { height, change_address }) => {
                match context_and_target(note_box_value(), height, change_address) {
                    Ok((ctx, target)) => (
                        NoteMint { request, phase: NotePhase::AwaitingBoxes { reserve, receipt, ctx } },
                        NodeAction::SelectBoxes(target),
                    ),
                    Err(e) => NoteMint::finish(request, e),
                }
            },
            (NotePhase::AwaitingBoxes { reserve, receipt, ctx }, NodeEvent::Boxes(bs)) => {
                let value = note_box_value();
                if value > u64::MAX - ctx.fee {
                    return NoteMint::finish(request, TransactionError::BoxValue(value));
                }
                let target = value + ctx.fee;
                match select_for(target, bs) {
                    Err(e) => NoteMint::finish(request, e),
                    Ok(selection) => match templates.note_source(&reserve, &receipt) {
                        Err(e) => NoteMint::finish(request, e),
                        Ok(source) => (
                            NoteMint { request, phase: NotePhase::AwaitingContract { ctx, selection } },
                            NodeAction::Compile(source),
                        ),
                    },
                }
            },
            (NotePhase::AwaitingContract { ctx, selection }, NodeEvent::Compiled(c)) => {
                match build_note(&request, c, selection, &ctx) {
                    Ok(tx) => (NoteMint { request, phase: NotePhase::AwaitingSubmission }, NodeAction::Submit(tx)),
                    Err(e) => NoteMint::finish(request, e),
                }
            },
            (NotePhase::AwaitingSubmission, NodeEvent::Submitted(id)) => (
                NoteMint { request, phase: NotePhase::Finished },
                NodeAction::Done(id),
            ),
            _ => NoteMint::finish(request, TransactionError::OutOfOrder),
        }
    }
}

} // verus!
