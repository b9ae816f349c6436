use vstd::prelude::*;

use crate::contract::CompiledContract;
use crate::error::TransactionError;
use crate::selection::{BoxSelection, FundingBox, total};

verus! {

/// Smallest value a box may carry, in nanoErgs.
pub const MIN_BOX_VALUE: u64 = 10800;

/// Largest value a box may carry, in nanoErgs.
pub const MAX_BOX_VALUE: u64 = 9223372036854775807;

/// Largest amount of a token that a box may carry.
pub const MAX_TOKEN_AMOUNT: u64 = 9223372036854775807;

/// Whether `text` decodes into an output address.
pub uninterp spec fn decodes_as_address(text: Seq<char>) -> bool;

/// Relies on `BoxValue::try_from(u64)`: accepts exactly the values within
/// `BoxValue::MIN_RAW..=BoxValue::MAX_RAW`.
#[verifier::external_body]
fn box_value_in_bounds(v: u64) -> (r: bool)
    ensures
        r == (MIN_BOX_VALUE <= v && v <= MAX_BOX_VALUE),
{
    ergo_lib::ergotree_ir::chain::ergo_box::box_value::BoxValue::try_from(v).is_ok()
}

/// Relies on `TokenAmount::try_from(u64)`: accepts exactly the amounts within
/// `TokenAmount::MIN_RAW..=TokenAmount::MAX_RAW`.
#[verifier::external_body]
fn token_amount_in_bounds(v: u64) -> (r: bool)
    ensures
        r == (1 <= v && v <= MAX_TOKEN_AMOUNT),
{
    ergo_lib::ergotree_ir::chain::token::TokenAmount::try_from(v).is_ok()
}

/// Relies on `BoxValue::SAFE_USER_MIN`: the recommended smallest box value.
#[verifier::external_body]
fn safe_user_min() -> (r: u64)
    ensures
        r == 1000000,
{
    *ergo_lib::ergotree_ir::chain::ergo_box::box_value::BoxValue::SAFE_USER_MIN.as_u64()
}

/// Relies on `SUGGESTED_TX_FEE()`: the fee the wallet library recommends.
#[verifier::external_body]
fn suggested_tx_fee() -> (r: u64)
    ensures
        r == 1100000,
{
    *ergo_lib::wallet::tx_builder::SUGGESTED_TX_FEE().as_u64()
}

/// Relies on `AddressEncoder::unchecked_parse_address_from_str`: whether the
/// text decodes into an address, which depends on the text alone.
#[verifier::external_body]
fn address_decodes(text: &str) -> (r: bool)
    ensures
        r == decodes_as_address(text@),
{
    ergo_lib::ergotree_ir::chain::address::AddressEncoder::unchecked_parse_address_from_str(
        text,
    ).is_ok()
}

/// The request to lock `amount` nanoErgs in a new reserve.
pub struct MintReserveRequest {
    pub amount: u64,
}

/// The request to issue a note of `amount` token units against a reserve.
pub struct MintNoteRequest {
    pub amount: u64,
}

/// Per-request facts from the node: chain height, change address and fee.
pub struct TxContext {
    pub current_height: u32,
    pub change_address: String,
    pub fee: u64,
}

impl TxContext {
    /// A context with the recommended fee. Fails with `ChangeAddress` when the
    /// wallet has no change address.
    pub fn new(current_height: u32, change_address: String) -> (r: Result<TxContext, TransactionError>)
        ensures
            r is Ok <==> change_address@.len() > 0,
            r matches Ok(c) ==> c.current_height == current_height && c.change_address@
                == change_address@ && c.fee == 1100000,
            r is Err ==> r matches Err(TransactionError::ChangeAddress(_)),
    {
        TxContext::with_fee(current_height, change_address, suggested_tx_fee())
    }

    /// A context with the given fee. Fails with `ChangeAddress` when the wallet
    /// has no change address.
    pub fn with_fee(current_height: u32, change_address: String, fee: u64) -> (r: Result<
        TxContext,
        TransactionError,
    >)
        ensures
            r is Ok <==> change_address@.len() > 0,
            r matches Ok(c) ==> c.current_height == current_height && c.change_address@
                == change_address@ && c.fee == fee,
            r is Err ==> r matches Err(TransactionError::ChangeAddress(_)),
    {
        if change_address.as_str().is_empty() {
            Err(TransactionError::ChangeAddress("address not set".to_string()))
        } else {
            Ok(TxContext { current_height, change_address, fee })
        }
    }
}

/// What guards an output box.
pub enum Guard {
    Contract(CompiledContract),
    Address(String),
}

/// An output of a transaction to be signed.
pub struct OutputBox {
    pub value: u64,
    pub guard: Guard,
    /// Units of a token minted into this box, if any.
    pub minted_tokens: Option<u64>,
    pub creation_height: u32,
}

/// A balanced transaction ready for signing.
pub struct UnsignedTransaction {
    pub inputs: Vec<FundingBox>,
    pub outputs: Vec<OutputBox>,
    pub fee: u64,
    pub height: u32,
}

/// Sum of the values of `os`.
pub open spec fn outputs_total(os: Seq<OutputBox>) -> int
    decreases os.len(),
{
    if os.len() == 0 {
        0
    } else {
        outputs_total(os.drop_last()) + os.last().value
    }
}

/// What building a transaction that puts `value` (and `tokens`, if any) under
/// `contract`, funded by `inputs` in context `ctx`, gives: the first failed
/// check in the order below, or the balanced transaction.
pub open spec fn assembled(
    value: u64,
    tokens: Option<u64>,
    contract: Seq<u8>,
    inputs: Seq<FundingBox>,
    ctx: TxContext,
    r: Result<UnsignedTransaction, TransactionError>,
) -> bool {
    let value_ok = MIN_BOX_VALUE <= value <= MAX_BOX_VALUE;
    let tokens_ok = tokens matches Some(t) ==> 1 <= t <= MAX_TOKEN_AMOUNT;
    let address_ok = decodes_as_address(ctx.change_address@);
    let needed = value + ctx.fee;
    let change = total(inputs) - needed;
    let change_ok = change == 0 || MIN_BOX_VALUE <= change <= MAX_BOX_VALUE;
    if !value_ok {
        r matches Err(TransactionError::BoxValue(v)) && v == value
    } else if !tokens_ok {
        r matches Err(TransactionError::TokenValue(t)) && Some(t) == tokens
    } else if !address_ok {
        r matches Err(TransactionError::Address(a)) && a@ == ctx.change_address@
    } else if change < 0 {
        r matches Err(TransactionError::InsufficientFunds { required, available })
            && required == needed && available == total(inputs)
    } else if !change_ok {
        r matches Err(TransactionError::ChangeValue(c)) && c == change
    } else {
        r matches Ok(tx) && {
            &&& tx.inputs@ == inputs
            &&& tx.fee == ctx.fee
            &&& tx.height == ctx.current_height
            &&& tx.outputs@.len() == if change > 0 { 2int } else { 1int }
            &&& tx.outputs@[0].value == value
            &&& tx.outputs@[0].guard matches Guard::Contract(c) && c@ == contract
            &&& tx.outputs@[0].minted_tokens == tokens
            &&& tx.outputs@[0].creation_height == ctx.current_height
            &&& change > 0 ==> {
                &&& tx.outputs@[1].value == change
                &&& tx.outputs@[1].guard matches Guard::Address(a) && a@ == ctx.change_address@
                &&& tx.outputs@[1].minted_tokens is None
                &&& tx.outputs@[1].creation_height == ctx.current_height
            }
        }
    }
}

/// Sums the values of `bs`.
fn sum_values(bs: &Vec<FundingBox>) -> (r: u128)
    ensures
        r == total(bs@),
{
    let mut sum: u128 = 0;
    let mut k: usize = 0;
    assert(bs@.take(0) =~= Seq::<FundingBox>::empty());
    while k < bs.len()
        invariant
            k <= bs@.len(),
            sum == total(bs@.take(k as int)),
            sum <= k * u64::MAX,
        decreases bs.len() - k,
    {
        assert(bs@.take(k + 1).drop_last() =~= bs@.take(k as int));
        proof {
            assert(k < usize::MAX);
            assert((k + 1) * u64::MAX == k * u64::MAX + u64::MAX) by (nonlinear_arith);
            assert((k + 1) * u64::MAX <= u128::MAX) by (nonlinear_arith)
                requires k + 1 <= usize::MAX;
        }
        sum = sum + bs[k].value as u128;
        k = k + 1;
    }
    assert(bs@.take(k as int) =~= bs@);
    sum
}

fn assemble(
    value: u64,
    tokens: Option<u64>,
    contract: CompiledContract,
    selection: BoxSelection,
    ctx: &TxContext,
) -> (r: Result<UnsignedTransaction, TransactionError>)
    ensures
        assembled(value, tokens, contract@, selection.boxes@, *ctx, r),
{
    if !box_value_in_bounds(value) {
        return Err(TransactionError::BoxValue(value));
    }
    if let Some(t) = tokens {
        if !token_amount_in_bounds(t) {
            return Err(TransactionError::TokenValue(t));
        }
    }
    if !address_decodes(ctx.change_address.as_str()) {
        return Err(TransactionError::Address(ctx.change_address.clone()));
    }
    let available = sum_values(&selection.boxes);
    let needed = value as u128 + ctx.fee as u128;
    if available < needed {
        return Err(TransactionError::InsufficientFunds { required: needed, available });
    }
    let change = available - needed;
    if change > 0 && !(change <= MAX_BOX_VALUE as u128 && box_value_in_bounds(change as u64)) {
        return Err(TransactionError::ChangeValue(change));
    }
    let height = ctx.current_height;
    let mut outputs: Vec<OutputBox> = Vec::new();
    outputs.push(
        OutputBox {
            value,
            guard: Guard::Contract(contract),
            minted_tokens: tokens,
            creation_height: height,
        },
    );
    if change > 0 {
        outputs.push(
            OutputBox {
                value: change as u64,
                guard: Guard::Address(ctx.change_address.clone()),
                minted_tokens: None,
                creation_height: height,
            },
        );
    }
    Ok(UnsignedTransaction { inputs: selection.boxes, outputs, fee: ctx.fee, height })
}

/// Builds the transaction that locks `request.amount` in a new box guarded by
/// the reserve contract, returning the rest above the fee as change.
pub fn build_reserve(
    request: &MintReserveRequest,
    reserve_contract: CompiledContract,
    selection: BoxSelection,
    ctx: &TxContext,
) -> (r: Result<UnsignedTransaction, TransactionError>)
    ensures
        assembled(request.amount, None, reserve_contract@, selection.boxes@, *ctx, r),
{
    assemble(request.amount, None, reserve_contract, selection, ctx)
}

/// Value of a new note box: the recommended smallest box value, since the
/// collateral stays in the reserve.
pub fn note_box_value() -> (r: u64)
    ensures
        r == 1000000,
{
    safe_user_min()
}

/// Builds the transaction that mints `request.amount` note tokens into a new
/// box guarded by the note contract, returning the rest above the fee as change.
pub fn build_note(
    request: &MintNoteRequest,
    note_contract: CompiledContract,
    selection: BoxSelection,
    ctx: &TxContext,
) -> (r: Result<UnsignedTransaction, TransactionError>)
    ensures
        assembled(1000000, Some(request.amount), note_contract@, selection.boxes@, *ctx, r),
{
    assemble(note_box_value(), Some(request.amount), note_contract, selection, ctx)
}

/// A built transaction neither creates nor destroys value: its inputs carry
/// exactly what its outputs and its fee carry.
pub proof fn lemma_value_conserved(
    value: u64,
    tokens: Option<u64>,
    contract: Seq<u8>,
    inputs: Seq<FundingBox>,
    ctx: TxContext,
    r: Result<UnsignedTransaction, TransactionError>,
)
    requires
        assembled(value, tokens, contract, inputs, ctx, r),
        r is Ok,
    ensures
        r matches Ok(tx) && total(tx.inputs@) == outputs_total(tx.outputs@) + tx.fee,
{
    let tx = r->Ok_0;
    let os = tx.outputs@;
    let first = os.drop_last();
    assert(first.len() == 0 ==> outputs_total(first) == 0);
    if os.len() == 2 {
        assert(first.drop_last().len() == 0);
        assert(outputs_total(first) == outputs_total(first.drop_last()) + os[0].value);
    }
}

} // verus!
