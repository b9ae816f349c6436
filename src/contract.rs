use vstd::prelude::*;
use vstd::slice::slice_subrange;

use crate::error::TransactionError;
use crate::template::{Binding, lookup, mentions, pairs, render, substitute};

verus! {

/// The Blake2b-256 digest of a byte string.
pub uninterp spec fn blake2b256_of(bytes: Seq<u8>) -> Seq<u8>;

/// The Base58 text (Bitcoin alphabet) of a byte string.
pub uninterp spec fn base58_of(bytes: Seq<u8>) -> Seq<char>;

/// Relies on `ergo_chain_types::blake2b256_hash`: the 32-byte Blake2b-256
/// digest of its input, which depends on the bytes alone.
#[verifier::external_body]
fn blake2b256(bytes: &[u8]) -> (r: Vec<u8>)
    ensures
        r@ == blake2b256_of(bytes@),
        r@.len() == 32,
{
    ergo_lib::ergo_chain_types::blake2b256_hash(bytes).0.to_vec()
}

/// Relies on `bs58::encode(..).into_string()`: the Base58 text of its input,
/// which depends on the bytes alone.
#[verifier::external_body]
fn base58(bytes: &[u8]) -> (r: String)
    ensures
        r@ == base58_of(bytes@),
{
    bs58::encode(bytes).into_string()
}

/// An executable contract: its canonical serialized tree, whose first byte is
/// the format header.
pub struct CompiledContract {
    bytes: Vec<u8>,
}

impl View for CompiledContract {
    type V = Seq<u8>;

    closed spec fn view(&self) -> Seq<u8> {
        self.bytes@
    }
}

impl CompiledContract {
    #[verifier::type_invariant]
    spec fn inv(self) -> bool {
        self.bytes@.len() >= 1
    }

    /// Wraps a serialized tree; `None` when there are no bytes, not even a header.
    pub fn from_serialized(bytes: Vec<u8>) -> (r: Option<CompiledContract>)
        ensures
            r is Some <==> bytes@.len() >= 1,
            r matches Some(c) ==> c@ == bytes@,
    {
        if bytes.len() >= 1 {
            Some(CompiledContract { bytes })
        } else {
            None
        }
    }

    /// The serialized tree.
    pub fn as_bytes(&self) -> (r: &[u8])
        ensures
            r@ == self@,
    {
        self.bytes.as_slice()
    }
}

/// The reference of a contract with serialized tree `tree`: the Base58 text of
/// the digest of the tree without its header byte.
pub open spec fn reference_of(tree: Seq<u8>) -> Seq<char> {
    base58_of(blake2b256_of(tree.drop_first()))
}

/// A content hash that lets one contract name another.
pub struct ContractReference {
    text: String,
}

impl View for ContractReference {
    type V = Seq<char>;

    closed spec fn view(&self) -> Seq<char> {
        self.text@
    }
}

impl ContractReference {
    /// The reference as text.
    pub fn as_str(&self) -> (r: &str)
        ensures
            r@ == self@,
    {
        self.text.as_str()
    }
}

/// The reference that other templates embed to name `compiled`.
pub fn address_of(compiled: &CompiledContract) -> (r: ContractReference)
    ensures
        r@ == reference_of(compiled@),
{
    proof {
        use_type_invariant(compiled);
    }
    let body = slice_subrange(compiled.bytes.as_slice(), 1, compiled.bytes.len());
    assert(body@ == compiled@.drop_first());
    let digest = blake2b256(body);
    ContractReference { text: base58(digest.as_slice()) }
}

/// Byte-identical contracts have the same reference.
pub proof fn lemma_address_deterministic(a: CompiledContract, b: CompiledContract)
    requires
        a@ == b@,
    ensures
        reference_of(a@) == reference_of(b@),
{
}

/// The placeholder through which a template names the reserve contract.
pub const RESERVE_HASH_SLOT: &'static str = "reserveContractHash";

/// The placeholder through which a template names the receipt contract.
pub const RECEIPT_HASH_SLOT: &'static str = "receiptContractHash";

/// `template` rendered with `bindings`, or the name of a placeholder left unbound.
pub open spec fn rendered_as(
    template: Seq<char>,
    bindings: Seq<(Seq<char>, Seq<char>)>,
    r: Result<String, TransactionError>,
) -> bool {
    &&& r is Ok <==> render(template, bindings) is Some
    &&& r matches Ok(s) ==> render(template, bindings) == Some(s@)
    &&& r is Err ==> (r matches Err(TransactionError::MissingBinding(name)) && mentions(
        template,
        name@,
    ) && lookup(bindings, name@) is None)
}

/// The bindings of the receipt template.
pub open spec fn receipt_bindings(reserve: Seq<char>) -> Seq<(Seq<char>, Seq<char>)> {
    seq![(RESERVE_HASH_SLOT@, reserve)]
}

/// The bindings of the note template.
pub open spec fn note_bindings(reserve: Seq<char>, receipt: Seq<char>) -> Seq<(Seq<char>, Seq<char>)> {
    seq![(RESERVE_HASH_SLOT@, reserve), (RECEIPT_HASH_SLOT@, receipt)]
}

fn render_source(template: &String, bindings: &Vec<Binding>) -> (r: Result<String, TransactionError>)
    ensures
        rendered_as(template@, pairs(bindings@), r),
{
    match substitute(template.as_str(), bindings) {
        Ok(s) => Ok(s),
        Err(name) => Err(TransactionError::MissingBinding(name)),
    }
}

/// The source texts of the three contracts, loaded once.
pub struct ContractTemplates {
    pub reserve: String,
    pub receipt: String,
    pub note: String,
}

impl ContractTemplates {
    /// The template that `kind` names, if any.
    pub open spec fn template_of(&self, kind: Seq<char>) -> Option<Seq<char>> {
        if kind == "reserve"@ {
            Some(self.reserve@)
        } else if kind == "receipt"@ {
            Some(self.receipt@)
        } else if kind == "note"@ {
            Some(self.note@)
        } else {
            None
        }
    }

    /// The template of kind `reserve`, `receipt` or `note`.
    pub fn template(&self, kind: &str) -> (r: Result<&String, TransactionError>)
        ensures
            r is Ok <==> self.template_of(kind@) is Some,
            r matches Ok(t) ==> self.template_of(kind@) == Some(t@),
            r is Err ==> (r matches Err(TransactionError::TemplateNotFound(k)) && k@ == kind@),
    {
        let k = kind.to_string();
        proof {
            reveal_strlit("reserve");
            reveal_strlit("receipt");
            reveal_strlit("note");
        }
        if k == "reserve".to_string() {
            Ok(&self.reserve)
        } else if k == "receipt".to_string() {
            Ok(&self.receipt)
        } else if k == "note".to_string() {
            Ok(&self.note)
        } else {
            Err(TransactionError::TemplateNotFound(k))
        }
    }

    /// The reserve contract's source: its template takes no binding.
    pub fn reserve_source(&self) -> (r: Result<String, TransactionError>)
        ensures
            rendered_as(self.reserve@, seq![], r),
    {
        let bindings: Vec<Binding> = Vec::new();
        proof {
            assert(pairs(bindings@) =~= seq![]);
        }
        render_source(&self.reserve, &bindings)
    }

    /// The receipt contract's source, naming the reserve contract by `reserve`.
    pub fn receipt_source(&self, reserve: &ContractReference) -> (r: Result<String, TransactionError>)
        ensures
            rendered_as(self.receipt@, receipt_bindings(reserve@), r),
    {
        let mut bindings: Vec<Binding> = Vec::new();
        bindings.push(Binding { name: RESERVE_HASH_SLOT.to_string(), value: reserve.as_str().to_string() });
        proof {
            assert(pairs(bindings@) =~= receipt_bindings(reserve@));
        }
        render_source(&self.receipt, &bindings)
    }

    /// The note contract's source, naming the reserve contract by `reserve` and
    /// the receipt contract by `receipt`.
    pub fn note_source(&self, reserve: &ContractReference, receipt: &ContractReference) -> (r: Result<
        String,
        TransactionError,
    >)
        ensures
            rendered_as(self.note@, note_bindings(reserve@, receipt@), r),
    {
        let mut bindings: Vec<Binding> = Vec::new();
        bindings.push(Binding { name: RESERVE_HASH_SLOT.to_string(), value: reserve.as_str().to_string() });
        bindings.push(Binding { name: RECEIPT_HASH_SLOT.to_string(), value: receipt.as_str().to_string() });
        proof {
            assert(pairs(bindings@) =~= note_bindings(reserve@, receipt@));
        }
        render_source(&self.note, &bindings)
    }
}

} // verus!
