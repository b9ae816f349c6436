use vstd::prelude::*;

use crate::error::TransactionError;

verus! {

/// A spendable output of the wallet, identified by its box id.
pub struct FundingBox {
    pub box_id: String,
    pub value: u64,
}

/// Sum of the values of `bs`.
pub open spec fn total(bs: Seq<FundingBox>) -> int
    decreases bs.len(),
{
    if bs.len() == 0 {
        0
    } else {
        total(bs.drop_last()) + bs.last().value
    }
}

/// Boxes chosen to fund a transaction, and what is left over above the target.
pub struct BoxSelection {
    pub boxes: Vec<FundingBox>,
    pub change: u64,
}

/// `sel` is the shortest leading run of `candidates` whose total reaches `amount`.
pub open spec fn is_minimal_cover(sel: Seq<FundingBox>, candidates: Seq<FundingBox>, amount: int) -> bool {
    &&& 1 <= sel.len() <= candidates.len()
    &&& sel == candidates.take(sel.len() as int)
    &&& total(sel) >= amount
    &&& total(sel.drop_last()) < amount
}

proof fn lemma_total_prefix_monotone(s: Seq<FundingBox>, i: int, j: int)
    requires
        0 <= i <= j <= s.len(),
    ensures
        total(s.take(i)) <= total(s.take(j)),
    decreases j - i,
{
    if i < j {
        lemma_total_prefix_monotone(s, i, j - 1);
        assert(s.take(j).drop_last() =~= s.take(j - 1));
    }
}

/// Picks candidates in order until their total reaches `amount`. Fails with
/// `InsufficientFunds` exactly when all candidates together fall short.
pub fn select_for(amount: u64, candidates: Vec<FundingBox>) -> (r: Result<BoxSelection, TransactionError>)
    requires
        amount > 0,
    ensures
        r is Ok <==> total(candidates@) >= amount,
        r matches Ok(s) ==> is_minimal_cover(s.boxes@, candidates@, amount as int) && s.change
            == total(s.boxes@) - amount,
        r is Err ==> (r matches Err(TransactionError::InsufficientFunds { required, available })
            && required == amount && available == total(candidates@)),
{
    let mut running: u128 = 0;
    let mut k: usize = 0;
    assert(candidates@.take(0) =~= Seq::<FundingBox>::empty());
    while k < candidates.len() && running < amount as u128
        invariant
            k <= candidates@.len(),
            running == total(candidates@.take(k as int)),
            k > 0 ==> total(candidates@.take(k - 1)) < amount,
            running < amount as u128 || k > 0,
            running <= amount as u128 + u64::MAX as u128,
        decreases candidates.len() - k,
    {
        assert(candidates@.take(k + 1).drop_last() =~= candidates@.take(k as int));
        running = running + candidates[k].value as u128;
        k = k + 1;
    }
    if running < amount as u128 {
        assert(candidates@.take(k as int) =~= candidates@);
        return Err(TransactionError::InsufficientFunds { required: amount as u128, available: running });
    }
    proof {
        assert(candidates@.take(k as int).drop_last() =~= candidates@.take(k - 1));
        lemma_total_prefix_monotone(candidates@, k as int, candidates@.len() as int);
        assert(candidates@.take(candidates@.len() as int) =~= candidates@);
    }
    let mut boxes = candidates;
    boxes.truncate(k);
    assert(boxes@ =~= candidates@.take(k as int));
    Ok(BoxSelection { boxes, change: (running - amount as u128) as u64 })
}

} // verus!
