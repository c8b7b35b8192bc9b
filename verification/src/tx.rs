use vstd::prelude::*;

verus! {

/// Length in bytes of a destination account identifier.
pub const ACCOUNT_ID_LEN: usize = 32;

/// A transfer-call description is well formed exactly when its destination
/// is a full-length account identifier.
pub open spec fn valid_dest(dest: Seq<u8>) -> bool {
    dest.len() == ACCOUNT_ID_LEN
}

/// A transaction bound to exactly one nonce at creation time.
///
/// Once built it is never re-signed: if its nonce turns out to be stale
/// relative to the chain, the transaction is discarded, not retried.
#[derive(Clone, Debug)]
pub struct SignedTx {
    /// Destination account identifier, `ACCOUNT_ID_LEN` bytes.
    pub dest: Vec<u8>,
    /// Amount transferred.
    pub amount: u64,
    /// The sequence number this transaction was signed under.
    pub nonce: u64,
}

/// A local, non-retryable failure while describing the transfer call: the
/// run aborts, since it indicates a configuration error rather than a
/// transient network condition.
#[derive(Clone, Copy, Debug, PartialEq, Eq, Structural)]
pub enum ConstructionError {
    /// The destination is not a full-length account identifier.
    MalformedDestination,
}

/// Builds the transaction for one transfer at one nonce.
///
/// Fails exactly when the destination is malformed; on success the result
/// carries the arguments unchanged.
pub fn build(dest: &Vec<u8>, amount: u64, nonce: u64) -> (r: Result<
    SignedTx,
    ConstructionError,
>)
    ensures
        r is Ok <==> valid_dest(dest@),
        r matches Ok(tx) ==> tx.dest@ == dest@ && tx.amount == amount && tx.nonce == nonce,
        r is Err ==> r == Result::<SignedTx, ConstructionError>::Err(
            ConstructionError::MalformedDestination,
        ),
{
    if dest.len() != ACCOUNT_ID_LEN {
        return Err(ConstructionError::MalformedDestination);
    }
    let mut copy: Vec<u8> = Vec::new();
    let mut i: usize = 0;
    while i < dest.len()
        invariant
            i <= dest.len(),
            copy@ == dest@.take(i as int),
        decreases dest.len() - i,
    {
        copy.push(dest[i]);
        proof {
            assert(copy@ =~= dest@.take(i + 1));
        }
        i = i + 1;
    }
    proof {
        assert(copy@ =~= dest@);
    }
    Ok(SignedTx { dest: copy, amount, nonce })
}

} // verus!
