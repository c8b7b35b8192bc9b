use vstd::prelude::*;

use crate::tx::ConstructionError;
use crate::tx::SignedTx;
use crate::tx::build;
use crate::tx::valid_dest;

verus! {

/// Default size of the remote node's transaction pool.
pub const DEFAULT_POOL_LIMIT: usize = 8192;

/// Default number of pool slots left free for externally originated
/// transactions sharing the same pool.
pub const DEFAULT_HEADROOM: usize = 2;

/// The remote pool-capacity ceiling and the headroom kept under it.
///
/// A batch may hold at most `pool_limit - headroom` transactions.
#[derive(Clone, Copy, Debug, PartialEq, Eq, Structural)]
pub struct PoolConfig {
    /// Capacity ceiling of the remote transaction pool.
    pub pool_limit: usize,
    /// Slots deliberately left unused below the ceiling.
    pub headroom: usize,
}

impl PoolConfig {
    /// The headroom never exceeds the ceiling, so the capacity is defined.
    pub open spec fn wf(&self) -> bool {
        self.headroom <= self.pool_limit
    }

    /// Largest batch this configuration allows.
    pub open spec fn capacity(&self) -> int {
        self.pool_limit - self.headroom
    }

    /// Largest batch this configuration allows.
    pub fn max_batch(&self) -> (r: usize)
        requires
            self.wf(),
        ensures
            r == self.capacity(),
    {
        self.pool_limit - self.headroom
    }
}

impl Default for PoolConfig {
    /// The default ceiling with the default headroom.
    fn default() -> (c: Self)
        ensures
            c == (PoolConfig { pool_limit: DEFAULT_POOL_LIMIT, headroom: DEFAULT_HEADROOM }),
            c.wf(),
    {
        PoolConfig { pool_limit: DEFAULT_POOL_LIMIT, headroom: DEFAULT_HEADROOM }
    }
}

/// Builds an ordered batch of `count` transactions whose nonces form the
/// contiguous run `start, start + 1, ..., start + count - 1`.
///
/// Pure over its inputs: it does not touch the nonce tracker, so a pre-built
/// batch advances the tracker only as submission proceeds. The count must
/// respect the pool-capacity ceiling minus the headroom, and the resulting
/// batch can never exceed that ceiling. Fails exactly when the destination
/// is malformed.
pub fn generate(cfg: &PoolConfig, count: usize, start: u64, dest: &Vec<u8>, amount: u64) -> (r:
    Result<Vec<SignedTx>, ConstructionError>)
    requires
        cfg.wf(),
        count <= cfg.capacity(),
        start + count <= u64::MAX,
    ensures
        r is Ok <==> valid_dest(dest@),
        r matches Ok(batch) ==> {
            &&& batch@.len() == count
            &&& batch@.len() <= cfg.capacity()
            &&& forall|i: int|
                0 <= i < count ==> {
                    &&& (#[trigger] batch@[i]).nonce == start + i
                    &&& batch@[i].amount == amount
                    &&& batch@[i].dest@ == dest@
                }
            &&& forall|i: int, j: int|
                0 <= i < j < count ==> #[trigger] batch@[i].nonce != #[trigger] batch@[j].nonce
        },
        r is Err ==> r == Result::<Vec<SignedTx>, ConstructionError>::Err(
            ConstructionError::MalformedDestination,
        ),
{
    if dest.len() != crate::tx::ACCOUNT_ID_LEN {
        return Err(ConstructionError::MalformedDestination);
    }
    let mut out: Vec<SignedTx> = Vec::new();
    let mut i: usize = 0;
    while i < count
        invariant
            i <= count,
            count <= cfg.capacity(),
            start + count <= u64::MAX,
            out@.len() == i,
            valid_dest(dest@),
            forall|j: int|
                0 <= j < i ==> {
                    &&& (#[trigger] out@[j]).nonce == start + j
                    &&& out@[j].amount == amount
                    &&& out@[j].dest@ == dest@
                },
        decreases count - i,
    {
        match build(dest, amount, start + (i as u64)) {
            Ok(tx) => {
                out.push(tx);
            },
            Err(e) => {
                return Err(e);
            },
        }
        i = i + 1;
    }
    Ok(out)
}

} // verus!
