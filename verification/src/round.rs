use vstd::prelude::*;

verus! {

/// Base target of the genesis block; the network difficulty shown at a
/// round change is derived from it.
pub const GENESIS_BASE_TARGET: u64 = 4_398_046_511_104;

/// Seconds the network aims for between blocks; fixed by the chain.
pub const BLOCK_TIME_SECONDS: u64 = 240;

/// Parameters of one mining round, handed to the hashing backend when a
/// round change is detected. Immutable once constructed; each value stands
/// for exactly one round and supersedes all earlier ones.
pub struct RoundInfo {
    /// The round's generation signature, decoded to bytes.
    pub gensig: Vec<u8>,
    pub base_target: u64,
    /// Index of the portion of stored capacity data to search, derived from
    /// the height and the decoded signature.
    pub scoop: u64,
    pub height: u64,
}

impl RoundInfo {
    /// Packs the decoded signature and the round parameters for dispatch.
    pub fn new(gensig: Vec<u8>, base_target: u64, scoop: u64, height: u64) -> (r: RoundInfo)
        ensures
            r.gensig@ == gensig@,
            r.base_target == base_target,
            r.scoop == scoop,
            r.height == height,
    {
        RoundInfo { gensig, base_target, scoop, height }
    }
}

/// The timeout budget for one round-info fetch, in milliseconds: a margin
/// of 200 ms below the poll interval — the interval counting at least as
/// 500 ms — and never above the configured request timeout.
pub open spec fn spec_fetch_timeout(request_timeout: int, poll_interval: int) -> int {
    let margin = if poll_interval >= 500 {
        poll_interval - 200
    } else {
        300
    };
    if request_timeout <= margin {
        request_timeout
    } else {
        margin
    }
}

/// Computes the fetch timeout so that a hung poll gives up safely before
/// the next tick is due.
pub fn fetch_timeout_millis(request_timeout: u64, poll_interval: u64) -> (t: u64)
    ensures
        t == spec_fetch_timeout(request_timeout as int, poll_interval as int),
{
    let floor: u64 = if poll_interval >= 500 {
        poll_interval
    } else {
        500
    };
    let margin: u64 = floor - 200;
    if request_timeout <= margin {
        request_timeout
    } else {
        margin
    }
}

/// The network difficulty reported when a new round begins: the genesis
/// base target per block-time second, divided by the round's base target.
pub fn network_difficulty(base_target: u64) -> (d: u64)
    requires
        base_target >= 1,
    ensures
        d == GENESIS_BASE_TARGET / BLOCK_TIME_SECONDS / base_target,
{
    GENESIS_BASE_TARGET / BLOCK_TIME_SECONDS / base_target
}

} // verus!
