use vstd::prelude::*;

verus! {

/// What came of one request for a full block.
#[derive(Clone, Copy, PartialEq, Eq, Structural, Debug)]
pub enum BlockFetch {
    /// The node returned the block.
    Found,
    /// The node does not have the block yet.
    Missing,
    /// The request failed.
    Failed,
}

/// What a block collector does after a request.
#[derive(Clone, Copy, PartialEq, Eq, Structural, Debug)]
pub enum FetchMove {
    /// Hand the block on.
    Yield,
    /// Wait the retry interval and ask again; `quiet` says that the miss is
    /// reported as a warning rather than an error.
    Retry { quiet: bool },
    /// Give up on this block and go on with the next header.
    Skip,
}

/// The move after `fetch`, given the count of misses so far in this stream,
/// and the new count. One miss in five is reported as a warning.
pub fn next_fetch_move(fetch: BlockFetch, misses: u64) -> (r: (FetchMove, u64))
    ensures
        fetch == BlockFetch::Found ==> r == (FetchMove::Yield, misses),
        fetch == BlockFetch::Failed ==> r == (FetchMove::Skip, misses),
        fetch == BlockFetch::Missing ==> r == (
            FetchMove::Retry { quiet: misses % 5 == 0 },
            if misses < u64::MAX { (misses + 1) as u64 } else { misses },
        ),
{
    match fetch {
        BlockFetch::Found => (FetchMove::Yield, misses),
        BlockFetch::Failed => (FetchMove::Skip, misses),
        BlockFetch::Missing => {
            let quiet = misses % 5 == 0;
            (FetchMove::Retry { quiet }, misses.saturating_add(1))
        },
    }
}

} // verus!
