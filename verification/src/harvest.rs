//! The harvesting decisions above one image: which listing passes a board
//! runs and in which order, and how the results of spawned image tasks are
//! aggregated into a per-board outcome. Running the passes concurrently and
//! joining the tasks is the caller's business; the decisions live here.

use vstd::prelude::*;

verus! {

/// One of the two listing sorts a board is harvested under.
#[derive(Clone, Copy, Debug, PartialEq, Eq, Structural)]
pub enum SortMode {
    Hot,
    New,
}

impl SortMode {
    /// The file name of this sort's listing endpoint.
    pub open spec fn endpoint_spec(&self) -> Seq<char> {
        match self {
            SortMode::Hot => "hot.json"@,
            SortMode::New => "new.json"@,
        }
    }

    /// The file name of this sort's listing endpoint.
    pub fn endpoint(&self) -> (r: &'static str)
        ensures
            r@ == self.endpoint_spec(),
    {
        match self {
            SortMode::Hot => "hot.json",
            SortMode::New => "new.json",
        }
    }
}

/// The order in which one board's listing passes run: Hot strictly before
/// New.
pub fn pass_order() -> (r: Vec<SortMode>)
    ensures
        r@ == seq![SortMode::Hot, SortMode::New],
{
    let r = vec![SortMode::Hot, SortMode::New];
    proof {
        assert(r@ =~= seq![SortMode::Hot, SortMode::New]);
    }
    r
}

/// The outcome of harvesting one board.
pub struct HarvestOutcome {
    pub board: String,
    pub ok: bool,
}

/// Whether every spawned task of a pass reported success.
pub fn all_ok(results: &Vec<bool>) -> (r: bool)
    ensures
        r == forall|i: int| 0 <= i < results@.len() ==> results@[i],
{
    let n = results.len();
    let mut i: usize = 0;
    while i < n
        invariant
            n == results@.len(),
            i <= n,
            forall|j: int| 0 <= j < i ==> results@[j],
        decreases n - i,
    {
        if !results[i] {
            return false;
        }
        i = i + 1;
    }
    true
}

/// The outcome of one board: success only when both listing passes
/// succeeded.
pub fn board_outcome(board: String, hot_ok: bool, new_ok: bool) -> (r: HarvestOutcome)
    ensures
        r.board == board,
        r.ok == (hot_ok && new_ok),
{
    HarvestOutcome { board, ok: hot_ok && new_ok }
}

} // verus!
