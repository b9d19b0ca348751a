use vstd::prelude::*;

verus! {

/// The configuration snapshot read at the start of every core operation: the
/// destination chain this deployment settles, and the administrative pause
/// flags. Administration mutates it; the core only reads it.
pub struct State {
    pub chain_id: u64,
    pub paused_fills: bool,
    pub paused_deposits: bool,
}

impl State {
    /// A fresh configuration for one destination chain, with nothing paused.
    pub fn new(chain_id: u64) -> (r: State)
        ensures
            r.chain_id == chain_id,
            !r.paused_fills,
            !r.paused_deposits,
    {
        State { chain_id, paused_fills: false, paused_deposits: false }
    }
}

/// Administration: enables or disables fills.
pub fn pause_fills(state: &mut State, pause: bool)
    ensures
        final(state).paused_fills == pause,
        final(state).chain_id == old(state).chain_id,
        final(state).paused_deposits == old(state).paused_deposits,
{
    state.paused_fills = pause;
}

/// Administration: enables or disables deposit intake. The deposit path itself
/// lives outside the core; the flag is kept here with its sibling.
pub fn pause_deposits(state: &mut State, pause: bool)
    ensures
        final(state).paused_deposits == pause,
        final(state).chain_id == old(state).chain_id,
        final(state).paused_fills == old(state).paused_fills,
{
    state.paused_deposits = pause;
}

} // verus!
