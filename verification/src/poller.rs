//! The session lifecycle state machine driving the poll loop.
//!
//! Each cycle, the runtime layer fetches a snapshot (or fails to) and hands
//! the outcome to [`poller_step`], which decides what the cycle emits and how
//! the retained baseline and the lifecycle state change. The loop around it
//! performs the fetching, the publishing and the sleeping.

use vstd::prelude::*;

use crate::data::{wf_snapshot, PlayerInfo, PlayerInfoV, PlayerState, Snapshot};
use crate::diff::{diff, diff_entries, PurchaseEntry};
use crate::error::PlayerPurchasesError;
use crate::gold::{build_gold_info, gold_entries, GoldEntry};

verus! {

/// Where the poller stands in the session lifecycle.
#[derive(Clone, Copy, Debug, PartialEq, Eq, Structural)]
pub enum SessionState {
    /// No session has been seen yet.
    Idle,
    /// A session is running and a baseline snapshot is retained.
    SessionActive,
    /// A session was running and was lost; the baseline is cleared.
    SessionEnded,
}

/// The poller's whole mutable state: the lifecycle stage and the baseline
/// snapshot retained for the next comparison (history depth one).
#[derive(Debug)]
pub struct PollerState {
    pub session: SessionState,
    pub baseline: Option<Snapshot>,
}

/// A baseline is retained exactly while a session is active, and it is a
/// well-formed snapshot.
pub open spec fn wf_poller(s: PollerState) -> bool {
    &&& (s.baseline is Some <==> s.session is SessionActive)
    &&& match s.baseline {
        Some(b) => wf_snapshot(b),
        None => true,
    }
}

/// What one poll cycle tells the runtime layer to do.
pub struct CycleActions {
    /// Emit the single `GameStart` marker: the lifecycle just moved from "no
    /// session" to "session active".
    pub emit_game_start: bool,
    /// Publish this cycle's events: present exactly when some participant
    /// has new items.
    pub batch: Option<PublishBatch>,
    /// Sleep for the longer failure interval instead of the steady-state one.
    pub backoff: bool,
}

/// The events of one cycle with purchase activity, to publish in this order:
/// roster first, then the purchase batch, then the gold totals.
pub struct PublishBatch {
    pub roster: Vec<PlayerInfo>,
    pub purchases: Vec<PurchaseEntry>,
    pub gold: Vec<GoldEntry>,
}

/// The roster entries of a participant list, one per participant in order.
pub open spec fn roster_entries(players: Seq<PlayerState>) -> Seq<PlayerInfoV> {
    players.map_values(
        |p: PlayerState|
            PlayerInfoV {
                champion_name: p.champion_name@,
                summoner_name: p.summoner_name@,
                skin_id: p.skin_id,
            },
    )
}

/// The `PlayerInfo` payload of a snapshot: every participant's champion,
/// name and skin selection.
pub fn build_roster(players: &Vec<PlayerState>) -> (r: Vec<PlayerInfo>)
    ensures
        r@.map_values(|e: PlayerInfo| e@) == roster_entries(players@),
{
    let mut r: Vec<PlayerInfo> = Vec::new();
    let mut i: usize = 0;
    while i < players.len()
        invariant
            i <= players@.len(),
            r@.map_values(|e: PlayerInfo| e@) == roster_entries(players@.take(i as int)),
        decreases players@.len() - i,
    {
        let p = &players[i];
        let entry = PlayerInfo {
            champion_name: p.champion_name.clone(),
            summoner_name: p.summoner_name.clone(),
            skin_id: p.skin_id,
        };
        let ghost before = r@.map_values(|e: PlayerInfo| e@);
        r.push(entry);
        proof {
            let ghost pushed = PlayerInfoV {
                champion_name: players@[i as int].champion_name@,
                summoner_name: players@[i as int].summoner_name@,
                skin_id: players@[i as int].skin_id,
            };
            assert(r@.map_values(|e: PlayerInfo| e@) =~= before.push(pushed));
            assert(roster_entries(players@.take(i + 1)) =~= roster_entries(
                players@.take(i as int),
            ).push(pushed));
        }
        i = i + 1;
    }
    proof {
        assert(players@.take(players@.len() as int) =~= players@);
    }
    r
}

/// One turn of the poll loop.
///
/// On a successful fetch while no session is active, the session becomes
/// active, `GameStart` is to be emitted exactly once for this transition,
/// and the snapshot only establishes the baseline. On a successful fetch
/// while the session is active, the diff against the retained baseline
/// decides whether a batch is published, and the baseline is replaced either
/// way. On a failed fetch the session ends, the baseline is cleared, and the
/// loop backs off; the next success re-emits `GameStart`.
pub fn poller_step(state: &mut PollerState, outcome: Result<Snapshot, PlayerPurchasesError>) -> (r:
    CycleActions)
    requires
        wf_poller(*old(state)),
        match outcome {
            Ok(snap) => wf_snapshot(snap),
            Err(_) => true,
        },
    ensures
        wf_poller(*final(state)),
        match outcome {
            Err(_) => {
                &&& final(state).session is SessionEnded
                &&& final(state).baseline is None
                &&& r.backoff
                &&& !r.emit_game_start
                &&& r.batch is None
            },
            Ok(snap) => {
                &&& final(state).session is SessionActive
                &&& final(state).baseline == Some(snap)
                &&& !r.backoff
                &&& if old(state).session is SessionActive {
                    &&& !r.emit_game_start
                    &&& {
                        let changes = diff_entries(
                            old(state).baseline->Some_0.players@,
                            snap.players@,
                        );
                        match r.batch {
                            None => changes.len() == 0,
                            Some(b) => {
                                &&& changes.len() > 0
                                &&& b.purchases@.map_values(|e: PurchaseEntry| e@) == changes
                                &&& b.roster@.map_values(|e: PlayerInfo| e@) == roster_entries(
                                    snap.players@,
                                )
                                &&& b.gold@.map_values(|e: GoldEntry| e@) == gold_entries(
                                    snap.players@,
                                )
                            },
                        }
                    }
                } else {
                    &&& r.emit_game_start
                    &&& r.batch is None
                }
            },
        },
{
    match outcome {
        Err(_) => {
            state.session = SessionState::SessionEnded;
            state.baseline = None;
            CycleActions { emit_game_start: false, batch: None, backoff: true }
        },
        Ok(snap) => {
            match state.session {
                SessionState::SessionActive => {
                    let purchases = diff(&state.baseline, &snap);
                    let batch = if purchases.len() > 0 {
                        let roster = build_roster(&snap.players);
                        let gold = build_gold_info(&snap.players);
                        Some(PublishBatch { roster, purchases, gold })
                    } else {
                        None
                    };
                    state.baseline = Some(snap);
                    CycleActions { emit_game_start: false, batch, backoff: false }
                },
                _ => {
                    state.session = SessionState::SessionActive;
                    state.baseline = Some(snap);
                    CycleActions { emit_game_start: true, batch: None, backoff: false }
                },
            }
        },
    }
}

} // verus!
