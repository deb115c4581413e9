//! Frame-level guarantees of the hot/active resolution rule.
//!
//! A frame is `update_input`, then `prepare`, then any sequence of widget
//! claims, then `finish`. Every widget call touches the interaction state
//! only through [`crate::state::UiState::try_claim`], so a frame's effect on
//! that state is fully described by [`run_frame`], whatever widgets the
//! caller mixes; the lemmas here state what that effect guarantees.

use vstd::prelude::*;

use crate::input::InputSnapshot;
use crate::state::pointer_in;
use crate::state::spec_claim;
use crate::state::spec_finish;
use crate::state::spec_prepare;
use crate::state::spec_region_hit;
use crate::state::spec_update_input;
use crate::state::UiState;

verus! {

/// A rectangular widget region, as the hit test sees it: the half-open
/// rectangle `[x, x+w) x [y, y+h)`.
pub struct Region {
    /// Left edge.
    pub x: int,
    /// Top edge.
    pub y: int,
    /// Width.
    pub w: int,
    /// Height.
    pub h: int,
}

/// One widget's claim within a frame: its identity and the region it
/// hit-tests.
pub struct ClaimReq {
    /// The widget's identity.
    pub id: i32,
    /// The region the widget hit-tests.
    pub region: Region,
}

/// Whether the point `(px, py)` lies in `r`.
pub open spec fn point_in_region(px: int, py: int, r: Region) -> bool {
    spec_region_hit(px, py, r.x, r.y, r.w, r.h)
}

/// Whether `s`'s pointer lies in `r`.
pub open spec fn pointer_in_region(s: UiState, r: Region) -> bool {
    pointer_in(s, r.x, r.y, r.w, r.h)
}

/// Whether two regions share no point at all.
pub open spec fn regions_disjoint(a: Region, b: Region) -> bool {
    forall|px: int, py: int| !(point_in_region(px, py, a) && point_in_region(px, py, b))
}

/// The state after one widget's claim.
pub open spec fn claim_in(s: UiState, id: i32, r: Region) -> UiState {
    spec_claim(s, id, r.x, r.y, r.w, r.h)
}

/// The state after a frame's widget claims run in order.
pub open spec fn run_claims(s: UiState, reqs: Seq<ClaimReq>) -> UiState
    decreases reqs.len(),
{
    if reqs.len() == 0 {
        s
    } else {
        run_claims(claim_in(s, reqs[0].id, reqs[0].region), reqs.drop_first())
    }
}

/// The state after one whole frame: the new input snapshot is stored, the
/// hot item cleared, the widget claims run in order, and the frame finished.
pub open spec fn run_frame(s: UiState, snap: InputSnapshot, reqs: Seq<ClaimReq>) -> UiState {
    spec_finish(run_claims(spec_prepare(spec_update_input(s, snap)), reqs))
}

/// With disjoint regions and distinct identities, at most one of two widgets
/// tested in the same frame reports hot: each widget's report is whether it
/// holds the hot item right after its own claim, and the pointer can sit in
/// at most one of the two regions.
pub proof fn lemma_at_most_one_hot(s: UiState, ida: i32, a: Region, idb: i32, b: Region)
    requires
        regions_disjoint(a, b),
        ida != idb,
        s.hot_item is None,
    ensures
        ({
            let s1 = claim_in(s, ida, a);
            let s2 = claim_in(s1, idb, b);
            !(s1.hot_item == Some(ida) && s2.hot_item == Some(idb))
        }),
{
    assert(!(point_in_region(s.input.x as int, s.input.y as int, a) && point_in_region(
        s.input.x as int,
        s.input.y as int,
        b,
    )));
}

/// When the pointer sits in the overlap of two regions tested in order `a`
/// then `b`, the hot item ends up at `b`'s identity: the widget tested later
/// in the frame wins, which is what makes call order the stacking order.
pub proof fn lemma_overlap_last_tested_wins(s: UiState, ida: i32, a: Region, idb: i32, b: Region)
    requires
        pointer_in_region(s, a),
        pointer_in_region(s, b),
    ensures
        claim_in(claim_in(s, ida, a), idb, b).hot_item == Some(idb),
{
}

/// Claims never touch the stored input snapshot.
pub proof fn lemma_claims_preserve_input(s: UiState, reqs: Seq<ClaimReq>)
    ensures
        run_claims(s, reqs).input == s.input,
    decreases reqs.len(),
{
    if reqs.len() > 0 {
        lemma_claims_preserve_input(claim_in(s, reqs[0].id, reqs[0].region), reqs.drop_first());
    }
}

/// An active widget stays active through every claim of a frame, wherever
/// the pointer sits: a claim only grabs the active item when it is unset.
pub proof fn lemma_claims_preserve_active(s: UiState, id: i32, reqs: Seq<ClaimReq>)
    requires
        s.active_item == Some(id),
    ensures
        run_claims(s, reqs).active_item == Some(id),
    decreases reqs.len(),
{
    if reqs.len() > 0 {
        lemma_claims_preserve_active(claim_in(s, reqs[0].id, reqs[0].region), id, reqs.drop_first());
    }
}

/// Once a widget is active, it remains active across a whole further frame
/// — whatever widgets the frame tests and wherever the pointer has moved —
/// as long as the pointer button is still down in that frame's snapshot.
pub proof fn lemma_active_persists_across_frame(s: UiState, id: i32, snap: InputSnapshot, reqs: Seq<ClaimReq>)
    requires
        s.active_item == Some(id),
        snap.down,
    ensures
        run_frame(s, snap, reqs).active_item == Some(id),
{
    lemma_claims_preserve_input(spec_prepare(spec_update_input(s, snap)), reqs);
    lemma_claims_preserve_active(spec_prepare(spec_update_input(s, snap)), id, reqs);
}

/// After a frame whose snapshot has the pointer button up, the active item
/// is unset, whatever it was before and whatever the frame's widgets did.
pub proof fn lemma_release_clears_active(s: UiState, snap: InputSnapshot, reqs: Seq<ClaimReq>)
    requires
        !snap.down,
    ensures
        run_frame(s, snap, reqs).active_item is None,
{
    lemma_claims_preserve_input(spec_prepare(spec_update_input(s, snap)), reqs);
}

/// Clearing the hot item is idempotent: a second `prepare` with no widget
/// calls in between changes nothing.
pub proof fn lemma_prepare_idempotent(s: UiState)
    ensures
        spec_prepare(spec_prepare(s)) == spec_prepare(s),
{
}

/// A widget becomes both hot and active the moment its region is claimed
/// with the pointer inside, the button down, and nothing active yet — even
/// in the same frame it first becomes hot.
pub proof fn lemma_claim_grabs_when_free(s: UiState, id: i32, r: Region)
    requires
        pointer_in_region(s, r),
        s.input.down,
        s.active_item is None,
    ensures
        claim_in(s, id, r).hot_item == Some(id),
        claim_in(s, id, r).active_item == Some(id),
{
}

/// A claim can hand the active item only to a widget that is hot and under a
/// held button, and only when nothing was active: with a prior active item
/// in place, no claim — whoever makes it — can move it. In particular, a
/// press that lands on one widget can never make a different widget active
/// in the same frame.
pub proof fn lemma_no_active_steal(s: UiState, id: i32, r: Region, other: i32)
    requires
        s.active_item == Some(other),
    ensures
        claim_in(s, id, r).active_item == Some(other),
{
}

} // verus!
