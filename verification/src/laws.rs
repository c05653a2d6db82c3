//! Cross-cutting laws of the conversion pipeline: proportional velocity
//! re-scaling, and the unit round trips.

use vstd::prelude::*;

use crate::config::{
    MAX_MOVE_UM, MAX_TRAVEL_UM, MIN_MOVE_UM, MOTION_CONTROL_MAX_VELOCITY_UM_S,
    MOTION_CONTROL_MIN_VELOCITY_UM_S, RETRACT_VELOCITY_UM_S, UM_PER_MM,
};
use crate::motion_control::spec_clamp_velocity;
use crate::motion_state::{
    spec_depth_pct_of_mm, spec_sensation_of_pct, spec_sensation_pct_of_signed,
    spec_travel_um_of_pct, spec_velocity_pct_of_mm_s, spec_velocity_um_s_of_pct,
};
use crate::units::spec_saturate;

verus! {

/// Disabling motion brings the machine home in bounded time.  The
/// orchestrator's disabled-edge contract resets the active pattern and
/// fills the mailbox with exactly the retract submission (target at the
/// envelope minimum, cap at the retract velocity, dirty,
/// move-in-progress); the control loop's contract makes that target the
/// planner's on its next tick and the cap the planner's once the velocity
/// cooldown admits it.  From that state, this lemma: the planner rests at
/// the envelope minimum within 135 ticks, which at the 10 ms cadence is
/// 1.35 s, the full-travel cruise time at the retract velocity plus the
/// ramp-up allowance.
pub proof fn lemma_disable_retract_completes(p: crate::planner::Planner)
    requires
        p.wf(),
        p.target == MIN_MOVE_UM,
        p.max_velocity == RETRACT_VELOCITY_UM_S,
        MIN_MOVE_UM <= p.position <= MAX_MOVE_UM,
    ensures
        crate::planner::planner_iterate(p, 135).position == MIN_MOVE_UM,
        crate::planner::planner_iterate(p, 135).wf(),
{
    crate::planner::lemma_retract_bounded_time(p);
}

/// Changing the machine velocity while a pattern move is in flight keeps
/// the ratio between the commanded cap and the machine velocity: the
/// re-scaled cap divides the new machine velocity exactly as the old cap
/// divided the old one, up to the truncation of one integer division.
/// (When the re-scale happens mid-move, the cap is also applied to the
/// planner only outside the velocity cooldown window.)
///
/// The bound says: `scaled * old_machine` lies within one `old_machine`
/// quantum below `old_cap * new_machine`, which is exact ratio
/// preservation up to truncation.  The requirement `new_machine * old_cap
/// >= old_machine` excludes the inputs where the scaled cap would fall
/// under the planner floor and be lifted to it.
pub proof fn lemma_velocity_ratio_preserved(old_cap: i64, old_machine: i64, new_machine: i64)
    requires
        1 <= old_machine <= MOTION_CONTROL_MAX_VELOCITY_UM_S,
        1 <= new_machine <= MOTION_CONTROL_MAX_VELOCITY_UM_S,
        MOTION_CONTROL_MIN_VELOCITY_UM_S <= old_cap <= old_machine,
        new_machine * old_cap >= old_machine,
    ensures
        ({
            let scaled = spec_clamp_velocity(new_machine * old_cap / old_machine as int);
            &&& scaled == new_machine * old_cap / old_machine as int
            &&& old_cap * new_machine - old_machine < scaled * old_machine <= old_cap
                * new_machine
        }),
{
    let product = new_machine * old_cap;
    let scaled = product / old_machine as int;
    vstd::arithmetic::div_mod::lemma_fundamental_div_mod(product, old_machine as int);
    vstd::arithmetic::div_mod::lemma_mod_bound(product, old_machine as int);
    assert(product == old_machine * scaled + product % (old_machine as int));
    assert(scaled * old_machine == old_machine * scaled) by (nonlinear_arith);
    // the scaled cap stays inside the admissible band, so the clamp is the
    // identity
    assert(scaled >= 1) by {
        broadcast use vstd::arithmetic::div_mod::lemma_div_is_ordered;

        vstd::arithmetic::div_mod::lemma_div_by_self(old_machine as int);
    }
    assert(scaled <= new_machine) by {
        assert(product <= new_machine * old_machine) by (nonlinear_arith)
            requires
                product == new_machine * old_cap,
                old_cap <= old_machine,
                new_machine >= 0,
        ;
        broadcast use vstd::arithmetic::div_mod::lemma_div_is_ordered;

        vstd::arithmetic::div_mod::lemma_div_multiples_vanish(
            new_machine as int,
            old_machine as int,
        );
    }
    assert(old_cap * new_machine == product) by (nonlinear_arith)
        requires product == new_machine * old_cap;
}

/// Sensation percent-to-signed-to-percent is the identity: the stored
/// percentage survives the projection to the signed range and back
/// exactly.
pub proof fn lemma_sensation_pct_round_trip(pct: int)
    requires
        0 <= pct <= 100,
    ensures
        spec_sensation_pct_of_signed(spec_sensation_of_pct(pct)) == pct,
{
    let signed = spec_sensation_of_pct(pct);
    assert(signed == -100 + (pct * 200) / 100);
    assert(pct * 200 == 100 * (2 * pct));
    vstd::arithmetic::div_mod::lemma_div_multiples_vanish(2 * pct, 100);
    assert(signed == -100 + 2 * pct);
    assert(spec_saturate(signed, -100, 100) == signed);
    assert(spec_sensation_pct_of_signed(signed) == ((signed + 100) * 100) / 200);
    assert((signed + 100) * 100 == 200 * pct);
    vstd::arithmetic::div_mod::lemma_div_multiples_vanish(pct, 200);
}

/// Sensation signed-to-percent-to-signed loses at most the parity bit: the
/// value comes back as itself or one below, never more.
pub proof fn lemma_sensation_signed_round_trip(s: int)
    requires
        -100 <= s <= 100,
    ensures
        s - 1 <= spec_sensation_of_pct(spec_sensation_pct_of_signed(s)) <= s,
{
    let t = s + 100;
    let pct = spec_sensation_pct_of_signed(s);
    assert(spec_saturate(s, -100, 100) == s);
    assert(pct == (t * 100) / 200);
    vstd::arithmetic::div_mod::lemma_div_denominator(t * 100, 100, 2);
    assert(t * 100 == 100 * t);
    vstd::arithmetic::div_mod::lemma_div_multiples_vanish(t, 100);
    assert(pct == t / 2);
    vstd::arithmetic::div_mod::lemma_fundamental_div_mod(t, 2);
    vstd::arithmetic::div_mod::lemma_mod_bound(t, 2);
    assert(0 <= pct <= 100) by {
        broadcast use vstd::arithmetic::div_mod::lemma_div_pos_is_pos;
        broadcast use vstd::arithmetic::div_mod::lemma_div_is_ordered;

        assert(t / 2 <= 200int / 2);
    }
    let back = spec_sensation_of_pct(pct);
    assert(back == -100 + (pct * 200) / 100);
    assert(pct * 200 == 100 * (2 * pct));
    vstd::arithmetic::div_mod::lemma_div_multiples_vanish(2 * pct, 100);
    assert(back == -100 + 2 * pct);
}

/// Depth mm-to-percent-to-mm comes back within one percent quantum (1.8
/// mm) below the original: the integer truncation error of the round trip
/// never exceeds one step of the coarser unit.
pub proof fn lemma_depth_mm_round_trip(mm: int)
    requires
        0 <= mm * UM_PER_MM <= MAX_TRAVEL_UM,
    ensures
        ({
            let pct = spec_depth_pct_of_mm(mm);
            let back_um = spec_travel_um_of_pct(pct);
            mm * UM_PER_MM - MAX_TRAVEL_UM / 100 < back_um <= mm * UM_PER_MM
        }),
{
    let um = mm * UM_PER_MM;
    let pct = spec_depth_pct_of_mm(mm);
    assert(spec_saturate(um, 0, MAX_TRAVEL_UM as int) == um);
    assert(pct == (um * 100) / MAX_TRAVEL_UM as int);
    vstd::arithmetic::div_mod::lemma_fundamental_div_mod(um * 100, MAX_TRAVEL_UM as int);
    vstd::arithmetic::div_mod::lemma_mod_bound(um * 100, MAX_TRAVEL_UM as int);
    assert(0 <= pct <= 100) by {
        broadcast use vstd::arithmetic::div_mod::lemma_div_pos_is_pos;
        broadcast use vstd::arithmetic::div_mod::lemma_div_is_ordered;

        assert(um * 100 <= MAX_TRAVEL_UM * 100) by (nonlinear_arith)
            requires um <= MAX_TRAVEL_UM;
        vstd::arithmetic::div_mod::lemma_div_multiples_vanish(100, MAX_TRAVEL_UM as int);
        assert(um * 100 >= 0) by (nonlinear_arith)
            requires um >= 0;
    }
    let back_um = spec_travel_um_of_pct(pct);
    assert(back_um == (pct * MAX_TRAVEL_UM) / 100);
    vstd::arithmetic::div_mod::lemma_fundamental_div_mod(pct * MAX_TRAVEL_UM, 100);
    vstd::arithmetic::div_mod::lemma_mod_bound(pct * MAX_TRAVEL_UM, 100);
    // upper bound: the round trip never gains
    assert(back_um <= um) by (nonlinear_arith)
        requires
            pct * MAX_TRAVEL_UM == 100 * back_um + (pct * MAX_TRAVEL_UM) % 100,
            0 <= (pct * MAX_TRAVEL_UM) % 100 < 100,
            um * 100 == MAX_TRAVEL_UM * pct + (um * 100) % (MAX_TRAVEL_UM as int),
            0 <= (um * 100) % (MAX_TRAVEL_UM as int) < MAX_TRAVEL_UM,
    ;
    // lower bound: it loses less than one percent quantum
    assert(um - MAX_TRAVEL_UM / 100 < back_um) by (nonlinear_arith)
        requires
            pct * MAX_TRAVEL_UM == 100 * back_um + (pct * MAX_TRAVEL_UM) % 100,
            0 <= (pct * MAX_TRAVEL_UM) % 100 < 100,
            um * 100 == MAX_TRAVEL_UM * pct + (um * 100) % (MAX_TRAVEL_UM as int),
            0 <= (um * 100) % (MAX_TRAVEL_UM as int) < MAX_TRAVEL_UM,
            MAX_TRAVEL_UM == 180000,
    ;
}

/// Depth percent-to-mm-to-percent comes back as itself or one below,
/// never more: the integer truncation error of the round trip is at most
/// one percent.
pub proof fn lemma_depth_pct_round_trip(pct: int)
    requires
        0 <= pct <= 100,
    ensures
        ({
            let mm = spec_travel_um_of_pct(pct) / UM_PER_MM as int;
            pct - 1 <= spec_depth_pct_of_mm(mm) <= pct
        }),
{
    let um = spec_travel_um_of_pct(pct);
    assert(um == (pct * MAX_TRAVEL_UM) / 100);
    vstd::arithmetic::div_mod::lemma_fundamental_div_mod(pct * MAX_TRAVEL_UM, 100);
    vstd::arithmetic::div_mod::lemma_mod_bound(pct * MAX_TRAVEL_UM, 100);
    assert(0 <= um <= MAX_TRAVEL_UM) by {
        broadcast use vstd::arithmetic::div_mod::lemma_div_pos_is_pos;
        broadcast use vstd::arithmetic::div_mod::lemma_div_is_ordered;

        assert(pct * MAX_TRAVEL_UM <= 100 * MAX_TRAVEL_UM) by (nonlinear_arith)
            requires pct <= 100;
        vstd::arithmetic::div_mod::lemma_div_multiples_vanish(MAX_TRAVEL_UM as int, 100);
        assert(pct * MAX_TRAVEL_UM >= 0) by (nonlinear_arith)
            requires pct >= 0;
    }
    let mm = um / UM_PER_MM as int;
    vstd::arithmetic::div_mod::lemma_fundamental_div_mod(um, UM_PER_MM as int);
    vstd::arithmetic::div_mod::lemma_mod_bound(um, UM_PER_MM as int);
    let mm_um = mm * UM_PER_MM;
    assert(0 <= mm_um <= um) by (nonlinear_arith)
        requires
            mm_um == mm * UM_PER_MM,
            um == UM_PER_MM * mm + um % (UM_PER_MM as int),
            0 <= um % (UM_PER_MM as int) < UM_PER_MM,
            um >= 0,
            UM_PER_MM == 1000,
    ;
    assert(spec_saturate(mm_um, 0, MAX_TRAVEL_UM as int) == mm_um);
    let back = spec_depth_pct_of_mm(mm);
    assert(back == (mm_um * 100) / MAX_TRAVEL_UM as int);
    vstd::arithmetic::div_mod::lemma_fundamental_div_mod(mm_um * 100, MAX_TRAVEL_UM as int);
    vstd::arithmetic::div_mod::lemma_mod_bound(mm_um * 100, MAX_TRAVEL_UM as int);
    assert(pct - 1 <= back <= pct) by (nonlinear_arith)
        requires
            mm_um * 100 == MAX_TRAVEL_UM * back + (mm_um * 100) % (MAX_TRAVEL_UM as int),
            0 <= (mm_um * 100) % (MAX_TRAVEL_UM as int) < MAX_TRAVEL_UM,
            pct * MAX_TRAVEL_UM == 100 * um + (pct * MAX_TRAVEL_UM) % 100,
            0 <= (pct * MAX_TRAVEL_UM) % 100 < 100,
            um == UM_PER_MM * mm + um % (UM_PER_MM as int),
            0 <= um % (UM_PER_MM as int) < UM_PER_MM,
            mm_um == mm * UM_PER_MM,
            MAX_TRAVEL_UM == 180000,
            UM_PER_MM == 1000,
            0 <= pct <= 100,
    ;
}

/// Velocity percent-to-mm/s-to-percent comes back as itself or one below,
/// never more: the integer truncation error of the round trip is at most
/// one percent.
pub proof fn lemma_velocity_pct_round_trip(pct: int)
    requires
        0 <= pct <= 100,
    ensures
        ({
            let mm_s = spec_velocity_um_s_of_pct(pct) / UM_PER_MM as int;
            pct - 1 <= spec_velocity_pct_of_mm_s(mm_s) <= pct
        }),
{
    let span = MOTION_CONTROL_MAX_VELOCITY_UM_S - MOTION_CONTROL_MIN_VELOCITY_UM_S;
    let um = spec_velocity_um_s_of_pct(pct);
    assert(um == 1 + (pct * span) / 100);
    vstd::arithmetic::div_mod::lemma_fundamental_div_mod(pct * span, 100);
    vstd::arithmetic::div_mod::lemma_mod_bound(pct * span, 100);
    assert(1 <= um <= MOTION_CONTROL_MAX_VELOCITY_UM_S) by (nonlinear_arith)
        requires
            um == 1 + (pct * span) / 100,
            pct * span == 100 * (um - 1) + (pct * span) % 100,
            0 <= (pct * span) % 100 < 100,
            0 <= pct <= 100,
            span == 599999,
    ;
    let mm_s = um / UM_PER_MM as int;
    vstd::arithmetic::div_mod::lemma_fundamental_div_mod(um, UM_PER_MM as int);
    vstd::arithmetic::div_mod::lemma_mod_bound(um, UM_PER_MM as int);
    let mm_um = mm_s * UM_PER_MM;
    if pct == 0 {
        assert(um == 1);
        assert(mm_s == 0);
        assert(vstd::math::max(0 * (UM_PER_MM as int), 1) == 1);
        assert(spec_velocity_pct_of_mm_s(0) == 0) by {
            assert((1 - 1) * 100 as int / 599999 as int == 0);
        }
    } else {
        assert(um >= 6000) by (nonlinear_arith)
            requires
                um == 1 + (pct * span) / 100,
                pct * span == 100 * (um - 1) + (pct * span) % 100,
                0 <= (pct * span) % 100 < 100,
                1 <= pct,
                span == 599999,
        ;
        assert(mm_um >= 5000) by (nonlinear_arith)
            requires
                um == UM_PER_MM * mm_s + um % (UM_PER_MM as int),
                0 <= um % (UM_PER_MM as int) < UM_PER_MM,
                um >= 6000,
                UM_PER_MM == 1000,
                mm_um == mm_s * UM_PER_MM,
        ;
        assert(vstd::math::max(mm_um, 1) == mm_um);
        let back = (mm_um - 1) * 100 as int / span as int;
        vstd::arithmetic::div_mod::lemma_fundamental_div_mod((mm_um - 1) * 100, span as int);
        vstd::arithmetic::div_mod::lemma_mod_bound((mm_um - 1) * 100, span as int);
        assert(pct - 1 <= back <= pct) by (nonlinear_arith)
            requires
                (mm_um - 1) * 100 == span * back + ((mm_um - 1) * 100) % (span as int),
                0 <= ((mm_um - 1) * 100) % (span as int) < span,
                pct * span == 100 * (um - 1) + (pct * span) % 100,
                0 <= (pct * span) % 100 < 100,
                um == UM_PER_MM * mm_s + um % (UM_PER_MM as int),
                0 <= um % (UM_PER_MM as int) < UM_PER_MM,
                mm_um == mm_s * UM_PER_MM,
                span == 599999,
                UM_PER_MM == 1000,
                0 <= pct <= 100,
                um >= 6000,
        ;
        assert(spec_velocity_pct_of_mm_s(mm_s) == back);
    }
}

} // verus!
