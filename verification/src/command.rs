//! The string command protocol of the wireless remotes:
//! `cmd:action[:value]`, where `cmd` is `set` or `go`.  A `set` routes an
//! unsigned integer payload to the matching motion-state setter; a `go`
//! switches motion on or off.  The acknowledgement echoes the command
//! behind `ok:` or `fail:`, replacing it with `overflow` where the echo
//! would not fit the command buffer.

use vstd::prelude::*;

use crate::config::MAX_COMMAND_LENGTH;
use crate::json::{spec_digits_val, spec_is_digit};
use crate::motion_control::ControlSetpoint;
use crate::motion_state::MotionState;

verus! {

/// The index of the first colon at or after `from` (the length if none).
pub open spec fn spec_find_colon(bytes: Seq<u8>, from: int) -> int
    decreases bytes.len() - from,
{
    if from < 0 || from >= bytes.len() {
        bytes.len() as int
    } else if bytes[from] == 0x3a {
        from
    } else {
        spec_find_colon(bytes, from + 1)
    }
}

/// A non-empty run of decimal digits.
pub open spec fn spec_all_digits(ds: Seq<u8>) -> bool {
    ds.len() >= 1 && forall|i: int| 0 <= i < ds.len() ==> spec_is_digit(#[trigger] ds[i])
}

/// What a command does: which field it sets, or that it is rejected.
#[derive(Clone, Copy, PartialEq, Eq, Structural, Debug)]
pub enum CommandAction {
    SetSpeed(u32),
    SetStroke(u32),
    SetDepth(u32),
    SetSensation(u32),
    SetPattern(u32),
    GoEnable,
    GoDisable,
    Invalid,
}

/// The commanded action, at the specification level.  The command is split
/// at colons; the first segment chooses the verb, the second the action,
/// the third carries the digits of a `set` payload, optionally behind one
/// leading plus sign, as integer parsing admits (further segments are
/// ignored).
pub open spec fn spec_command_action(b: Seq<u8>) -> CommandAction {
    let c1 = spec_find_colon(b, 0);
    let verb = b.subrange(0, c1);
    if c1 >= b.len() {
        CommandAction::Invalid
    } else {
        let c2 = spec_find_colon(b, c1 + 1);
        let action = b.subrange(c1 + 1, c2);
        if verb == lit_cmd_go() {
            if action == lit_act_simple_penetration() || action == lit_act_stroke_engine() {
                CommandAction::GoEnable
            } else if action == lit_act_menu() {
                CommandAction::GoDisable
            } else {
                CommandAction::Invalid
            }
        } else if verb == lit_cmd_set() {
            if c2 >= b.len() {
                CommandAction::Invalid
            } else {
                let c3 = spec_find_colon(b, c2 + 1);
                let raw = b.subrange(c2 + 1, c3);
                let digits = if raw.len() >= 1 && raw[0] == 0x2b {
                    raw.drop_first()
                } else {
                    raw
                };
                if !(spec_all_digits(digits) && spec_digits_val(digits) <= u32::MAX) {
                    CommandAction::Invalid
                } else {
                    let value = spec_digits_val(digits) as u32;
                    if action == lit_act_speed() {
                        CommandAction::SetSpeed(value)
                    } else if action == lit_act_stroke() {
                        CommandAction::SetStroke(value)
                    } else if action == lit_act_depth() {
                        CommandAction::SetDepth(value)
                    } else if action == lit_act_sensation() {
                        CommandAction::SetSensation(value)
                    } else if action == lit_act_pattern() {
                        CommandAction::SetPattern(value)
                    } else {
                        CommandAction::Invalid
                    }
                }
            }
        } else {
            CommandAction::Invalid
        }
    }
}

/// The acknowledgement for a command: the echo behind `ok:` or `fail:`,
/// or `overflow` where the echo would not fit the buffer.
pub open spec fn spec_ack(accepted: bool, command: Seq<u8>) -> Seq<u8> {
    let prefix = if accepted {
        lit_ack_ok()
    } else {
        lit_ack_fail()
    };
    if prefix.len() + command.len() <= MAX_COMMAND_LENGTH {
        prefix + command
    } else {
        prefix + lit_ack_overflow()
    }
}

/// The bytes of `set`.
pub open spec fn lit_cmd_set() -> Seq<u8> {
    seq![0x73u8, 0x65u8, 0x74u8]
}

/// Append `set`.
fn push_cmd_set(out: &mut Vec<u8>)
    ensures
        final(out)@ == old(out)@ + lit_cmd_set(),
{
    out.push(0x73);
    out.push(0x65);
    out.push(0x74);
    proof {
        assert(out@ =~= old(out)@ + lit_cmd_set());
    }
}

/// The bytes of `go`.
pub open spec fn lit_cmd_go() -> Seq<u8> {
    seq![0x67u8, 0x6fu8]
}

/// Append `go`.
fn push_cmd_go(out: &mut Vec<u8>)
    ensures
        final(out)@ == old(out)@ + lit_cmd_go(),
{
    out.push(0x67);
    out.push(0x6f);
    proof {
        assert(out@ =~= old(out)@ + lit_cmd_go());
    }
}

/// The bytes of `speed`.
pub open spec fn lit_act_speed() -> Seq<u8> {
    seq![0x73u8, 0x70u8, 0x65u8, 0x65u8, 0x64u8]
}

/// Append `speed`.
fn push_act_speed(out: &mut Vec<u8>)
    ensures
        final(out)@ == old(out)@ + lit_act_speed(),
{
    out.push(0x73);
    out.push(0x70);
    out.push(0x65);
    out.push(0x65);
    out.push(0x64);
    proof {
        assert(out@ =~= old(out)@ + lit_act_speed());
    }
}

/// The bytes of `stroke`.
pub open spec fn lit_act_stroke() -> Seq<u8> {
    seq![0x73u8, 0x74u8, 0x72u8, 0x6fu8, 0x6bu8, 0x65u8]
}

/// Append `stroke`.
fn push_act_stroke(out: &mut Vec<u8>)
    ensures
        final(out)@ == old(out)@ + lit_act_stroke(),
{
    out.push(0x73);
    out.push(0x74);
    out.push(0x72);
    out.push(0x6f);
    out.push(0x6b);
    out.push(0x65);
    proof {
        assert(out@ =~= old(out)@ + lit_act_stroke());
    }
}

/// The bytes of `depth`.
pub open spec fn lit_act_depth() -> Seq<u8> {
    seq![0x64u8, 0x65u8, 0x70u8, 0x74u8, 0x68u8]
}

/// Append `depth`.
fn push_act_depth(out: &mut Vec<u8>)
    ensures
        final(out)@ == old(out)@ + lit_act_depth(),
{
    out.push(0x64);
    out.push(0x65);
    out.push(0x70);
    out.push(0x74);
    out.push(0x68);
    proof {
        assert(out@ =~= old(out)@ + lit_act_depth());
    }
}

/// The bytes of `sensation`.
pub open spec fn lit_act_sensation() -> Seq<u8> {
    seq![0x73u8, 0x65u8, 0x6eu8, 0x73u8, 0x61u8, 0x74u8, 0x69u8, 0x6fu8, 0x6eu8]
}

/// Append `sensation`.
fn push_act_sensation(out: &mut Vec<u8>)
    ensures
        final(out)@ == old(out)@ + lit_act_sensation(),
{
    out.push(0x73);
    out.push(0x65);
    out.push(0x6e);
    out.push(0x73);
    out.push(0x61);
    out.push(0x74);
    out.push(0x69);
    out.push(0x6f);
    out.push(0x6e);
    proof {
        assert(out@ =~= old(out)@ + lit_act_sensation());
    }
}

/// The bytes of `pattern`.
pub open spec fn lit_act_pattern() -> Seq<u8> {
    seq![0x70u8, 0x61u8, 0x74u8, 0x74u8, 0x65u8, 0x72u8, 0x6eu8]
}

/// Append `pattern`.
fn push_act_pattern(out: &mut Vec<u8>)
    ensures
        final(out)@ == old(out)@ + lit_act_pattern(),
{
    out.push(0x70);
    out.push(0x61);
    out.push(0x74);
    out.push(0x74);
    out.push(0x65);
    out.push(0x72);
    out.push(0x6e);
    proof {
        assert(out@ =~= old(out)@ + lit_act_pattern());
    }
}

/// The bytes of `simplePenetration`.
pub open spec fn lit_act_simple_penetration() -> Seq<u8> {
    seq![0x73u8, 0x69u8, 0x6du8, 0x70u8, 0x6cu8, 0x65u8, 0x50u8, 0x65u8, 0x6eu8, 0x65u8, 0x74u8, 0x72u8, 0x61u8, 0x74u8, 0x69u8, 0x6fu8, 0x6eu8]
}

/// Append `simplePenetration`.
fn push_act_simple_penetration(out: &mut Vec<u8>)
    ensures
        final(out)@ == old(out)@ + lit_act_simple_penetration(),
{
    out.push(0x73);
    out.push(0x69);
    out.push(0x6d);
    out.push(0x70);
    out.push(0x6c);
    out.push(0x65);
    out.push(0x50);
    out.push(0x65);
    out.push(0x6e);
    out.push(0x65);
    out.push(0x74);
    out.push(0x72);
    out.push(0x61);
    out.push(0x74);
    out.push(0x69);
    out.push(0x6f);
    out.push(0x6e);
    proof {
        assert(out@ =~= old(out)@ + lit_act_simple_penetration());
    }
}

/// The bytes of `strokeEngine`.
pub open spec fn lit_act_stroke_engine() -> Seq<u8> {
    seq![0x73u8, 0x74u8, 0x72u8, 0x6fu8, 0x6bu8, 0x65u8, 0x45u8, 0x6eu8, 0x67u8, 0x69u8, 0x6eu8, 0x65u8]
}

/// Append `strokeEngine`.
fn push_act_stroke_engine(out: &mut Vec<u8>)
    ensures
        final(out)@ == old(out)@ + lit_act_stroke_engine(),
{
    out.push(0x73);
    out.push(0x74);
    out.push(0x72);
    out.push(0x6f);
    out.push(0x6b);
    out.push(0x65);
    out.push(0x45);
    out.push(0x6e);
    out.push(0x67);
    out.push(0x69);
    out.push(0x6e);
    out.push(0x65);
    proof {
        assert(out@ =~= old(out)@ + lit_act_stroke_engine());
    }
}

/// The bytes of `menu`.
pub open spec fn lit_act_menu() -> Seq<u8> {
    seq![0x6du8, 0x65u8, 0x6eu8, 0x75u8]
}

/// Append `menu`.
fn push_act_menu(out: &mut Vec<u8>)
    ensures
        final(out)@ == old(out)@ + lit_act_menu(),
{
    out.push(0x6d);
    out.push(0x65);
    out.push(0x6e);
    out.push(0x75);
    proof {
        assert(out@ =~= old(out)@ + lit_act_menu());
    }
}

/// The bytes of `ok:`.
pub open spec fn lit_ack_ok() -> Seq<u8> {
    seq![0x6fu8, 0x6bu8, 0x3au8]
}

/// Append `ok:`.
fn push_ack_ok(out: &mut Vec<u8>)
    ensures
        final(out)@ == old(out)@ + lit_ack_ok(),
{
    out.push(0x6f);
    out.push(0x6b);
    out.push(0x3a);
    proof {
        assert(out@ =~= old(out)@ + lit_ack_ok());
    }
}

/// The bytes of `fail:`.
pub open spec fn lit_ack_fail() -> Seq<u8> {
    seq![0x66u8, 0x61u8, 0x69u8, 0x6cu8, 0x3au8]
}

/// Append `fail:`.
fn push_ack_fail(out: &mut Vec<u8>)
    ensures
        final(out)@ == old(out)@ + lit_ack_fail(),
{
    out.push(0x66);
    out.push(0x61);
    out.push(0x69);
    out.push(0x6c);
    out.push(0x3a);
    proof {
        assert(out@ =~= old(out)@ + lit_ack_fail());
    }
}

/// The bytes of `overflow`.
pub open spec fn lit_ack_overflow() -> Seq<u8> {
    seq![0x6fu8, 0x76u8, 0x65u8, 0x72u8, 0x66u8, 0x6cu8, 0x6fu8, 0x77u8]
}

/// Append `overflow`.
fn push_ack_overflow(out: &mut Vec<u8>)
    ensures
        final(out)@ == old(out)@ + lit_ack_overflow(),
{
    out.push(0x6f);
    out.push(0x76);
    out.push(0x65);
    out.push(0x72);
    out.push(0x66);
    out.push(0x6c);
    out.push(0x6f);
    out.push(0x77);
    proof {
        assert(out@ =~= old(out)@ + lit_ack_overflow());
    }
}

/// Find the first colon at or after `from`.
fn find_colon(bytes: &[u8], from: usize) -> (r: usize)
    requires
        from <= bytes@.len(),
    ensures
        r == spec_find_colon(bytes@, from as int),
        from <= r <= bytes@.len(),
        r < bytes@.len() ==> bytes@[r as int] == 0x3a,
{
    let mut i = from;
    while i < bytes.len() && bytes[i] != 0x3a
        invariant
            from <= i <= bytes@.len(),
            spec_find_colon(bytes@, from as int) == spec_find_colon(bytes@, i as int),
        decreases bytes@.len() - i,
    {
        i += 1;
    }
    i
}

/// Is the byte range `[start, end)` exactly `pat`?
fn seg_equals(bytes: &[u8], start: usize, end: usize, pat: &Vec<u8>) -> (r: bool)
    requires
        start <= end <= bytes@.len(),
    ensures
        r == (bytes@.subrange(start as int, end as int) == pat@),
{
    if end - start != pat.len() {
        proof {
            assert(bytes@.subrange(start as int, end as int).len() != pat@.len());
        }
        return false;
    }
    let total = bytes.len();
    let mut i: usize = 0;
    while i < pat.len()
        invariant
            i <= pat@.len(),
            start + pat@.len() == end <= bytes@.len(),
            bytes@.len() == total,
            forall|j: int| 0 <= j < i ==> bytes@[start + j] == pat@[j],
        decreases pat@.len() - i,
    {
        if bytes[start + i] != pat[i] {
            proof {
                assert(bytes@.subrange(start as int, end as int)[i as int] != pat@[i as int]);
            }
            return false;
        }
        i += 1;
    }
    proof {
        assert(bytes@.subrange(start as int, end as int) =~= pat@);
    }
    true
}

/// Parse the digits in `[start, end)` as a `u32`.  Succeeds exactly when
/// the range is a non-empty run of digits whose value fits.
fn parse_value(bytes: &[u8], start: usize, end: usize) -> (r: Option<u32>)
    requires
        start <= end <= bytes@.len(),
    ensures
        r matches Some(v) ==> {
            &&& spec_all_digits(bytes@.subrange(start as int, end as int))
            &&& spec_digits_val(bytes@.subrange(start as int, end as int)) == v
        },
        r is None ==> !(spec_all_digits(bytes@.subrange(start as int, end as int))
            && spec_digits_val(bytes@.subrange(start as int, end as int)) <= u32::MAX),
{
    let ghost seg = bytes@.subrange(start as int, end as int);
    if start == end {
        return None;
    }
    let mut value: u32 = 0;
    let mut i = start;
    proof {
        assert(seg.take(0) =~= Seq::<u8>::empty());
        assert(spec_digits_val(Seq::<u8>::empty()) == 0);
    }
    while i < end
        invariant
            start <= i <= end <= bytes@.len(),
            seg == bytes@.subrange(start as int, end as int),
            forall|j: int| 0 <= j < i - start ==> spec_is_digit(#[trigger] seg[j]),
            spec_digits_val(seg.take(i - start)) == value,
        decreases end - i,
    {
        let b = bytes[i];
        if b < 0x30 || b > 0x39 {
            proof {
                assert(seg[i - start] == bytes@[i as int]);
                assert(!spec_is_digit(seg[i - start]));
            }
            return None;
        }
        let digit = (b - 0x30) as u32;
        proof {
            assert(seg.take(i - start + 1).drop_last() =~= seg.take(i - start));
            assert(seg.take(i - start + 1).last() == bytes@[i as int]);
        }
        if value > (u32::MAX - digit) / 10 {
            proof {
                vstd::arithmetic::div_mod::lemma_fundamental_div_mod(
                    (u32::MAX - digit) as int,
                    10,
                );
                vstd::arithmetic::div_mod::lemma_mod_bound((u32::MAX - digit) as int, 10);
                assert(value * 10 + digit > u32::MAX) by (nonlinear_arith)
                    requires
                        value > ((u32::MAX - digit) as int) / 10,
                        (u32::MAX - digit) as int == 10 * (((u32::MAX - digit) as int) / 10) + (
                        (u32::MAX - digit) as int) % 10,
                        0 <= ((u32::MAX - digit) as int) % 10 < 10,
                        0 <= digit <= 9,
                ;
                assert(spec_digits_val(seg.take(i - start + 1)) > u32::MAX);
                if spec_all_digits(seg) {
                    crate::json::lemma_digits_prefix_le(seg, i - start + 1);
                }
            }
            return None;
        }
        proof {
            assert(value * 10 + digit <= u32::MAX) by (nonlinear_arith)
                requires
                    value <= (u32::MAX - digit) / 10,
                    ((u32::MAX - digit) as int) / 10 * 10 <= (u32::MAX - digit) as int,
                    0 <= digit <= 9,
            ;
            vstd::arithmetic::div_mod::lemma_fundamental_div_mod((u32::MAX - digit) as int, 10);
            vstd::arithmetic::div_mod::lemma_mod_bound((u32::MAX - digit) as int, 10);
        }
        value = value * 10 + digit;
        i += 1;
    }
    proof {
        assert(seg.take(end - start) =~= seg);
    }
    Some(value)
}

/// Parse a command into the action it requests.
pub fn parse_command(command: &[u8]) -> (r: CommandAction)
    ensures
        r == spec_command_action(command@),
{
    let len = command.len();
    let c1 = find_colon(command, 0);
    if c1 >= len {
        return CommandAction::Invalid;
    }
    let c2 = find_colon(command, c1 + 1);

    let mut lit_go: Vec<u8> = Vec::new();
    push_cmd_go(&mut lit_go);
    let mut lit_set: Vec<u8> = Vec::new();
    push_cmd_set(&mut lit_set);

    if seg_equals(command, 0, c1, &lit_go) {
        let mut lit_sp: Vec<u8> = Vec::new();
        push_act_simple_penetration(&mut lit_sp);
        let mut lit_se: Vec<u8> = Vec::new();
        push_act_stroke_engine(&mut lit_se);
        let mut lit_menu: Vec<u8> = Vec::new();
        push_act_menu(&mut lit_menu);
        if seg_equals(command, c1 + 1, c2, &lit_sp) || seg_equals(command, c1 + 1, c2, &lit_se) {
            CommandAction::GoEnable
        } else if seg_equals(command, c1 + 1, c2, &lit_menu) {
            CommandAction::GoDisable
        } else {
            CommandAction::Invalid
        }
    } else if seg_equals(command, 0, c1, &lit_set) {
        if c2 >= len {
            return CommandAction::Invalid;
        }
        let c3 = find_colon(command, c2 + 1);
        // the integer parser tolerates one leading plus sign
        let value_start = if c2 + 1 < c3 && command[c2 + 1] == 0x2b {
            c2 + 2
        } else {
            c2 + 1
        };
        proof {
            if c2 + 1 < c3 && command@[c2 as int + 1] == 0x2b {
                assert(command@.subrange(c2 as int + 1, c3 as int).drop_first()
                    =~= command@.subrange(c2 as int + 2, c3 as int));
            }
        }
        let value = match parse_value(command, value_start, c3) {
            Some(v) => v,
            None => { return CommandAction::Invalid },
        };
        let mut lit_speed: Vec<u8> = Vec::new();
        push_act_speed(&mut lit_speed);
        let mut lit_stroke: Vec<u8> = Vec::new();
        push_act_stroke(&mut lit_stroke);
        let mut lit_depth: Vec<u8> = Vec::new();
        push_act_depth(&mut lit_depth);
        let mut lit_sensation: Vec<u8> = Vec::new();
        push_act_sensation(&mut lit_sensation);
        let mut lit_pattern: Vec<u8> = Vec::new();
        push_act_pattern(&mut lit_pattern);
        if seg_equals(command, c1 + 1, c2, &lit_speed) {
            CommandAction::SetSpeed(value)
        } else if seg_equals(command, c1 + 1, c2, &lit_stroke) {
            CommandAction::SetStroke(value)
        } else if seg_equals(command, c1 + 1, c2, &lit_depth) {
            CommandAction::SetDepth(value)
        } else if seg_equals(command, c1 + 1, c2, &lit_sensation) {
            CommandAction::SetSensation(value)
        } else if seg_equals(command, c1 + 1, c2, &lit_pattern) {
            CommandAction::SetPattern(value)
        } else {
            CommandAction::Invalid
        }
    } else {
        CommandAction::Invalid
    }
}

/// Build the acknowledgement for a command.
fn build_ack(accepted: bool, command: &[u8]) -> (r: Vec<u8>)
    ensures
        r@ == spec_ack(accepted, command@),
{
    let mut out: Vec<u8> = Vec::new();
    if accepted {
        push_ack_ok(&mut out);
    } else {
        push_ack_fail(&mut out);
    }
    if command.len() <= MAX_COMMAND_LENGTH && out.len() <= MAX_COMMAND_LENGTH - command.len() {
        let mut i: usize = 0;
        let ghost prefix = out@;
        while i < command.len()
            invariant
                i <= command@.len(),
                out@ == prefix + command@.take(i as int),
            decreases command@.len() - i,
        {
            out.push(command[i]);
            proof {
                assert(out@ =~= prefix + command@.take(i as int + 1));
            }
            i += 1;
        }
        proof {
            assert(command@.take(command@.len() as int) =~= command@);
        }
    } else {
        push_ack_overflow(&mut out);
    }
    out
}

/// Process one remote command: route its action to the motion state (a
/// `set` of the speed also re-scales the motion-control velocity cap, see
/// `set_motion_velocity_pct`), and return the acknowledgement.
pub fn process_command(command: &[u8], state: &mut MotionState, setpoint: &mut ControlSetpoint)
    -> (r: Vec<u8>)
    requires
        old(state).wf(),
        old(setpoint).wf(),
    ensures
        final(state).wf(),
        final(setpoint).wf(),
        r@ == spec_ack(
            !(spec_command_action(command@) is Invalid),
            command@,
        ),
        match spec_command_action(command@) {
            CommandAction::SetSpeed(v) => {
                &&& *final(state) == (MotionState {
                    velocity: crate::units::spec_saturate(v as int, 0, 100) as u32,
                    ..*old(state)
                })
                &&& final(setpoint).max_velocity == crate::motion_control::spec_clamp_velocity(
                    crate::motion_state::spec_velocity_um_s_of_pct(
                        crate::units::spec_saturate(v as int, 0, 100),
                    ) * old(setpoint).max_velocity
                        / crate::motion_state::spec_velocity_um_s_of_pct(
                        old(state).velocity as int,
                    ),
                )
                &&& final(setpoint).dirty
                &&& final(setpoint).target_position == old(setpoint).target_position
                &&& final(setpoint).move_in_progress == old(setpoint).move_in_progress
            },
            CommandAction::SetStroke(v) => {
                &&& *final(state) == (MotionState {
                    motion_length: crate::units::spec_saturate(v as int, 0, 100) as u32,
                    ..*old(state)
                })
                &&& *final(setpoint) == *old(setpoint)
            },
            CommandAction::SetDepth(v) => {
                &&& *final(state) == (MotionState {
                    depth: crate::units::spec_saturate(v as int, 0, 100) as u32,
                    ..*old(state)
                })
                &&& *final(setpoint) == *old(setpoint)
            },
            CommandAction::SetSensation(v) => {
                &&& *final(state) == (MotionState {
                    sensation: crate::units::spec_saturate(v as int, 0, 100) as u32,
                    ..*old(state)
                })
                &&& *final(setpoint) == *old(setpoint)
            },
            CommandAction::SetPattern(v) => {
                &&& *final(state) == (MotionState { pattern: v, ..*old(state) })
                &&& *final(setpoint) == *old(setpoint)
            },
            CommandAction::GoEnable => {
                &&& *final(state) == (MotionState { motion_enabled: true, ..*old(state) })
                &&& *final(setpoint) == *old(setpoint)
            },
            CommandAction::GoDisable => {
                &&& *final(state) == (MotionState { motion_enabled: false, ..*old(state) })
                &&& *final(setpoint) == *old(setpoint)
            },
            CommandAction::Invalid => {
                &&& *final(state) == *old(state)
                &&& *final(setpoint) == *old(setpoint)
            },
        },
{
    let action = parse_command(command);
    let mut fail = false;
    match action {
        CommandAction::SetSpeed(v) => {
            crate::motion_state::set_motion_velocity_pct(state, setpoint, v);
        },
        CommandAction::SetStroke(v) => {
            crate::motion_state::set_motion_length_pct(state, v);
        },
        CommandAction::SetDepth(v) => {
            crate::motion_state::set_motion_depth_pct(state, v);
        },
        CommandAction::SetSensation(v) => {
            crate::motion_state::set_motion_sensation_pct(state, v);
        },
        CommandAction::SetPattern(v) => {
            crate::motion_state::set_motion_pattern(state, v);
        },
        CommandAction::GoEnable => {
            crate::motion_state::set_motion_enabled(state, true);
        },
        CommandAction::GoDisable => {
            crate::motion_state::set_motion_enabled(state, false);
        },
        CommandAction::Invalid => {
            fail = true;
        },
    }
    build_ack(!fail, command)
}

} // verus!
