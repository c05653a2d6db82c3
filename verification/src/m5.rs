//! The binary remote link: the packed packet's byte layout, the command
//! codes, their routing into the motion state, the pairing rule and the
//! heartbeat watchdog.  Radio I/O stays outside the crate, as does the
//! floating-point reading of the packet's analog fields: the codec here
//! carries those as raw 32-bit images, and the link hands the routing the
//! payload already rounded to an integer.

use vstd::prelude::*;

use crate::config::MAX_NO_REMOTE_HEARTBEAT_MS;
use crate::motion_control::ControlSetpoint;
use crate::motion_state::{
    set_motion_depth_mm, set_motion_enabled, set_motion_length_mm, set_motion_pattern,
    set_motion_sensation_neg_pos_100, set_motion_velocity_mm_s, spec_depth_pct_of_mm,
    spec_length_pct_of_mm, spec_sensation_pct_of_signed, spec_velocity_pct_of_mm_s, MotionState,
};
use crate::units::spec_saturate;

verus! {

/// This machine's id on the remote link.
pub const OSSM_ID: i32 = 1;

/// The handheld remote's id on the remote link.
pub const M5_ID: i32 = 99;

/// The command codes of the remote packet protocol.
#[derive(Clone, Copy, PartialEq, Eq, Structural, Debug)]
pub enum M5Command {
    Conn,
    Speed,
    Depth,
    Stroke,
    Sensation,
    Pattern,
    TorqueF,
    TorqueR,
    Off,
    On,
    SetupDI,
    SetupDIF,
    Reboot,
    CumSpeed,
    CumTime,
    CumSize,
    CumAccel,
    Connect,
    Heartbeat,
}

/// The wire code of a command.
pub open spec fn spec_m5_code(cmd: M5Command) -> u32 {
    match cmd {
        M5Command::Conn => 0,
        M5Command::Speed => 1,
        M5Command::Depth => 2,
        M5Command::Stroke => 3,
        M5Command::Sensation => 4,
        M5Command::Pattern => 5,
        M5Command::TorqueF => 6,
        M5Command::TorqueR => 7,
        M5Command::Off => 10,
        M5Command::On => 11,
        M5Command::SetupDI => 12,
        M5Command::SetupDIF => 13,
        M5Command::Reboot => 14,
        M5Command::CumSpeed => 20,
        M5Command::CumTime => 21,
        M5Command::CumSize => 22,
        M5Command::CumAccel => 23,
        M5Command::Connect => 88,
        M5Command::Heartbeat => 99,
    }
}

impl M5Command {
    /// The command's wire code.
    pub fn code(&self) -> (r: u32)
        ensures
            r == spec_m5_code(*self),
    {
        match self {
            M5Command::Conn => 0,
            M5Command::Speed => 1,
            M5Command::Depth => 2,
            M5Command::Stroke => 3,
            M5Command::Sensation => 4,
            M5Command::Pattern => 5,
            M5Command::TorqueF => 6,
            M5Command::TorqueR => 7,
            M5Command::Off => 10,
            M5Command::On => 11,
            M5Command::SetupDI => 12,
            M5Command::SetupDIF => 13,
            M5Command::Reboot => 14,
            M5Command::CumSpeed => 20,
            M5Command::CumTime => 21,
            M5Command::CumSize => 22,
            M5Command::CumAccel => 23,
            M5Command::Connect => 88,
            M5Command::Heartbeat => 99,
        }
    }

    /// Decode a wire code; an unknown code is a parse error and the packet
    /// is dropped.
    pub fn from_code(code: u32) -> (r: Option<M5Command>)
        ensures
            r matches Some(cmd) ==> spec_m5_code(cmd) == code,
            r is None <==> !exists|cmd: M5Command| spec_m5_code(cmd) == code,
    {
        let r = match code {
            0 => Some(M5Command::Conn),
            1 => Some(M5Command::Speed),
            2 => Some(M5Command::Depth),
            3 => Some(M5Command::Stroke),
            4 => Some(M5Command::Sensation),
            5 => Some(M5Command::Pattern),
            6 => Some(M5Command::TorqueF),
            7 => Some(M5Command::TorqueR),
            10 => Some(M5Command::Off),
            11 => Some(M5Command::On),
            12 => Some(M5Command::SetupDI),
            13 => Some(M5Command::SetupDIF),
            14 => Some(M5Command::Reboot),
            20 => Some(M5Command::CumSpeed),
            21 => Some(M5Command::CumTime),
            22 => Some(M5Command::CumSize),
            23 => Some(M5Command::CumAccel),
            88 => Some(M5Command::Connect),
            99 => Some(M5Command::Heartbeat),
            _ => None,
        };
        proof {
            if r is Some {
                assert(spec_m5_code(r->Some_0) == code);
            }
        }
        r
    }
}

/// What the caller owes the remote after a command was applied.
#[derive(Clone, Copy, PartialEq, Eq, Structural, Debug)]
pub struct M5Reaction {
    /// Echo this command back to the remote.
    pub reply: Option<M5Command>,
    /// The packet was a heartbeat: refresh the watchdog.
    pub heartbeat: bool,
}

/// A payload clamped into `u32`, as casting the packet's float payload to
/// an unsigned integer does.
pub open spec fn spec_payload_u32(value: int) -> u32 {
    spec_saturate(value, 0, u32::MAX as int) as u32
}

/// A payload clamped into `i32`.
pub open spec fn spec_payload_i32(value: int) -> i32 {
    spec_saturate(value, i32::MIN as int, i32::MAX as int) as i32
}

/// Route one remote command into the motion state.  `value` is the
/// packet's payload, already rounded toward zero.  `On` and `Off` ask for
/// an echo packet back; a heartbeat asks for the watchdog to be fed; the
/// commands this machine does not act on change nothing.
pub fn apply_m5_command(
    cmd: M5Command,
    value: i64,
    state: &mut MotionState,
    setpoint: &mut ControlSetpoint,
) -> (r: M5Reaction)
    requires
        old(state).wf(),
        old(setpoint).wf(),
    ensures
        final(state).wf(),
        final(setpoint).wf(),
        r.reply == (match cmd {
            M5Command::On => Some(M5Command::On),
            M5Command::Off => Some(M5Command::Off),
            _ => None::<M5Command>,
        }),
        r.heartbeat == (cmd == M5Command::Heartbeat),
        match cmd {
            M5Command::On => *final(state) == (MotionState {
                motion_enabled: true,
                ..*old(state)
            }),
            M5Command::Off => *final(state) == (MotionState {
                motion_enabled: false,
                ..*old(state)
            }),
            M5Command::Speed => final(state).velocity == spec_velocity_pct_of_mm_s(
                spec_payload_u32(value as int) as int,
            ),
            M5Command::Depth => *final(state) == (MotionState {
                depth: spec_depth_pct_of_mm(spec_payload_u32(value as int) as int) as u32,
                ..*old(state)
            }),
            M5Command::Stroke => *final(state) == (MotionState {
                motion_length: spec_length_pct_of_mm(spec_payload_u32(value as int) as int) as u32,
                ..*old(state)
            }),
            M5Command::Sensation => *final(state) == (MotionState {
                sensation: spec_sensation_pct_of_signed(
                    spec_payload_i32(value as int) as int,
                ) as u32,
                ..*old(state)
            }),
            M5Command::Pattern => *final(state) == (MotionState {
                pattern: spec_payload_u32(value as int),
                ..*old(state)
            }),
            _ => *final(state) == *old(state),
        },
        cmd != M5Command::Speed ==> *final(setpoint) == *old(setpoint),
{
    let mut reaction = M5Reaction { reply: None, heartbeat: false };
    match cmd {
        M5Command::On => {
            set_motion_enabled(state, true);
            reaction.reply = Some(M5Command::On);
        },
        M5Command::Off => {
            set_motion_enabled(state, false);
            reaction.reply = Some(M5Command::Off);
        },
        M5Command::Speed => {
            set_motion_velocity_mm_s(state, setpoint, payload_u32(value));
        },
        M5Command::Depth => {
            set_motion_depth_mm(state, payload_u32(value));
        },
        M5Command::Stroke => {
            set_motion_length_mm(state, payload_u32(value));
        },
        M5Command::Sensation => {
            set_motion_sensation_neg_pos_100(state, payload_i32(value));
        },
        M5Command::Pattern => {
            set_motion_pattern(state, payload_u32(value));
        },
        M5Command::Heartbeat => {
            reaction.heartbeat = true;
        },
        _ => {},
    }
    reaction
}

/// Clamp a payload into `u32`.
pub fn payload_u32(value: i64) -> (r: u32)
    ensures
        r == spec_payload_u32(value as int),
{
    if value < 0 {
        0
    } else if value > u32::MAX as i64 {
        u32::MAX
    } else {
        value as u32
    }
}

/// Clamp a payload into `i32`.
pub fn payload_i32(value: i64) -> (r: i32)
    ensures
        r == spec_payload_i32(value as int),
{
    if value < i32::MIN as i64 {
        i32::MIN
    } else if value > i32::MAX as i64 {
        i32::MAX
    } else {
        value as i32
    }
}

/// The pairing rule: the first broadcast-directed packet whose target is
/// this machine's id and whose source is not yet a known peer adds the
/// peer (and a heartbeat packet goes back to it).
pub fn should_add_peer(target: i32, sent_to_broadcast: bool, peer_known: bool) -> (r: bool)
    ensures
        r == (target == OSSM_ID && sent_to_broadcast && !peer_known),
{
    target == OSSM_ID && sent_to_broadcast && !peer_known
}

/// The heartbeat watchdog: motion is forced off after more than
/// `MAX_NO_REMOTE_HEARTBEAT_MS` without a heartbeat.  A clock that moved
/// backwards counts as no time elapsed.
pub fn heartbeat_expired(last_heartbeat_ms: u64, now_ms: u64) -> (r: bool)
    ensures
        r == (now_ms >= last_heartbeat_ms && now_ms - last_heartbeat_ms
            > MAX_NO_REMOTE_HEARTBEAT_MS),
{
    if now_ms >= last_heartbeat_ms {
        now_ms - last_heartbeat_ms > MAX_NO_REMOTE_HEARTBEAT_MS
    } else {
        false
    }
}


// ---- The packed packet of the binary remote ----

/// Length of the packed remote record: five 32-bit analog fields, four
/// flag bytes, the command word, the payload word and the target id.
pub const M5_PACKET_LEN: usize = 36;

/// The little-endian 32-bit word at `off`.
pub open spec fn spec_le_u32(bytes: Seq<u8>, off: int) -> int {
    bytes[off] + 256 * (bytes[off + 1] + 256 * (bytes[off + 2] + 256 * bytes[off + 3]))
}

/// The little-endian bytes of a 32-bit word.
pub open spec fn spec_le_bytes_u32(x: u32) -> Seq<u8> {
    seq![x as u8, (x >> 8) as u8, (x >> 16) as u8, (x >> 24) as u8]
}

/// The signed reading of a 32-bit word.
pub open spec fn spec_signed_of_bits(bits: int) -> int {
    if bits >= 0x80000000 {
        bits - 0x100000000
    } else {
        bits
    }
}

/// A remote packet, with every analog field carried as its raw 32-bit
/// float image: the caller converts those outside this crate.
#[derive(Clone, Copy, PartialEq, Eq, Structural, Debug)]
pub struct M5PacketFields {
    pub speed_bits: u32,
    pub depth_bits: u32,
    pub stroke_bits: u32,
    pub sensation_bits: u32,
    pub pattern_bits: u32,
    pub rstate: bool,
    pub connected: bool,
    pub heartbeat: bool,
    pub command_code: u32,
    pub value_bits: u32,
    pub target: i32,
}

impl M5PacketFields {
    /// The wire image of this packet.
    pub open spec fn spec_bytes(self) -> Seq<u8> {
        spec_le_bytes_u32(self.speed_bits) + spec_le_bytes_u32(self.depth_bits)
            + spec_le_bytes_u32(self.stroke_bits) + spec_le_bytes_u32(self.sensation_bits)
            + spec_le_bytes_u32(self.pattern_bits) + seq![
            (if self.rstate { 1u8 } else { 0u8 }),
            (if self.connected { 1u8 } else { 0u8 }),
            (if self.heartbeat { 1u8 } else { 0u8 }),
            0u8,
        ] + spec_le_bytes_u32(self.command_code) + spec_le_bytes_u32(self.value_bits)
            + spec_le_bytes_u32(self.target as u32)
    }
}

/// Read the little-endian word at `off`.
fn read_le_u32(bytes: &[u8], off: usize) -> (r: u32)
    requires
        off + 4 <= bytes@.len(),
    ensures
        r == spec_le_u32(bytes@, off as int),
{
    (bytes[off] as u32) + 256 * ((bytes[off + 1] as u32) + 256 * ((bytes[off + 2] as u32) + 256
        * (bytes[off + 3] as u32)))
}

/// Append the little-endian bytes of `x`.
fn push_le_u32(out: &mut Vec<u8>, x: u32)
    ensures
        final(out)@ == old(out)@ + spec_le_bytes_u32(x),
{
    out.push(#[verifier::truncate] (x as u8));
    out.push(#[verifier::truncate] ((x >> 8) as u8));
    out.push(#[verifier::truncate] ((x >> 16) as u8));
    out.push((x >> 24) as u8);
    proof {
        assert(final(out)@ =~= old(out)@ + spec_le_bytes_u32(x));
    }
}

/// Read a one-byte boolean; any value but 0 and 1 is framing garbage.
fn read_flag(bytes: &[u8], off: usize) -> (r: Option<bool>)
    requires
        off < bytes@.len(),
    ensures
        r matches Some(b) ==> bytes@[off as int] == (if b { 1u8 } else { 0u8 }),
        r is None <==> bytes@[off as int] > 1,
{
    match bytes[off] {
        0 => Some(false),
        1 => Some(true),
        _ => None,
    }
}

/// Decode a remote packet.  It fails exactly on a wrong length or on a
/// flag byte (the three booleans and the padding byte, which the wire
/// record also types as a boolean) that is not a plain boolean; an
/// unknown command word is left to `M5Command::from_code`, where the
/// packet is dropped.
pub fn parse_m5_packet(bytes: &[u8]) -> (r: Option<M5PacketFields>)
    ensures
        r is Some <==> {
            &&& bytes@.len() == M5_PACKET_LEN
            &&& bytes@[20] <= 1
            &&& bytes@[21] <= 1
            &&& bytes@[22] <= 1
            &&& bytes@[23] <= 1
        },
        r matches Some(p) ==> {
            &&& bytes@.len() == M5_PACKET_LEN
            &&& p.speed_bits == spec_le_u32(bytes@, 0)
            &&& p.depth_bits == spec_le_u32(bytes@, 4)
            &&& p.stroke_bits == spec_le_u32(bytes@, 8)
            &&& p.sensation_bits == spec_le_u32(bytes@, 12)
            &&& p.pattern_bits == spec_le_u32(bytes@, 16)
            &&& bytes@[20] == (if p.rstate { 1u8 } else { 0u8 })
            &&& bytes@[21] == (if p.connected { 1u8 } else { 0u8 })
            &&& bytes@[22] == (if p.heartbeat { 1u8 } else { 0u8 })
            &&& p.command_code == spec_le_u32(bytes@, 24)
            &&& p.value_bits == spec_le_u32(bytes@, 28)
            &&& p.target == spec_signed_of_bits(spec_le_u32(bytes@, 32))
        },
{
    if bytes.len() != M5_PACKET_LEN {
        return None;
    }
    let rstate = match read_flag(bytes, 20) {
        Some(b) => b,
        None => { return None },
    };
    let connected = match read_flag(bytes, 21) {
        Some(b) => b,
        None => { return None },
    };
    let heartbeat = match read_flag(bytes, 22) {
        Some(b) => b,
        None => { return None },
    };
    // the padding byte is typed as a boolean on the wire too
    match read_flag(bytes, 23) {
        Some(_) => {},
        None => { return None },
    };
    let target_bits = read_le_u32(bytes, 32);
    let target: i64 = if target_bits >= 0x80000000 {
        target_bits as i64 - 0x100000000
    } else {
        target_bits as i64
    };
    Some(M5PacketFields {
        speed_bits: read_le_u32(bytes, 0),
        depth_bits: read_le_u32(bytes, 4),
        stroke_bits: read_le_u32(bytes, 8),
        sensation_bits: read_le_u32(bytes, 12),
        pattern_bits: read_le_u32(bytes, 16),
        rstate,
        connected,
        heartbeat,
        command_code: read_le_u32(bytes, 24),
        value_bits: read_le_u32(bytes, 28),
        target: target as i32,
    })
}

/// Encode a remote packet (the heartbeat and the On/Off echoes this
/// machine sends back).
pub fn build_m5_packet(fields: &M5PacketFields) -> (r: Vec<u8>)
    ensures
        r@ == fields.spec_bytes(),
        r@.len() == M5_PACKET_LEN,
{
    let mut out: Vec<u8> = Vec::new();
    push_le_u32(&mut out, fields.speed_bits);
    push_le_u32(&mut out, fields.depth_bits);
    push_le_u32(&mut out, fields.stroke_bits);
    push_le_u32(&mut out, fields.sensation_bits);
    push_le_u32(&mut out, fields.pattern_bits);
    out.push(if fields.rstate { 1 } else { 0 });
    out.push(if fields.connected { 1 } else { 0 });
    out.push(if fields.heartbeat { 1 } else { 0 });
    out.push(0);
    push_le_u32(&mut out, fields.command_code);
    push_le_u32(&mut out, fields.value_bits);
    proof {
        assert(fields.target as u32 == fields.target as u32);
    }
    let target_bits: u32 = #[verifier::truncate] (fields.target as u32);
    push_le_u32(&mut out, target_bits);
    proof {
        assert(out@ =~= fields.spec_bytes());
    }
    out
}


} // verus!
