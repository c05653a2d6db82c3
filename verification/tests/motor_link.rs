//! The Modbus-RTU motor link: CRC, request frames, response parsing, and
//! the binary remote decisions.

use ossm_motion::crc::calc_crc16;
use ossm_motion::m5::{
    apply_m5_command, build_m5_packet, heartbeat_expired, parse_m5_packet, should_add_peer,
    M5Command, M5PacketFields, M5Reaction,
};
use ossm_motion::modbus::{
    absolute_position_request, check_write_register_response, guess_frame_len,
    homing_sequence, parse_holding_registers, post_homing_sequence, read_registers_request,
    registers_to_i32, set_baud_rate, set_motor_settings, target_reached, write_register_request,
    MotorBaudRate, ReadOnlyMotorRegisters, ReadWriteMotorRegisters, ReadableMotorRegister,
};
use ossm_motion::motion_control::ControlSetpoint;
use ossm_motion::motion_state::MotionState;

#[test]
fn crc16_matches_the_modbus_polynomial() {
    assert_eq!(calc_crc16(&[1, 2, 3], 3), 24929);
    assert_eq!(calc_crc16(&[], 0), 0xFFFF);
    // a length larger than the frame takes the whole frame
    assert_eq!(calc_crc16(&[1, 2, 3], 200), 24929);
    // a length smaller than the frame takes the prefix
    assert_eq!(calc_crc16(&[1, 2, 3, 9, 9], 3), 24929);
}

#[test]
fn register_addresses_follow_the_drive_map() {
    assert_eq!(ReadWriteMotorRegisters::ModbusEnable.addr(), 0x00);
    assert_eq!(ReadWriteMotorRegisters::MotorTargetSpeed.addr(), 0x02);
    assert_eq!(ReadWriteMotorRegisters::StandstillMaxOutput.addr(), 0x18);
    assert_eq!(ReadWriteMotorRegisters::SpecificFunction.addr(), 0x19);
    assert_eq!(ReadOnlyMotorRegisters::TargetPositionLowU16.addr(), 0x0C);
    assert_eq!(ReadOnlyMotorRegisters::SystemVoltage.addr(), 0x11);
}

#[test]
fn baud_rates_and_their_programming_values() {
    assert_eq!(MotorBaudRate::Baud115200.as_int(), 115200);
    assert_eq!(MotorBaudRate::Baud9600.as_int(), 9600);
    assert_eq!(MotorBaudRate::Baud115200.register_value(), 803);
    assert_eq!(MotorBaudRate::Baud19200.register_value(), 801);
}

#[test]
fn write_request_frame_is_built_through_the_modbus_stack() {
    let frame = write_register_request(&ReadWriteMotorRegisters::MotorTargetSpeed, 3000);
    assert_eq!(frame, vec![1, 6, 0, 2, 11, 184, 47, 72]);
}

#[test]
fn read_request_frame_is_built_through_the_modbus_stack() {
    let frame = read_registers_request(&ReadOnlyMotorRegisters::TargetPositionLowU16, 2);
    assert_eq!(frame, vec![1, 3, 0, 12, 0, 2, 4, 8]);
}

#[test]
fn absolute_position_frame_carries_the_steps_big_endian() {
    let frame = absolute_position_request(-155_648);
    assert_eq!(frame, vec![1, 123, 255, 253, 160, 0, 60, 36]);
}

#[test]
fn read_response_parses_into_register_words() {
    let response = [1, 3, 4, 18, 52, 86, 120, 129, 7];
    let words = parse_holding_registers(2, &response).expect("a valid frame parses");
    assert_eq!(words, vec![0x1234, 0x5678]);

    // a corrupt CRC is rejected
    let mut broken = response;
    broken[8] ^= 0xFF;
    assert!(parse_holding_registers(2, &broken).is_err());
    // so is a truncated frame
    assert!(parse_holding_registers(2, &response[..4]).is_err());
}

#[test]
fn write_echo_is_checked() {
    let echo = [1, 6, 0, 24, 2, 88, 9, 87];
    assert!(check_write_register_response(
        &ReadWriteMotorRegisters::StandstillMaxOutput,
        600,
        &echo,
    )
    .is_ok());
    let mut broken = echo;
    broken[4] ^= 0x01;
    assert!(check_write_register_response(
        &ReadWriteMotorRegisters::StandstillMaxOutput,
        600,
        &broken,
    )
    .is_err());
}

#[test]
fn frame_length_is_guessed_from_the_header() {
    assert_eq!(guess_frame_len(&[1, 3, 4]).unwrap(), 9);
    assert_eq!(guess_frame_len(&[1, 6, 0]).unwrap(), 8);
    assert_eq!(guess_frame_len(&[1, 0x83, 2]).unwrap(), 5);
    assert!(guess_frame_len(&[1, 0x2b, 0]).is_err());
}

#[test]
fn register_words_combine_into_signed_positions() {
    assert_eq!(registers_to_i32(0x1234, 0x0000), 0x1234);
    assert_eq!(registers_to_i32(0x0000, 0x8000), i32::MIN);
    assert_eq!(registers_to_i32(0xFFFF, 0xFFFF), -1);
    let steps: i32 = -155_648;
    let bits = steps as u32;
    assert_eq!(registers_to_i32(bits as u16, (bits >> 16) as u16), steps);
}

#[test]
fn homing_threshold_decision() {
    assert!(target_reached(0, 15));
    assert!(target_reached(14, 15));
    assert!(target_reached(-14, 15));
    assert!(!target_reached(15, 15));
    assert!(!target_reached(-15, 15));
}

#[test]
fn homing_write_sequences() {
    assert_eq!(
        homing_sequence(),
        vec![
            (ReadWriteMotorRegisters::MotorTargetSpeed, 80),
            (ReadWriteMotorRegisters::StandstillMaxOutput, 89),
            (ReadWriteMotorRegisters::DirPolarity, 0),
            (ReadWriteMotorRegisters::SpecificFunction, 1),
        ]
    );
    assert_eq!(
        post_homing_sequence(),
        vec![
            (ReadWriteMotorRegisters::ModbusEnable, 1),
            (ReadWriteMotorRegisters::MotorTargetSpeed, 100),
        ]
    );
}

#[test]
fn motor_setup_and_baud_sequences() {
    let settings = set_motor_settings();
    assert_eq!(settings[0], (ReadWriteMotorRegisters::MotorTargetSpeed, 3000));
    assert_eq!(settings[4], (ReadWriteMotorRegisters::StandstillMaxOutput, 600));
    let seq = set_baud_rate(MotorBaudRate::Baud115200);
    assert_eq!(
        seq,
        vec![
            (ReadWriteMotorRegisters::ModbusEnable, 1),
            (ReadWriteMotorRegisters::MotorAcceleration, 803),
            (ReadWriteMotorRegisters::WeakMagneticAngle, 129),
            (ReadWriteMotorRegisters::ModbusEnable, 506),
        ]
    );
}

#[test]
fn m5_command_codes_round_trip() {
    let all = [
        M5Command::Conn,
        M5Command::Speed,
        M5Command::Depth,
        M5Command::Stroke,
        M5Command::Sensation,
        M5Command::Pattern,
        M5Command::TorqueF,
        M5Command::TorqueR,
        M5Command::Off,
        M5Command::On,
        M5Command::SetupDI,
        M5Command::SetupDIF,
        M5Command::Reboot,
        M5Command::CumSpeed,
        M5Command::CumTime,
        M5Command::CumSize,
        M5Command::CumAccel,
        M5Command::Connect,
        M5Command::Heartbeat,
    ];
    for cmd in all {
        assert_eq!(M5Command::from_code(cmd.code()), Some(cmd));
    }
    assert_eq!(M5Command::from_code(8), None);
    assert_eq!(M5Command::from_code(1000), None);
}

#[test]
fn m5_commands_route_into_the_motion_state() {
    let mut state = MotionState::new();
    let mut sp = ControlSetpoint::new();

    let r = apply_m5_command(M5Command::On, 0, &mut state, &mut sp);
    assert!(state.motion_enabled);
    assert_eq!(r, M5Reaction { reply: Some(M5Command::On), heartbeat: false });

    let r = apply_m5_command(M5Command::Off, 0, &mut state, &mut sp);
    assert!(!state.motion_enabled);
    assert_eq!(r.reply, Some(M5Command::Off));

    apply_m5_command(M5Command::Depth, 90, &mut state, &mut sp);
    assert_eq!(state.depth, 50);

    apply_m5_command(M5Command::Stroke, 45, &mut state, &mut sp);
    assert_eq!(state.motion_length, 25);

    apply_m5_command(M5Command::Speed, 600, &mut state, &mut sp);
    assert_eq!(state.velocity, 100);

    apply_m5_command(M5Command::Sensation, -100, &mut state, &mut sp);
    assert_eq!(state.sensation, 0);

    apply_m5_command(M5Command::Pattern, 3, &mut state, &mut sp);
    assert_eq!(state.pattern, 3);

    let before = state;
    let r = apply_m5_command(M5Command::Heartbeat, 0, &mut state, &mut sp);
    assert_eq!(state, before);
    assert!(r.heartbeat);

    let r = apply_m5_command(M5Command::Reboot, 0, &mut state, &mut sp);
    assert_eq!(state, before);
    assert!(!r.heartbeat);
    assert_eq!(r.reply, None);
}

#[test]
fn pairing_and_heartbeat_watchdog_rules() {
    assert!(should_add_peer(1, true, false));
    assert!(!should_add_peer(2, true, false));
    assert!(!should_add_peer(1, false, false));
    assert!(!should_add_peer(1, true, true));

    assert!(!heartbeat_expired(0, 8000));
    assert!(heartbeat_expired(0, 8001));
    assert!(!heartbeat_expired(5000, 13_000));
    assert!(heartbeat_expired(5000, 13_001));
    // a clock that moved backwards does not trip the watchdog
    assert!(!heartbeat_expired(10_000, 0));
}

#[test]
fn m5_packet_round_trips_through_its_wire_form() {
    let packet = M5PacketFields {
        speed_bits: (600.0f32).to_bits(),
        depth_bits: (190.0f32).to_bits(),
        stroke_bits: 0,
        sensation_bits: 0,
        pattern_bits: 0,
        rstate: false,
        connected: true,
        heartbeat: true,
        command_code: M5Command::Heartbeat.code(),
        value_bits: (42.5f32).to_bits(),
        target: -1,
    };
    let bytes = build_m5_packet(&packet);
    assert_eq!(bytes.len(), 36);
    let parsed = parse_m5_packet(&bytes).expect("a built packet parses");
    assert_eq!(parsed, packet);
    assert_eq!(f32::from_bits(parsed.value_bits), 42.5);
    assert_eq!(f32::from_bits(parsed.speed_bits), 600.0);

    // a wrong length or a garbage flag byte is rejected
    assert!(parse_m5_packet(&bytes[..35]).is_none());
    let mut broken = bytes.clone();
    broken[21] = 7;
    assert!(parse_m5_packet(&broken).is_none());
    // the padding byte is a boolean on the wire as well
    let mut bad_pad = bytes.clone();
    bad_pad[23] = 9;
    assert!(parse_m5_packet(&bad_pad).is_none());
}
