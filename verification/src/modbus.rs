//! The Modbus-RTU motor protocol: register map, request frames, response
//! checks.  The byte-level framing is delegated to the rmodbus crate behind
//! trusted wrappers whose contracts state the frames bit for bit; the serial
//! port itself lives outside this crate, which only produces and consumes
//! byte buffers.

use vstd::prelude::*;

use crate::config::REVERSE_DIRECTION;
use crate::crc::crc16;

verus! {

/// The Modbus unit id of the motor drive.
pub const MOTOR_UNIT_ID: u8 = 1;

/// Highest target speed the drive accepts, in RPM.
pub const MAX_MOTOR_SPEED_RPM: u16 = 3000;

/// Errors of the motor link.
#[derive(Clone, Copy, PartialEq, Eq, Structural, Debug)]
pub enum MotorError {
    /// The serial line failed or returned a broken frame.
    Rs485Error,
    /// The drive did not answer in time.
    Timeout,
    /// The answer did not parse as the expected Modbus frame.
    Protocol,
}

/// The drive's writable registers.
#[derive(Clone, Copy, PartialEq, Eq, Structural, Debug)]
pub enum ReadWriteMotorRegisters {
    ModbusEnable,
    DriverOutputEnable,
    MotorTargetSpeed,
    MotorAcceleration,
    WeakMagneticAngle,
    SpeedRingProportionalCoefficient,
    SpeedLoopIntegrationTime,
    PositionRingProportionalCoefficient,
    SpeedFeedForward,
    DirPolarity,
    ElectronicGearNumerator,
    ElectronicGearDenominator,
    ParameterSaveFlag,
    AbsolutePositionLowU16,
    AbsolutePositionHighU16,
    StandstillMaxOutput,
    SpecificFunction,
}

/// The drive's read-only registers.
#[derive(Clone, Copy, PartialEq, Eq, Structural, Debug)]
pub enum ReadOnlyMotorRegisters {
    TargetPositionLowU16,
    TargetPositionHighU16,
    AlarmCode,
    SystemCurrent,
    MotorCurrentSpeed,
    SystemVoltage,
    SystemTemperature,
    SystemOutputPwm,
    DeviceAddress,
}

/// A register whose address can be read.
pub trait ReadableMotorRegister {
    /// The register's address, as a mathematical value.
    spec fn spec_addr(&self) -> u16;

    /// The register's address on the bus.
    fn addr(&self) -> (r: u16)
        ensures
            r == self.spec_addr(),
    ;
}

impl ReadWriteMotorRegisters {
    pub open spec fn spec_register_addr(self) -> u16 {
        match self {
            ReadWriteMotorRegisters::ModbusEnable => 0x00,
            ReadWriteMotorRegisters::DriverOutputEnable => 0x01,
            ReadWriteMotorRegisters::MotorTargetSpeed => 0x02,
            ReadWriteMotorRegisters::MotorAcceleration => 0x03,
            ReadWriteMotorRegisters::WeakMagneticAngle => 0x04,
            ReadWriteMotorRegisters::SpeedRingProportionalCoefficient => 0x05,
            ReadWriteMotorRegisters::SpeedLoopIntegrationTime => 0x06,
            ReadWriteMotorRegisters::PositionRingProportionalCoefficient => 0x07,
            ReadWriteMotorRegisters::SpeedFeedForward => 0x08,
            ReadWriteMotorRegisters::DirPolarity => 0x09,
            ReadWriteMotorRegisters::ElectronicGearNumerator => 0x0A,
            ReadWriteMotorRegisters::ElectronicGearDenominator => 0x0B,
            ReadWriteMotorRegisters::ParameterSaveFlag => 0x14,
            ReadWriteMotorRegisters::AbsolutePositionLowU16 => 0x16,
            ReadWriteMotorRegisters::AbsolutePositionHighU16 => 0x17,
            ReadWriteMotorRegisters::StandstillMaxOutput => 0x18,
            ReadWriteMotorRegisters::SpecificFunction => 0x19,
        }
    }
}

impl ReadOnlyMotorRegisters {
    pub open spec fn spec_register_addr(self) -> u16 {
        match self {
            ReadOnlyMotorRegisters::TargetPositionLowU16 => 0x0C,
            ReadOnlyMotorRegisters::TargetPositionHighU16 => 0x0D,
            ReadOnlyMotorRegisters::AlarmCode => 0x0E,
            ReadOnlyMotorRegisters::SystemCurrent => 0x0F,
            ReadOnlyMotorRegisters::MotorCurrentSpeed => 0x10,
            ReadOnlyMotorRegisters::SystemVoltage => 0x11,
            ReadOnlyMotorRegisters::SystemTemperature => 0x12,
            ReadOnlyMotorRegisters::SystemOutputPwm => 0x13,
            ReadOnlyMotorRegisters::DeviceAddress => 0x15,
        }
    }
}

impl ReadableMotorRegister for ReadWriteMotorRegisters {
    open spec fn spec_addr(&self) -> u16 {
        self.spec_register_addr()
    }

    fn addr(&self) -> (r: u16) {
        match self {
            ReadWriteMotorRegisters::ModbusEnable => 0x00,
            ReadWriteMotorRegisters::DriverOutputEnable => 0x01,
            ReadWriteMotorRegisters::MotorTargetSpeed => 0x02,
            ReadWriteMotorRegisters::MotorAcceleration => 0x03,
            ReadWriteMotorRegisters::WeakMagneticAngle => 0x04,
            ReadWriteMotorRegisters::SpeedRingProportionalCoefficient => 0x05,
            ReadWriteMotorRegisters::SpeedLoopIntegrationTime => 0x06,
            ReadWriteMotorRegisters::PositionRingProportionalCoefficient => 0x07,
            ReadWriteMotorRegisters::SpeedFeedForward => 0x08,
            ReadWriteMotorRegisters::DirPolarity => 0x09,
            ReadWriteMotorRegisters::ElectronicGearNumerator => 0x0A,
            ReadWriteMotorRegisters::ElectronicGearDenominator => 0x0B,
            ReadWriteMotorRegisters::ParameterSaveFlag => 0x14,
            ReadWriteMotorRegisters::AbsolutePositionLowU16 => 0x16,
            ReadWriteMotorRegisters::AbsolutePositionHighU16 => 0x17,
            ReadWriteMotorRegisters::StandstillMaxOutput => 0x18,
            ReadWriteMotorRegisters::SpecificFunction => 0x19,
        }
    }
}

impl ReadableMotorRegister for ReadOnlyMotorRegisters {
    open spec fn spec_addr(&self) -> u16 {
        self.spec_register_addr()
    }

    fn addr(&self) -> (r: u16) {
        match self {
            ReadOnlyMotorRegisters::TargetPositionLowU16 => 0x0C,
            ReadOnlyMotorRegisters::TargetPositionHighU16 => 0x0D,
            ReadOnlyMotorRegisters::AlarmCode => 0x0E,
            ReadOnlyMotorRegisters::SystemCurrent => 0x0F,
            ReadOnlyMotorRegisters::MotorCurrentSpeed => 0x10,
            ReadOnlyMotorRegisters::SystemVoltage => 0x11,
            ReadOnlyMotorRegisters::SystemTemperature => 0x12,
            ReadOnlyMotorRegisters::SystemOutputPwm => 0x13,
            ReadOnlyMotorRegisters::DeviceAddress => 0x15,
        }
    }
}

/// The baud rates the drive knows.
#[derive(Clone, Copy, PartialEq, Eq, Structural, Debug)]
pub enum MotorBaudRate {
    Baud115200,
    Baud38400,
    Baud19200,
    Baud9600,
}

impl MotorBaudRate {
    /// The baud rate in bits per second.
    pub fn as_int(&self) -> (r: u32)
        ensures
            r == match *self {
                MotorBaudRate::Baud115200 => 115200u32,
                MotorBaudRate::Baud38400 => 38400u32,
                MotorBaudRate::Baud19200 => 19200u32,
                MotorBaudRate::Baud9600 => 9600u32,
            },
    {
        match self {
            MotorBaudRate::Baud115200 => 115200,
            MotorBaudRate::Baud38400 => 38400,
            MotorBaudRate::Baud19200 => 19200,
            MotorBaudRate::Baud9600 => 9600,
        }
    }

    /// The value the drive's baud-rate programming sequence writes for this
    /// rate.
    pub fn register_value(&self) -> (r: u16)
        ensures
            r == match *self {
                MotorBaudRate::Baud115200 => 803u16,
                MotorBaudRate::Baud38400 => 802u16,
                MotorBaudRate::Baud19200 => 801u16,
                MotorBaudRate::Baud9600 => 800u16,
            },
    {
        match self {
            MotorBaudRate::Baud115200 => 803,
            MotorBaudRate::Baud38400 => 802,
            MotorBaudRate::Baud19200 => 801,
            MotorBaudRate::Baud9600 => 800,
        }
    }
}

/// High byte of a big-endian word.
pub open spec fn be_hi(x: u16) -> u8 {
    (x >> 8) as u8
}

/// Low byte of a big-endian word.
pub open spec fn be_lo(x: u16) -> u8 {
    (x & 0xff) as u8
}

/// The RTU write-single-holding request frame.
pub open spec fn spec_write_register_request(unit: u8, reg: u16, value: u16) -> Seq<u8> {
    let body = seq![unit, 6u8, be_hi(reg), be_lo(reg), be_hi(value), be_lo(value)];
    let crc = crc16(body);
    body + seq![be_lo(crc), be_hi(crc)]
}

/// The RTU read-holdings request frame.
pub open spec fn spec_read_registers_request(unit: u8, reg: u16, count: u16) -> Seq<u8> {
    let body = seq![unit, 3u8, be_hi(reg), be_lo(reg), be_hi(count), be_lo(count)];
    let crc = crc16(body);
    body + seq![be_lo(crc), be_hi(crc)]
}

/// A frame whose trailing two bytes are the little-endian CRC of the rest.
pub open spec fn spec_frame_crc_valid(frame: Seq<u8>) -> bool {
    frame.len() >= 2 && {
        let crc = crc16(frame.take(frame.len() - 2));
        frame[frame.len() - 2] == be_lo(crc) && frame[frame.len() - 1] == be_hi(crc)
    }
}

/// The register words carried by a read-holdings response: big-endian pairs
/// of the data bytes, at most `count` of them.
pub open spec fn spec_response_holdings(response: Seq<u8>, count: nat) -> Seq<u16> {
    let pairs = (response.len() - 5) as int / 2;
    let n = vstd::math::min(count as int, pairs);
    Seq::new(
        n as nat,
        |i: int| ((response[3 + 2 * i] as int) * 256 + response[4 + 2 * i] as int) as u16,
    )
}

/// Relies on rmodbus's `ModbusRequest::generate_set_holding`: the RTU
/// write-single-holding frame is the unit id, function 6, the register and
/// the value big-endian, and the CRC-16/MODBUS of those six bytes appended
/// little-endian.
#[verifier::external_body]
fn rmodbus_write_register_frame(unit_id: u8, reg: u16, value: u16) -> (r: Vec<u8>)
    ensures
        r@ == spec_write_register_request(unit_id, reg, value),
{
    let mut request = rmodbus::client::ModbusRequest::new(unit_id, rmodbus::ModbusProto::Rtu);
    let mut frame: Vec<u8> = Vec::new();
    request.generate_set_holding(reg, value, &mut frame).expect("an eight-byte frame always fits");
    frame
}

/// Relies on rmodbus's `ModbusRequest::generate_get_holdings`: the RTU
/// read-holdings frame is the unit id, function 3, the register and the
/// count big-endian, and the CRC-16/MODBUS of those six bytes appended
/// little-endian.
#[verifier::external_body]
fn rmodbus_read_registers_frame(unit_id: u8, reg: u16, count: u16) -> (r: Vec<u8>)
    ensures
        r@ == spec_read_registers_request(unit_id, reg, count),
{
    let mut request = rmodbus::client::ModbusRequest::new(unit_id, rmodbus::ModbusProto::Rtu);
    let mut frame: Vec<u8> = Vec::new();
    request.generate_get_holdings(reg, count, &mut frame).expect(
        "an eight-byte frame always fits",
    );
    frame
}

/// Relies on rmodbus's `ModbusRequest::parse_ok`: it accepts exactly the
/// frames of five to 257 bytes with a valid trailing CRC, from this unit,
/// answering function 6.
#[verifier::external_body]
fn rmodbus_check_write_response(unit_id: u8, reg: u16, value: u16, response: &[u8]) -> (r: Result<
    (),
    (),
>)
    ensures
        r is Ok <==> {
            &&& 5 <= response@.len() <= 257
            &&& spec_frame_crc_valid(response@)
            &&& response@[0] == unit_id
            &&& response@[1] == 6
        },
{
    let mut request = rmodbus::client::ModbusRequest::new(unit_id, rmodbus::ModbusProto::Rtu);
    let mut scratch: Vec<u8> = Vec::new();
    request.generate_set_holding(reg, value, &mut scratch).expect(
        "an eight-byte frame always fits",
    );
    request.parse_ok(response).map_err(|_| ())
}

/// Relies on rmodbus's `ModbusRequest::parse_u16`: it accepts exactly the
/// frames of five to 257 bytes with a valid trailing CRC, from this unit,
/// answering function 3, whose byte-count byte covers the data window, and
/// returns the big-endian register words of that window, at most `count`
/// of them.  A five-byte frame is kept out: on the one CRC-valid shape of
/// that length the parser's data window is empty and its scan would fail
/// on the empty slice.
#[verifier::external_body]
fn rmodbus_parse_holdings(unit_id: u8, reg: u16, count: u16, response: &[u8]) -> (r: Result<
    Vec<u16>,
    (),
>)
    requires
        response@.len() != 5,
    ensures
        r is Ok <==> {
            &&& 5 <= response@.len() <= 257
            &&& spec_frame_crc_valid(response@)
            &&& response@[0] == unit_id
            &&& response@[1] == 3
            &&& 2 * response@[2] >= response@.len() - 5
        },
        r matches Ok(words) ==> words@ == spec_response_holdings(response@, count as nat),
{
    let mut request = rmodbus::client::ModbusRequest::new(unit_id, rmodbus::ModbusProto::Rtu);
    let mut scratch: Vec<u8> = Vec::new();
    request.generate_get_holdings(reg, count, &mut scratch).expect(
        "an eight-byte frame always fits",
    );
    let mut words: Vec<u16> = Vec::new();
    match request.parse_u16(response, &mut words) {
        Ok(()) => Ok(words),
        Err(_) => Err(()),
    }
}

/// Relies on rmodbus's `guess_response_frame_len` for RTU: a response to
/// functions 1 to 4 is the byte count at offset 2 plus five framing bytes
/// (rejected where that exceeds the 255-byte frame cap); a response to the
/// write functions is eight bytes; an exception response is five; any other
/// function byte is rejected.
#[verifier::external_body]
fn rmodbus_guess_frame_len(header: &[u8]) -> (r: Result<u8, ()>)
    requires
        header@.len() >= 3,
    ensures
        r is Ok <==> {
            ||| (1 <= header@[1] <= 4 && header@[2] <= 250)
            ||| header@[1] == 5
            ||| header@[1] == 6
            ||| header@[1] == 15
            ||| header@[1] == 16
            ||| header@[1] >= 0x80
        },
        r matches Ok(len) ==> {
            &&& (1 <= header@[1] <= 4 ==> len == header@[2] + 5)
            &&& ((header@[1] == 5 || header@[1] == 6 || header@[1] == 15 || header@[1] == 16)
                ==> len == 8)
            &&& (header@[1] >= 0x80 ==> len == 5)
        },
{
    rmodbus::guess_response_frame_len(header, rmodbus::ModbusProto::Rtu).map_err(|_| ())
}

/// Build the request frame that writes one motor register.
pub fn write_register_request(reg: &ReadWriteMotorRegisters, value: u16) -> (r: Vec<u8>)
    ensures
        r@ == spec_write_register_request(MOTOR_UNIT_ID, reg.spec_register_addr(), value),
{
    rmodbus_write_register_frame(MOTOR_UNIT_ID, reg.addr(), value)
}

/// Build the request frame that reads `count` registers starting at `reg`.
pub fn read_registers_request<T: ReadableMotorRegister>(reg: &T, count: u16) -> (r: Vec<u8>)
    ensures
        r@ == spec_read_registers_request(MOTOR_UNIT_ID, reg.spec_addr(), count),
{
    rmodbus_read_registers_frame(MOTOR_UNIT_ID, reg.addr(), count)
}

/// Check the drive's echo to a register write.
pub fn check_write_register_response(reg: &ReadWriteMotorRegisters, value: u16, response: &[u8])
    -> (r: Result<(), MotorError>)
    ensures
        r is Ok <==> {
            &&& 5 <= response@.len() <= 257
            &&& spec_frame_crc_valid(response@)
            &&& response@[0] == MOTOR_UNIT_ID
            &&& response@[1] == 6
        },
{
    match rmodbus_check_write_response(MOTOR_UNIT_ID, reg.addr(), value, response) {
        Ok(()) => Ok(()),
        Err(()) => Err(MotorError::Protocol),
    }
}

/// Extract the register words from the drive's answer to a read request.
pub fn parse_holding_registers(count: u16, response: &[u8]) -> (r: Result<Vec<u16>, MotorError>)
    ensures
        r is Ok <==> {
            &&& 6 <= response@.len() <= 257
            &&& spec_frame_crc_valid(response@)
            &&& response@[0] == MOTOR_UNIT_ID
            &&& response@[1] == 3
            &&& 2 * response@[2] >= response@.len() - 5
        },
        r matches Ok(words) ==> words@ == spec_response_holdings(response@, count as nat),
{
    if response.len() == 5 {
        // too short to carry a register, and rejected here because the
        // underlying parser does not tolerate an empty data window
        return Err(MotorError::Protocol);
    }
    // The register address only parametrises the request bookkeeping; any
    // read request state accepts the same responses.
    match rmodbus_parse_holdings(
        MOTOR_UNIT_ID,
        ReadOnlyMotorRegisters::TargetPositionLowU16.addr(),
        count,
        response,
    ) {
        Ok(words) => Ok(words),
        Err(()) => Err(MotorError::Protocol),
    }
}

/// How long the whole response frame will be, given its first three bytes.
pub fn guess_frame_len(header: &[u8]) -> (r: Result<u8, MotorError>)
    requires
        header@.len() >= 3,
    ensures
        r is Ok <==> {
            ||| (1 <= header@[1] <= 4 && header@[2] <= 250)
            ||| header@[1] == 5
            ||| header@[1] == 6
            ||| header@[1] == 15
            ||| header@[1] == 16
            ||| header@[1] >= 0x80
        },
        r matches Ok(len) ==> {
            &&& (1 <= header@[1] <= 4 ==> len == header@[2] + 5)
            &&& ((header@[1] == 5 || header@[1] == 6 || header@[1] == 15 || header@[1] == 16)
                ==> len == 8)
            &&& (header@[1] >= 0x80 ==> len == 5)
        },
{
    match rmodbus_guess_frame_len(header) {
        Ok(len) => Ok(len),
        Err(()) => Err(MotorError::Protocol),
    }
}

/// Homing is complete when the drive's remaining step error has fallen
/// under the threshold.
pub fn target_reached(target_position: i32, threshold: i32) -> (r: bool)
    requires
        threshold > i32::MIN,
        target_position > i32::MIN,
    ensures
        r == (vstd::math::abs(target_position as int) < threshold),
{
    let magnitude = if target_position < 0 {
        -target_position
    } else {
        target_position
    };
    magnitude < threshold
}

/// The default motor settings: high target speed and acceleration (the
/// motion-control loop owns the real kinematic limits), the stock
/// proportional coefficients, and the full output allowance.  The caller
/// performs each register write over the bus, in order.
pub fn set_motor_settings() -> (r: Vec<(ReadWriteMotorRegisters, u16)>)
    ensures
        r@.len() == 5,
        r@[0] == (ReadWriteMotorRegisters::MotorTargetSpeed, MAX_MOTOR_SPEED_RPM),
        r@[1] == (ReadWriteMotorRegisters::MotorAcceleration, 50000u16),
        r@[2] == (ReadWriteMotorRegisters::SpeedRingProportionalCoefficient, 3000u16),
        r@[3] == (ReadWriteMotorRegisters::PositionRingProportionalCoefficient, 3000u16),
        r@[4] == (ReadWriteMotorRegisters::StandstillMaxOutput, 600u16),
{
    let mut writes: Vec<(ReadWriteMotorRegisters, u16)> = Vec::new();
    writes.push((ReadWriteMotorRegisters::MotorTargetSpeed, MAX_MOTOR_SPEED_RPM));
    writes.push((ReadWriteMotorRegisters::MotorAcceleration, 50000));
    writes.push((ReadWriteMotorRegisters::SpeedRingProportionalCoefficient, 3000));
    writes.push((ReadWriteMotorRegisters::PositionRingProportionalCoefficient, 3000));
    writes.push((ReadWriteMotorRegisters::StandstillMaxOutput, 600));
    writes
}

/// Target speed used while the drive homes itself, in RPM.
pub const HOMING_TARGET_SPEED_RPM: u16 = 80;

/// Output allowance while the drive homes itself.
pub const HOMING_MAX_OUTPUT: u16 = 89;

/// The homing move counts as arrived once the drive's remaining step error
/// falls under this threshold.
pub const HOMING_TARGET_THRESHOLD_STEPS: i32 = 15;

/// Target speed for the slow travel to the envelope minimum after homing,
/// in RPM.
pub const POST_HOMING_TRAVEL_SPEED_RPM: u16 = 100;

/// The register writes that prepare the drive for homing: slow speed and
/// gentle output, the configured direction polarity, then the homing
/// trigger.  The caller performs each write over the bus in order, then
/// polls the remaining step error with `target_reached` against
/// `HOMING_TARGET_THRESHOLD_STEPS`.
pub fn homing_sequence() -> (r: Vec<(ReadWriteMotorRegisters, u16)>)
    ensures
        r@.len() == 4,
        r@[0] == (ReadWriteMotorRegisters::MotorTargetSpeed, HOMING_TARGET_SPEED_RPM),
        r@[1] == (ReadWriteMotorRegisters::StandstillMaxOutput, HOMING_MAX_OUTPUT),
        r@[2] == (ReadWriteMotorRegisters::DirPolarity, (if REVERSE_DIRECTION {
            1u16
        } else {
            0u16
        })),
        r@[3] == (ReadWriteMotorRegisters::SpecificFunction, 1u16),
{
    let mut writes: Vec<(ReadWriteMotorRegisters, u16)> = Vec::new();
    writes.push((ReadWriteMotorRegisters::MotorTargetSpeed, HOMING_TARGET_SPEED_RPM));
    writes.push((ReadWriteMotorRegisters::StandstillMaxOutput, HOMING_MAX_OUTPUT));
    writes.push((
        ReadWriteMotorRegisters::DirPolarity,
        if REVERSE_DIRECTION {
            1
        } else {
            0
        },
    ));
    writes.push((ReadWriteMotorRegisters::SpecificFunction, 1));
    writes
}

/// The register writes that follow a completed homing: re-enable the bus
/// (homing resets it) and set the slow travel speed.  The caller then
/// issues the absolute-position request for the envelope minimum and polls
/// `target_reached` again.
pub fn post_homing_sequence() -> (r: Vec<(ReadWriteMotorRegisters, u16)>)
    ensures
        r@.len() == 2,
        r@[0] == (ReadWriteMotorRegisters::ModbusEnable, 1u16),
        r@[1] == (ReadWriteMotorRegisters::MotorTargetSpeed, POST_HOMING_TRAVEL_SPEED_RPM),
{
    let mut writes: Vec<(ReadWriteMotorRegisters, u16)> = Vec::new();
    writes.push((ReadWriteMotorRegisters::ModbusEnable, 1));
    writes.push((ReadWriteMotorRegisters::MotorTargetSpeed, POST_HOMING_TRAVEL_SPEED_RPM));
    writes
}

/// The drive's baud-rate programming sequence: the magic run of register
/// writes that re-programs the bus speed.  The drive sends no reply to the
/// final write.
pub fn set_baud_rate(baud_rate: MotorBaudRate) -> (r: Vec<(ReadWriteMotorRegisters, u16)>)
    ensures
        r@.len() == 4,
        r@[0] == (ReadWriteMotorRegisters::ModbusEnable, 1u16),
        r@[1].0 == ReadWriteMotorRegisters::MotorAcceleration,
        r@[1].1 == match baud_rate {
            MotorBaudRate::Baud115200 => 803u16,
            MotorBaudRate::Baud38400 => 802u16,
            MotorBaudRate::Baud19200 => 801u16,
            MotorBaudRate::Baud9600 => 800u16,
        },
        r@[2] == (ReadWriteMotorRegisters::WeakMagneticAngle, 129u16),
        r@[3] == (ReadWriteMotorRegisters::ModbusEnable, 506u16),
{
    let mut writes: Vec<(ReadWriteMotorRegisters, u16)> = Vec::new();
    writes.push((ReadWriteMotorRegisters::ModbusEnable, 1));
    writes.push((ReadWriteMotorRegisters::MotorAcceleration, baud_rate.register_value()));
    writes.push((ReadWriteMotorRegisters::WeakMagneticAngle, 129));
    writes.push((ReadWriteMotorRegisters::ModbusEnable, 506));
    writes
}

/// The big-endian bytes of a 32-bit word.
pub open spec fn spec_be_bytes_u32(x: u32) -> Seq<u8> {
    seq![(x >> 24) as u8, (x >> 16) as u8, (x >> 8) as u8, x as u8]
}

/// The request frame of the drive's custom absolute-position command: the
/// unit id, function 0x7b, the step target big-endian, and the CRC of those
/// six bytes little-endian.
pub open spec fn spec_absolute_position_request(steps_bits: u32) -> Seq<u8> {
    let body = seq![MOTOR_UNIT_ID, 0x7bu8] + spec_be_bytes_u32(steps_bits);
    let crc = crc16(body);
    body + seq![be_lo(crc), be_hi(crc)]
}

/// Build the absolute-position request frame for a step target.
pub fn absolute_position_request(position_steps: i32) -> (r: Vec<u8>)
    ensures
        r@ == spec_absolute_position_request(position_steps as u32),
{
    let bits = position_steps as u32;
    let mut frame: Vec<u8> = Vec::new();
    frame.push(MOTOR_UNIT_ID);
    frame.push(0x7b);
    frame.push((bits >> 24) as u8);
    frame.push((bits >> 16) as u8);
    frame.push((bits >> 8) as u8);
    frame.push(#[verifier::truncate] (bits as u8));
    let crc = crate::crc::calc_crc16(frame.as_slice(), 6);
    proof {
        assert(frame@.take(6) =~= frame@);
        assert(frame@ =~= seq![MOTOR_UNIT_ID, 0x7bu8] + spec_be_bytes_u32(position_steps as u32));
    }
    frame.push((crc & 0xff) as u8);
    frame.push((crc >> 8) as u8);
    proof {
        assert(frame@ =~= spec_absolute_position_request(position_steps as u32));
    }
    frame
}

/// The signed 32-bit value held by two register words, low word first.
pub open spec fn spec_i32_of_registers(low: u16, high: u16) -> int {
    let v = (high as int) * 0x10000 + low as int;
    if v >= 0x80000000 {
        v - 0x100000000
    } else {
        v
    }
}

/// Combine the low and high register words of a 32-bit drive value.
pub fn registers_to_i32(low: u16, high: u16) -> (r: i32)
    ensures
        r == spec_i32_of_registers(low, high),
{
    let bits: u32 = (high as u32) * 0x10000 + (low as u32);
    let signed: i64 = if bits >= 0x80000000 {
        bits as i64 - 0x100000000
    } else {
        bits as i64
    };
    signed as i32
}

} // verus!
