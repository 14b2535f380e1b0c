//! The commands of the driver and the argument bytes each one sends.
use crate::frame::{frame, DriverReq};
use vstd::prelude::*;

verus! {

/// The highest speed a speed or position command sends; larger speeds are
/// sent as this one.
pub const SPEED_MAX: u16 = 0x0BB8;

/// The byte that stands for a flag: `1` when set, `0` when not.
pub open spec fn flag_byte(b: bool) -> u8 {
    if b {
        1
    } else {
        0
    }
}

/// The speed that is sent for a requested speed.
pub open spec fn sent_speed(speed: u16) -> u16 {
    if speed <= SPEED_MAX {
        speed
    } else {
        SPEED_MAX
    }
}

/// The big-endian bytes of a 16-bit value.
pub open spec fn be_u16(v: u16) -> Seq<u8> {
    seq![(v / 0x100) as u8, (v % 0x100) as u8]
}

/// The big-endian bytes of a 32-bit value.
pub open spec fn be_u32(v: u32) -> Seq<u8> {
    seq![
        (v / 0x100_0000) as u8,
        ((v / 0x1_0000) % 0x100) as u8,
        ((v / 0x100) % 0x100) as u8,
        (v % 0x100) as u8,
    ]
}

fn flag(b: bool) -> (r: u8)
    ensures
        r == flag_byte(b),
{
    if b {
        1
    } else {
        0
    }
}

fn clamp_speed(speed: u16) -> (r: u16)
    ensures
        r == sent_speed(speed),
{
    if speed <= SPEED_MAX {
        speed
    } else {
        SPEED_MAX
    }
}

fn push_be_u16(buf: &mut Vec<u8>, v: u16)
    ensures
        final(buf)@ == old(buf)@ + be_u16(v),
{
    buf.push((v / 0x100) as u8);
    buf.push((v % 0x100) as u8);
    assert(buf@ =~= old(buf)@ + be_u16(v));
}

fn push_be_u32(buf: &mut Vec<u8>, v: u32)
    ensures
        final(buf)@ == old(buf)@ + be_u32(v),
{
    buf.push((v / 0x100_0000) as u8);
    buf.push(((v / 0x1_0000) % 0x100) as u8);
    buf.push(((v / 0x100) % 0x100) as u8);
    buf.push((v % 0x100) as u8);
    assert(buf@ =~= old(buf)@ + be_u32(v));
}

/// Starts the calibration of the encoder.
#[derive(Debug, Clone, Copy)]
pub struct TriggerCalibration;

impl DriverReq for TriggerCalibration {
    const OP_CODE: u8 = 0x06;

    open spec fn op_code() -> u8 {
        0x06
    }

    proof fn lemma_op_code() {
        assert(Self::OP_CODE == Self::op_code());
    }

    open spec fn args(&self) -> Seq<u8> {
        seq![0x45u8]
    }

    fn write_args(&self, buf: &mut Vec<u8>) {
        buf.push(0x45);
    }
}

/// Restarts the driver.
#[derive(Debug, Clone, Copy)]
pub struct RebootMotor;

impl DriverReq for RebootMotor {
    const OP_CODE: u8 = 0x08;

    open spec fn op_code() -> u8 {
        0x08
    }

    proof fn lemma_op_code() {
        assert(Self::OP_CODE == Self::op_code());
    }

    open spec fn args(&self) -> Seq<u8> {
        seq![0x97u8]
    }

    fn write_args(&self, buf: &mut Vec<u8>) {
        buf.push(0x97);
    }
}

/// Makes the present position the zero position.
#[derive(Debug, Clone, Copy)]
pub struct ResetZero;

impl DriverReq for ResetZero {
    const OP_CODE: u8 = 0x0A;

    open spec fn op_code() -> u8 {
        0x0A
    }

    proof fn lemma_op_code() {
        assert(Self::OP_CODE == Self::op_code());
    }

    open spec fn args(&self) -> Seq<u8> {
        seq![0x6Du8]
    }

    fn write_args(&self, buf: &mut Vec<u8>) {
        buf.push(0x6D);
    }
}

/// Clears the stall protection.
#[derive(Debug, Clone, Copy)]
pub struct ResetProtection;

impl DriverReq for ResetProtection {
    const OP_CODE: u8 = 0x0E;

    open spec fn op_code() -> u8 {
        0x0E
    }

    proof fn lemma_op_code() {
        assert(Self::OP_CODE == Self::op_code());
    }

    open spec fn args(&self) -> Seq<u8> {
        seq![0x52u8]
    }

    fn write_args(&self, buf: &mut Vec<u8>) {
        buf.push(0x52);
    }
}

/// Restores the factory settings.
#[derive(Debug, Clone, Copy)]
pub struct ResetFactory;

impl DriverReq for ResetFactory {
    const OP_CODE: u8 = 0x0F;

    open spec fn op_code() -> u8 {
        0x0F
    }

    proof fn lemma_op_code() {
        assert(Self::OP_CODE == Self::op_code());
    }

    open spec fn args(&self) -> Seq<u8> {
        seq![0x5Fu8]
    }

    fn write_args(&self, buf: &mut Vec<u8>) {
        buf.push(0x5F);
    }
}

/// Starts the motions that were buffered on every driver it reaches.
#[derive(Debug, Clone, Copy)]
pub struct TriggerMotion;

impl DriverReq for TriggerMotion {
    const OP_CODE: u8 = 0xFF;

    open spec fn op_code() -> u8 {
        0xFF
    }

    proof fn lemma_op_code() {
        assert(Self::OP_CODE == Self::op_code());
    }

    open spec fn args(&self) -> Seq<u8> {
        seq![0x66u8]
    }

    fn write_args(&self, buf: &mut Vec<u8>) {
        buf.push(0x66);
    }
}

/// Switches the motor on or off.
#[derive(Debug, Clone, Copy)]
pub struct EnableMotor {
    pub enable: bool,
    pub buffer: bool,
}

impl DriverReq for EnableMotor {
    const OP_CODE: u8 = 0xF3;

    open spec fn op_code() -> u8 {
        0xF3
    }

    proof fn lemma_op_code() {
        assert(Self::OP_CODE == Self::op_code());
    }

    open spec fn args(&self) -> Seq<u8> {
        seq![0xABu8, flag_byte(self.enable), flag_byte(self.buffer)]
    }

    fn write_args(&self, buf: &mut Vec<u8>) {
        buf.push(0xAB);
        buf.push(flag(self.enable));
        buf.push(flag(self.buffer));
        assert(buf@ =~= old(buf)@ + self.args());
    }
}

/// Turns the motor at a constant speed.
#[derive(Debug, Clone, Copy)]
pub struct ControlSpeed {
    pub cw: bool,
    pub speed: u16,
    pub accel: u8,
    pub buffer: bool,
}

impl DriverReq for ControlSpeed {
    const OP_CODE: u8 = 0xF6;

    open spec fn op_code() -> u8 {
        0xF6
    }

    proof fn lemma_op_code() {
        assert(Self::OP_CODE == Self::op_code());
    }

    open spec fn args(&self) -> Seq<u8> {
        seq![flag_byte(self.cw)] + be_u16(sent_speed(self.speed)) + seq![
            self.accel,
            flag_byte(self.buffer),
        ]
    }

    fn write_args(&self, buf: &mut Vec<u8>) {
        buf.push(flag(self.cw));
        push_be_u16(buf, clamp_speed(self.speed));
        buf.push(self.accel);
        buf.push(flag(self.buffer));
        assert(buf@ =~= old(buf)@ + self.args());
    }
}

/// How the position of a position command is read.
#[derive(Debug, Clone, Copy)]
pub enum MotionMode {
    LastTarget,
    Absolute,
    Relative,
}

/// The byte that names a motion mode on the wire.
pub open spec fn mode_byte(mode: MotionMode) -> u8 {
    match mode {
        MotionMode::LastTarget => 0,
        MotionMode::Absolute => 1,
        MotionMode::Relative => 2,
    }
}

fn mode_code(mode: MotionMode) -> (r: u8)
    ensures
        r == mode_byte(mode),
{
    match mode {
        MotionMode::LastTarget => 0,
        MotionMode::Absolute => 1,
        MotionMode::Relative => 2,
    }
}

/// Moves the motor by or to a position.
#[derive(Debug, Clone, Copy)]
pub struct ControlPosition {
    pub cw: bool,
    pub speed: u16,
    pub accel: u8,
    pub pos: u32,
    pub mode: MotionMode,
    pub buffer: bool,
}

impl DriverReq for ControlPosition {
    const OP_CODE: u8 = 0xFD;

    open spec fn op_code() -> u8 {
        0xFD
    }

    proof fn lemma_op_code() {
        assert(Self::OP_CODE == Self::op_code());
    }

    open spec fn args(&self) -> Seq<u8> {
        seq![flag_byte(self.cw)] + be_u16(sent_speed(self.speed)) + seq![self.accel] + be_u32(
            self.pos,
        ) + seq![mode_byte(self.mode), flag_byte(self.buffer)]
    }

    fn write_args(&self, buf: &mut Vec<u8>) {
        buf.push(flag(self.cw));
        push_be_u16(buf, clamp_speed(self.speed));
        buf.push(self.accel);
        push_be_u32(buf, self.pos);
        buf.push(mode_code(self.mode));
        buf.push(flag(self.buffer));
        assert(buf@ =~= old(buf)@ + self.args());
    }
}

/// Stops the motor at once.
#[derive(Debug, Clone, Copy)]
pub struct HaltMotor {
    pub buffer: bool,
}

impl DriverReq for HaltMotor {
    const OP_CODE: u8 = 0xFE;

    open spec fn op_code() -> u8 {
        0xFE
    }

    proof fn lemma_op_code() {
        assert(Self::OP_CODE == Self::op_code());
    }

    open spec fn args(&self) -> Seq<u8> {
        seq![0x98u8, flag_byte(self.buffer)]
    }

    fn write_args(&self, buf: &mut Vec<u8>) {
        buf.push(0x98);
        buf.push(flag(self.buffer));
        assert(buf@ =~= old(buf)@ + self.args());
    }
}

/// The request that starts the buffered motions of every driver at once:
/// a trigger sent to the broadcast address `0`.
pub fn trigger_motion_boardcast() -> (req: Vec<u8>)
    ensures
        req@ == frame(0, TriggerMotion::op_code(), TriggerMotion.args()),
        req@ == seq![0x00u8, 0xFFu8, 0x66u8, 0x6Bu8],
{
    TriggerMotion.make_req(0)
}

} // verus!
