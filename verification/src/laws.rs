//! What holds of every request the commands build.
use crate::frame::{frame, DriverReq};
use crate::hexdump::{byte_text, bytes_text, hex_digit};
use crate::requests::{
    be_u16, be_u32, sent_speed, ControlPosition, ControlSpeed, EnableMotor, HaltMotor, MotionMode,
    RebootMotor, ResetFactory, ResetProtection, ResetZero, TriggerCalibration, TriggerMotion,
    SPEED_MAX,
};
use vstd::prelude::*;

verus! {

/// A 16-bit value is read back from its big-endian bytes.
pub proof fn lemma_be_u16_injective(a: u16, b: u16)
    requires
        be_u16(a) == be_u16(b),
    ensures
        a == b,
{
    assert(be_u16(a)[0] == be_u16(b)[0] && be_u16(a)[1] == be_u16(b)[1]);
    assert(((a / 0x100) as u8 == (b / 0x100) as u8 && (a % 0x100) as u8 == (b % 0x100) as u8)
        ==> a == b) by (bit_vector);
}

/// A 32-bit value is read back from its big-endian bytes.
pub proof fn lemma_be_u32_injective(a: u32, b: u32)
    requires
        be_u32(a) == be_u32(b),
    ensures
        a == b,
{
    assert(be_u32(a)[0] == be_u32(b)[0] && be_u32(a)[1] == be_u32(b)[1]);
    assert(be_u32(a)[2] == be_u32(b)[2] && be_u32(a)[3] == be_u32(b)[3]);
    assert(((a / 0x100_0000) as u8 == (b / 0x100_0000) as u8 && ((a / 0x1_0000) % 0x100) as u8
        == ((b / 0x1_0000) % 0x100) as u8 && ((a / 0x100) % 0x100) as u8 == ((b / 0x100)
        % 0x100) as u8 && (a % 0x100) as u8 == (b % 0x100) as u8) ==> a == b) by (bit_vector);
}

/// A speed above `SPEED_MAX` is sent as `SPEED_MAX`: a speed command with
/// such a speed sends the same bytes as one with `SPEED_MAX`.
pub proof fn lemma_control_speed_saturates(c: ControlSpeed)
    requires
        c.speed >= SPEED_MAX,
    ensures
        c.args() == (ControlSpeed { speed: SPEED_MAX, ..c }).args(),
{
}

/// A speed above `SPEED_MAX` is sent as `SPEED_MAX`: a position command with
/// such a speed sends the same bytes as one with `SPEED_MAX`.
pub proof fn lemma_control_position_saturates(c: ControlPosition)
    requires
        c.speed >= SPEED_MAX,
    ensures
        c.args() == (ControlPosition { speed: SPEED_MAX, ..c }).args(),
{
}

/// The bytes of an enable command give back both of its flags.
pub proof fn lemma_enable_motor_decodes(c1: EnableMotor, c2: EnableMotor)
    requires
        c1.args() == c2.args(),
    ensures
        c1.enable == c2.enable,
        c1.buffer == c2.buffer,
{
    assert(c1.args()[1] == c2.args()[1] && c1.args()[2] == c2.args()[2]);
}

/// The bytes of a halt command give back its flag.
pub proof fn lemma_halt_motor_decodes(c1: HaltMotor, c2: HaltMotor)
    requires
        c1.args() == c2.args(),
    ensures
        c1.buffer == c2.buffer,
{
    assert(c1.args()[1] == c2.args()[1]);
}

/// The bytes of a speed command give back its direction, the speed that was
/// sent, its acceleration and its buffer flag.
pub proof fn lemma_control_speed_decodes(c1: ControlSpeed, c2: ControlSpeed)
    requires
        c1.args() == c2.args(),
    ensures
        c1.cw == c2.cw,
        sent_speed(c1.speed) == sent_speed(c2.speed),
        c1.accel == c2.accel,
        c1.buffer == c2.buffer,
{
    let (a1, a2) = (c1.args(), c2.args());
    assert(a1[0] == a2[0] && a1[3] == a2[3] && a1[4] == a2[4]);
    assert(a1.subrange(1, 3) =~= be_u16(sent_speed(c1.speed)));
    assert(a2.subrange(1, 3) =~= be_u16(sent_speed(c2.speed)));
    lemma_be_u16_injective(sent_speed(c1.speed), sent_speed(c2.speed));
}

/// The bytes of a position command give back its direction, the speed that
/// was sent, its acceleration, position, motion mode and buffer flag.
pub proof fn lemma_control_position_decodes(c1: ControlPosition, c2: ControlPosition)
    requires
        c1.args() == c2.args(),
    ensures
        c1.cw == c2.cw,
        sent_speed(c1.speed) == sent_speed(c2.speed),
        c1.accel == c2.accel,
        c1.pos == c2.pos,
        c1.mode == c2.mode,
        c1.buffer == c2.buffer,
{
    let (a1, a2) = (c1.args(), c2.args());
    assert(a1[0] == a2[0] && a1[3] == a2[3] && a1[8] == a2[8] && a1[9] == a2[9]);
    assert(a1.subrange(1, 3) =~= be_u16(sent_speed(c1.speed)));
    assert(a2.subrange(1, 3) =~= be_u16(sent_speed(c2.speed)));
    lemma_be_u16_injective(sent_speed(c1.speed), sent_speed(c2.speed));
    assert(a1.subrange(4, 8) =~= be_u32(c1.pos));
    assert(a2.subrange(4, 8) =~= be_u32(c2.pos));
    lemma_be_u32_injective(c1.pos, c2.pos);
}

/// The request a position command sends to `addr`, byte by byte: the
/// address, `0xFD`, the direction flag, the speed (at most 3000) as two
/// big-endian bytes, the acceleration, the position as four big-endian
/// bytes, the motion mode (0 last target, 1 absolute, 2 relative), the
/// buffer flag and `0x6B`. Each byte depends on its own field alone.
pub proof fn lemma_control_position_request(c: ControlPosition, addr: u8)
    ensures
        ({
            let r = frame(addr, ControlPosition::op_code(), c.args());
            &&& r.len() == 13
            &&& r[0] == addr
            &&& r[1] == 0xFD
            &&& r[2] == (if c.cw { 1u8 } else { 0u8 })
            &&& r[3] as int * 0x100 + r[4] as int == (if c.speed <= 3000 {
                c.speed as int
            } else {
                3000
            })
            &&& r[5] == c.accel
            &&& r[6] as int * 0x100_0000 + r[7] as int * 0x1_0000 + r[8] as int * 0x100
                + r[9] as int == c.pos as int
            &&& r[10] == (match c.mode {
                MotionMode::LastTarget => 0u8,
                MotionMode::Absolute => 1u8,
                MotionMode::Relative => 2u8,
            })
            &&& r[11] == (if c.buffer { 1u8 } else { 0u8 })
            &&& r[12] == 0x6B
        }),
{
    let r = frame(addr, ControlPosition::op_code(), c.args());
    let s = sent_speed(c.speed);
    let p = c.pos;
    assert(r[3] == (s / 0x100) as u8 && r[4] == (s % 0x100) as u8);
    assert(r[6] == (p / 0x100_0000) as u8 && r[7] == ((p / 0x1_0000) % 0x100) as u8);
    assert(r[8] == ((p / 0x100) % 0x100) as u8 && r[9] == (p % 0x100) as u8);
    assert(((s / 0x100) as u8) as int * 0x100 + ((s % 0x100) as u8) as int == s as int)
        by (bit_vector);
    assert(((p / 0x100_0000) as u8) as int * 0x100_0000 + (((p / 0x1_0000) % 0x100) as u8) as int
        * 0x1_0000 + (((p / 0x100) % 0x100) as u8) as int * 0x100 + ((p % 0x100) as u8) as int
        == p as int) by (bit_vector);
}

/// The request a speed command sends to `addr`, byte by byte: the address,
/// `0xF6`, the direction flag, the speed (at most 3000) as two big-endian
/// bytes, the acceleration, the buffer flag and `0x6B`. Each byte depends on
/// its own field alone.
pub proof fn lemma_control_speed_request(c: ControlSpeed, addr: u8)
    ensures
        ({
            let r = frame(addr, ControlSpeed::op_code(), c.args());
            &&& r.len() == 8
            &&& r[0] == addr
            &&& r[1] == 0xF6
            &&& r[2] == (if c.cw { 1u8 } else { 0u8 })
            &&& r[3] as int * 0x100 + r[4] as int == (if c.speed <= 3000 {
                c.speed as int
            } else {
                3000
            })
            &&& r[5] == c.accel
            &&& r[6] == (if c.buffer { 1u8 } else { 0u8 })
            &&& r[7] == 0x6B
        }),
{
    let r = frame(addr, ControlSpeed::op_code(), c.args());
    let s = sent_speed(c.speed);
    assert(r[3] == (s / 0x100) as u8 && r[4] == (s % 0x100) as u8);
    assert(((s / 0x100) as u8) as int * 0x100 + ((s % 0x100) as u8) as int == s as int)
        by (bit_vector);
}

/// The request an enable command sends to `addr`: the address, `0xF3`,
/// `0xAB`, the enable flag, the buffer flag and `0x6B`.
pub proof fn lemma_enable_motor_request(c: EnableMotor, addr: u8)
    ensures
        frame(addr, EnableMotor::op_code(), c.args()) == seq![
            addr,
            0xF3u8,
            0xABu8,
            if c.enable { 1u8 } else { 0u8 },
            if c.buffer { 1u8 } else { 0u8 },
            0x6Bu8,
        ],
{
    assert(frame(addr, EnableMotor::op_code(), c.args()) =~= seq![
        addr,
        0xF3u8,
        0xABu8,
        if c.enable { 1u8 } else { 0u8 },
        if c.buffer { 1u8 } else { 0u8 },
        0x6Bu8,
    ]);
}

/// The request a halt command sends to `addr`: the address, `0xFE`, `0x98`,
/// the buffer flag and `0x6B`.
pub proof fn lemma_halt_motor_request(c: HaltMotor, addr: u8)
    ensures
        frame(addr, HaltMotor::op_code(), c.args()) == seq![
            addr,
            0xFEu8,
            0x98u8,
            if c.buffer { 1u8 } else { 0u8 },
            0x6Bu8,
        ],
{
    assert(frame(addr, HaltMotor::op_code(), c.args()) =~= seq![
        addr,
        0xFEu8,
        0x98u8,
        if c.buffer { 1u8 } else { 0u8 },
        0x6Bu8,
    ]);
}

/// The requests of the commands without fields: the address, the op code,
/// one fixed byte and `0x6B`.
pub proof fn lemma_fixed_requests(addr: u8)
    ensures
        frame(addr, TriggerCalibration::op_code(), TriggerCalibration.args()) == seq![
            addr,
            0x06u8,
            0x45u8,
            0x6Bu8,
        ],
        frame(addr, RebootMotor::op_code(), RebootMotor.args()) == seq![
            addr,
            0x08u8,
            0x97u8,
            0x6Bu8,
        ],
        frame(addr, ResetZero::op_code(), ResetZero.args()) == seq![addr, 0x0Au8, 0x6Du8, 0x6Bu8],
        frame(addr, ResetProtection::op_code(), ResetProtection.args()) == seq![
            addr,
            0x0Eu8,
            0x52u8,
            0x6Bu8,
        ],
        frame(addr, ResetFactory::op_code(), ResetFactory.args()) == seq![
            addr,
            0x0Fu8,
            0x5Fu8,
            0x6Bu8,
        ],
        frame(addr, TriggerMotion::op_code(), TriggerMotion.args()) == seq![
            addr,
            0xFFu8,
            0x66u8,
            0x6Bu8,
        ],
{
    assert(frame(addr, TriggerCalibration::op_code(), TriggerCalibration.args()) =~= seq![
        addr,
        0x06u8,
        0x45u8,
        0x6Bu8,
    ]);
    assert(frame(addr, RebootMotor::op_code(), RebootMotor.args()) =~= seq![
        addr,
        0x08u8,
        0x97u8,
        0x6Bu8,
    ]);
    assert(frame(addr, ResetZero::op_code(), ResetZero.args()) =~= seq![
        addr,
        0x0Au8,
        0x6Du8,
        0x6Bu8,
    ]);
    assert(frame(addr, ResetProtection::op_code(), ResetProtection.args()) =~= seq![
        addr,
        0x0Eu8,
        0x52u8,
        0x6Bu8,
    ]);
    assert(frame(addr, ResetFactory::op_code(), ResetFactory.args()) =~= seq![
        addr,
        0x0Fu8,
        0x5Fu8,
        0x6Bu8,
    ]);
    assert(frame(addr, TriggerMotion::op_code(), TriggerMotion.args()) =~= seq![
        addr,
        0xFFu8,
        0x66u8,
        0x6Bu8,
    ]);
}

proof fn lemma_hex_digit_code(d: u8)
    requires
        d < 16,
    ensures
        hex_digit(d) as int == (if d < 10 { 48 + d } else { 55 + d }),
{
}

/// `text` shows byte `b` as the `i`-th group of five characters: `0`, `x`,
/// the upper-case hex digits of its high and low four bits (character codes
/// 48 to 57 for 0 to 9, 65 to 70 for 10 to 15), and a space.
pub open spec fn shows_byte_at(text: Seq<char>, i: int, b: u8) -> bool {
    &&& text[5 * i] == '0'
    &&& text[5 * i + 1] == 'x'
    &&& text[5 * i + 2] as int == (if b / 16 < 10 { 48 + b / 16 } else { 55 + b / 16 })
    &&& text[5 * i + 3] as int == (if b % 16 < 10 { 48 + b % 16 } else { 55 + b % 16 })
    &&& text[5 * i + 4] == ' '
}

/// The text of a buffer has five characters for every byte, and group `i`
/// of it shows byte `i`: every byte is shown, in order, and nothing else.
pub proof fn lemma_bytes_text_layout(bytes: Seq<u8>)
    ensures
        bytes_text(bytes).len() == 5 * bytes.len(),
        forall|i: int|
            0 <= i < bytes.len() ==> #[trigger] shows_byte_at(bytes_text(bytes), i, bytes[i]),
    decreases bytes.len(),
{
    if bytes.len() > 0 {
        let prev = bytes.drop_last();
        lemma_bytes_text_layout(prev);
        let t = bytes_text(bytes);
        let pt = bytes_text(prev);
        let last = byte_text(bytes.last());
        assert(t == pt + last);
        assert forall|i: int| 0 <= i < bytes.len() implies #[trigger] shows_byte_at(
            t,
            i,
            bytes[i],
        ) by {
            if i < bytes.len() - 1 {
                assert(prev[i] == bytes[i]);
                assert(shows_byte_at(pt, i, prev[i]));
                assert(t[5 * i] == pt[5 * i]);
                assert(t[5 * i + 1] == pt[5 * i + 1]);
                assert(t[5 * i + 2] == pt[5 * i + 2]);
                assert(t[5 * i + 3] == pt[5 * i + 3]);
                assert(t[5 * i + 4] == pt[5 * i + 4]);
            } else {
                let b = bytes.last();
                assert(b == bytes[i]);
                assert(t[5 * i] == last[0] && t[5 * i + 1] == last[1] && t[5 * i + 4] == last[4]);
                assert(t[5 * i + 2] == last[2] && t[5 * i + 3] == last[3]);
                lemma_hex_digit_code(b / 16);
                lemma_hex_digit_code(b % 16);
            }
        }
    }
}

} // verus!
