use zdt_stepper::{
    format_buf, trigger_motion_boardcast, ControlPosition, ControlSpeed, DriverReq, EnableMotor,
    HaltMotor, MotionMode, RebootMotor, ResetFactory, ResetProtection, ResetZero,
    TriggerCalibration, TriggerMotion, CHECK_BYTE, SPEED_MAX,
};

#[test]
fn control_position_frame() {
    let req = ControlPosition {
        cw: true,
        speed: 0x0020,
        accel: 0x2,
        pos: 15_000,
        mode: MotionMode::LastTarget,
        buffer: false,
    }
    .make_req(2);
    assert_eq!(
        req,
        vec![0x02, 0xFD, 0x01, 0x00, 0x20, 0x02, 0x00, 0x00, 0x3A, 0x98, 0x00, 0x00, 0x6B]
    );
}

#[test]
fn control_position_modes_and_flags() {
    let req = ControlPosition {
        cw: false,
        speed: 0x1234,
        accel: 0xFF,
        pos: 0x0102_0304,
        mode: MotionMode::Absolute,
        buffer: true,
    }
    .make_req(7);
    assert_eq!(
        req,
        vec![0x07, 0xFD, 0x00, 0x0B, 0xB8, 0xFF, 0x01, 0x02, 0x03, 0x04, 0x01, 0x01, 0x6B]
    );
    let req = ControlPosition {
        cw: true,
        speed: 1000,
        accel: 0,
        pos: 60_000,
        mode: MotionMode::Relative,
        buffer: false,
    }
    .make_req(2);
    assert_eq!(
        req,
        vec![0x02, 0xFD, 0x01, 0x03, 0xE8, 0x00, 0x00, 0x00, 0xEA, 0x60, 0x02, 0x00, 0x6B]
    );
}

#[test]
fn control_speed_frame() {
    let req = ControlSpeed { cw: true, speed: 0x00, accel: 0x2, buffer: false }.make_req(2);
    assert_eq!(req, vec![0x02, 0xF6, 0x01, 0x00, 0x00, 0x02, 0x00, 0x6B]);
    let req = ControlSpeed { cw: false, speed: 1500, accel: 10, buffer: true }.make_req(1);
    assert_eq!(req, vec![0x01, 0xF6, 0x00, 0x05, 0xDC, 0x0A, 0x01, 0x6B]);
}

#[test]
fn speed_is_clamped() {
    assert_eq!(SPEED_MAX, 3000);
    let at_max = ControlSpeed { cw: true, speed: SPEED_MAX, accel: 1, buffer: false }.make_req(3);
    let above = ControlSpeed { cw: true, speed: 5000, accel: 1, buffer: false }.make_req(3);
    let top = ControlSpeed { cw: true, speed: u16::MAX, accel: 1, buffer: false }.make_req(3);
    let below = ControlSpeed { cw: true, speed: 2999, accel: 1, buffer: false }.make_req(3);
    assert_eq!(at_max, vec![0x03, 0xF6, 0x01, 0x0B, 0xB8, 0x01, 0x00, 0x6B]);
    assert_eq!(above, at_max);
    assert_eq!(top, at_max);
    assert_eq!(below, vec![0x03, 0xF6, 0x01, 0x0B, 0xB7, 0x01, 0x00, 0x6B]);
}

#[test]
fn position_speed_is_clamped() {
    let mk = |speed: u16| {
        ControlPosition {
            cw: false,
            speed,
            accel: 4,
            pos: 9,
            mode: MotionMode::LastTarget,
            buffer: false,
        }
        .make_req(1)
    };
    assert_eq!(mk(4000), mk(SPEED_MAX));
    assert_ne!(mk(2000), mk(SPEED_MAX));
    assert_eq!(&mk(4000)[3..5], &[0x0B, 0xB8]);
}

#[test]
fn enable_motor_frame() {
    let req = EnableMotor { enable: true, buffer: false }.make_req(2);
    assert_eq!(req, vec![0x02, 0xF3, 0xAB, 0x01, 0x00, 0x6B]);
    let req = EnableMotor { enable: false, buffer: true }.make_req(1);
    assert_eq!(req, vec![0x01, 0xF3, 0xAB, 0x00, 0x01, 0x6B]);
}

#[test]
fn halt_motor_frame() {
    assert_eq!(HaltMotor { buffer: false }.make_req(1), vec![0x01, 0xFE, 0x98, 0x00, 0x6B]);
    assert_eq!(HaltMotor { buffer: true }.make_req(4), vec![0x04, 0xFE, 0x98, 0x01, 0x6B]);
}

#[test]
fn simple_command_frames() {
    assert_eq!(TriggerCalibration.make_req(1), vec![0x01, 0x06, 0x45, 0x6B]);
    assert_eq!(RebootMotor.make_req(1), vec![0x01, 0x08, 0x97, 0x6B]);
    assert_eq!(ResetZero.make_req(1), vec![0x01, 0x0A, 0x6D, 0x6B]);
    assert_eq!(ResetProtection.make_req(1), vec![0x01, 0x0E, 0x52, 0x6B]);
    assert_eq!(ResetFactory.make_req(1), vec![0x01, 0x0F, 0x5F, 0x6B]);
    assert_eq!(TriggerMotion.make_req(5), vec![0x05, 0xFF, 0x66, 0x6B]);
}

#[test]
fn op_codes() {
    assert_eq!(TriggerCalibration::OP_CODE, 0x06);
    assert_eq!(RebootMotor::OP_CODE, 0x08);
    assert_eq!(ResetZero::OP_CODE, 0x0A);
    assert_eq!(ResetProtection::OP_CODE, 0x0E);
    assert_eq!(ResetFactory::OP_CODE, 0x0F);
    assert_eq!(EnableMotor::OP_CODE, 0xF3);
    assert_eq!(ControlSpeed::OP_CODE, 0xF6);
    assert_eq!(ControlPosition::OP_CODE, 0xFD);
    assert_eq!(HaltMotor::OP_CODE, 0xFE);
    assert_eq!(TriggerMotion::OP_CODE, 0xFF);
    assert_eq!(CHECK_BYTE, 0x6B);
}

#[test]
fn broadcast_trigger() {
    assert_eq!(trigger_motion_boardcast(), vec![0x00, 0xFF, 0x66, 0x6B]);
    assert_eq!(trigger_motion_boardcast(), TriggerMotion.make_req(0));
}

#[test]
fn write_args_appends() {
    let mut buf = vec![0xAA, 0xBB];
    HaltMotor { buffer: true }.write_args(&mut buf);
    assert_eq!(buf, vec![0xAA, 0xBB, 0x98, 0x01]);
    ControlSpeed { cw: true, speed: 0x0102, accel: 3, buffer: false }.write_args(&mut buf);
    assert_eq!(buf, vec![0xAA, 0xBB, 0x98, 0x01, 0x01, 0x01, 0x02, 0x03, 0x00]);
}

#[test]
fn frame_layout_on_every_command() {
    let frames = vec![
        (TriggerMotion.make_req(9), 0xFF, 1),
        (EnableMotor { enable: true, buffer: true }.make_req(9), 0xF3, 3),
        (ControlSpeed { cw: true, speed: 7, accel: 7, buffer: true }.make_req(9), 0xF6, 5),
        (
            ControlPosition {
                cw: true,
                speed: 7,
                accel: 7,
                pos: 7,
                mode: MotionMode::Relative,
                buffer: true,
            }
            .make_req(9),
            0xFD,
            10,
        ),
        (HaltMotor { buffer: false }.make_req(9), 0xFE, 2),
    ];
    for (f, op, n) in frames {
        assert_eq!(f.len(), n + 3);
        assert_eq!(f[0], 9);
        assert_eq!(f[1], op);
        assert_eq!(f[f.len() - 1], 0x6B);
    }
}

#[test]
fn distinct_positions_give_distinct_frames() {
    let mk = |pos: u32, mode: MotionMode| {
        ControlPosition { cw: true, speed: 100, accel: 1, pos, mode, buffer: false }.make_req(1)
    };
    assert_ne!(mk(1, MotionMode::Absolute), mk(256, MotionMode::Absolute));
    assert_ne!(mk(1 << 24, MotionMode::Absolute), mk(1 << 16, MotionMode::Absolute));
    assert_ne!(mk(5, MotionMode::Absolute), mk(5, MotionMode::Relative));
    assert_eq!(mk(u32::MAX, MotionMode::Absolute)[6..10], [0xFF, 0xFF, 0xFF, 0xFF]);
}

#[test]
fn hex_text_of_a_frame() {
    assert_eq!(format_buf(&vec![]), "");
    assert_eq!(format_buf(&vec![0x6B]), "0x6B ");
    assert_eq!(format_buf(&vec![0x00, 0x0A, 0xFF, 0x9c]), "0x00 0x0A 0xFF 0x9C ");
    assert_eq!(format_buf(&trigger_motion_boardcast()), "0x00 0xFF 0x66 0x6B ");
    let direct: String = [0x12u8, 0xAB].iter().map(|b| format!("0x{:02X?} ", b)).collect();
    assert_eq!(format_buf(&vec![0x12, 0xAB]), direct);
}
