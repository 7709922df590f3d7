use charl::bus::{
    BusDriver, BusLevels, BusOp, LineGroup, LineRequest, PinAction, ENABLE_PULSE_US, SETTLE_US,
};
use charl::error::ErrorKind;
use charl::PinMap;

fn pins() -> PinMap {
    PinMap { rs: 10, rw: 9, en: 11, d4: 5, d5: 6, d6: 13, d7: 19 }
}

fn control(register_select: bool, enable: bool) -> BusOp {
    BusOp::SetControl { register_select, enable }
}

fn drive(group: LineGroup, values: u8) -> PinAction {
    PinAction::Drive { group, values }
}

#[test]
fn the_pulse_times_are_microseconds() {
    assert_eq!(ENABLE_PULSE_US, 1);
    assert_eq!(SETTLE_US, 50);
}

#[test]
fn a_new_driver_holds_the_requested_levels() {
    let driver = BusDriver::new(pins());
    assert_eq!(driver.pins(), pins());
    assert_eq!(driver.levels(), BusLevels { register_select: true, enable: false, data: 0 });
}

#[test]
fn the_lines_are_requested_in_four_groups() {
    let driver = BusDriver::new(pins());
    assert_eq!(
        driver.line_requests(),
        vec![
            LineRequest { group: LineGroup::RegisterSelect, pins: vec![10], initial: 1 },
            LineRequest { group: LineGroup::ReadWrite, pins: vec![9], initial: 0 },
            LineRequest { group: LineGroup::Enable, pins: vec![11], initial: 0 },
            LineRequest { group: LineGroup::Data, pins: vec![5, 6, 13, 19], initial: 0 },
        ]
    );
}

#[test]
fn a_byte_is_two_nibbles_high_nibble_first() {
    let ops = BusDriver::byte_transfer(true, 0x41);
    assert_eq!(
        ops,
        vec![
            control(true, false),
            BusOp::WriteNibble { value: 0x4 },
            control(true, true),
            BusOp::DelayUs { micros: 1 },
            control(true, false),
            BusOp::DelayUs { micros: 50 },
            control(true, false),
            BusOp::WriteNibble { value: 0x1 },
            control(true, true),
            BusOp::DelayUs { micros: 1 },
            control(true, false),
            BusOp::DelayUs { micros: 50 },
        ]
    );
}

#[test]
fn every_byte_has_exactly_two_nibble_writes_each_with_its_pulse() {
    for register_select in [false, true] {
        for byte in 0..=255u8 {
            let ops = BusDriver::byte_transfer(register_select, byte);
            let writes: Vec<usize> = (0..ops.len())
                .filter(|i| matches!(ops[*i], BusOp::WriteNibble { .. }))
                .collect();
            assert_eq!(writes, [1, 7]);
            assert_eq!(ops[1], BusOp::WriteNibble { value: byte >> 4 });
            assert_eq!(ops[7], BusOp::WriteNibble { value: byte & 0x0f });
            for at in writes {
                assert_eq!(ops[at - 1], control(register_select, false));
                assert_eq!(ops[at + 1], control(register_select, true));
                assert_eq!(ops[at + 2], BusOp::DelayUs { micros: ENABLE_PULSE_US });
                assert_eq!(ops[at + 3], control(register_select, false));
                assert_eq!(ops[at + 4], BusOp::DelayUs { micros: SETTLE_US });
            }
        }
    }
}

#[test]
fn a_nibble_transfer_is_one_write_and_one_pulse() {
    assert_eq!(
        BusDriver::nibble_transfer(false, 0x3),
        vec![
            control(false, false),
            BusOp::WriteNibble { value: 0x3 },
            control(false, true),
            BusOp::DelayUs { micros: 1 },
            control(false, false),
            BusOp::DelayUs { micros: 50 },
        ]
    );
}

#[test]
fn set_control_drives_register_select_before_enable() {
    let mut driver = BusDriver::new(pins());
    assert_eq!(
        driver.set_control(false, true),
        vec![drive(LineGroup::RegisterSelect, 0), drive(LineGroup::Enable, 1)]
    );
    assert_eq!(driver.levels(), BusLevels { register_select: false, enable: true, data: 0 });
    assert_eq!(
        driver.set_control(true, false),
        vec![drive(LineGroup::RegisterSelect, 1), drive(LineGroup::Enable, 0)]
    );
    assert_eq!(driver.levels(), BusLevels { register_select: true, enable: false, data: 0 });
}

#[test]
fn write_nibble_drives_the_low_four_bits() {
    let mut driver = BusDriver::new(pins());
    assert_eq!(driver.write_nibble(0x0a), vec![drive(LineGroup::Data, 0x0a)]);
    assert_eq!(driver.levels().data, 0x0a);
    assert_eq!(driver.write_nibble(0xf5), vec![drive(LineGroup::Data, 0x05)]);
    assert_eq!(driver.levels().data, 0x05);
    assert_eq!(driver.write_nibble(0x10), vec![drive(LineGroup::Data, 0x00)]);
    assert_eq!(driver.levels(), BusLevels { register_select: true, enable: false, data: 0 });
}

#[test]
fn apply_carries_out_each_kind_of_step() {
    let mut driver = BusDriver::new(pins());
    assert_eq!(
        driver.apply(control(false, true)),
        vec![drive(LineGroup::RegisterSelect, 0), drive(LineGroup::Enable, 1)]
    );
    assert_eq!(
        driver.apply(BusOp::WriteNibble { value: 0x7c }),
        vec![drive(LineGroup::Data, 0x0c)]
    );
    assert_eq!(
        driver.apply(BusOp::DelayUs { micros: 37 }),
        vec![PinAction::Sleep { micros: 37 }]
    );
    assert_eq!(driver.levels(), BusLevels { register_select: false, enable: true, data: 0x0c });
}

#[test]
fn sending_a_byte_drives_the_lines_in_order() {
    let mut driver = BusDriver::new(pins());
    let actions = driver.send_byte(false, 0xc8);
    let nibble = |value: u8| {
        vec![
            drive(LineGroup::RegisterSelect, 0),
            drive(LineGroup::Enable, 0),
            drive(LineGroup::Data, value),
            drive(LineGroup::RegisterSelect, 0),
            drive(LineGroup::Enable, 1),
            PinAction::Sleep { micros: 1 },
            drive(LineGroup::RegisterSelect, 0),
            drive(LineGroup::Enable, 0),
            PinAction::Sleep { micros: 50 },
        ]
    };
    let mut expected = nibble(0xc);
    expected.extend(nibble(0x8));
    assert_eq!(actions, expected);
    assert_eq!(driver.levels(), BusLevels { register_select: false, enable: false, data: 0x8 });
}

#[test]
fn running_no_steps_does_nothing() {
    let mut driver = BusDriver::new(pins());
    assert_eq!(driver.run(&Vec::new()), Vec::new());
    assert_eq!(driver.levels(), BusLevels { register_select: true, enable: false, data: 0 });
}

#[test]
fn running_steps_is_applying_them_one_by_one() {
    let steps = vec![control(false, false), BusOp::WriteNibble { value: 9 }, control(false, true)];
    let mut all_at_once = BusDriver::new(pins());
    let actions = all_at_once.run(&steps);
    let mut one_by_one = BusDriver::new(pins());
    let mut expected = Vec::new();
    for step in &steps {
        expected.extend(one_by_one.apply(*step));
    }
    assert_eq!(actions, expected);
    assert_eq!(all_at_once.levels(), one_by_one.levels());
    assert_eq!(all_at_once.levels(), BusLevels { register_select: false, enable: true, data: 9 });
}

#[test]
fn a_failed_write_is_reported_once() {
    let mut driver = BusDriver::new(pins());
    assert_eq!(driver.take_fault(), Ok(()));
    driver.report(true);
    assert_eq!(driver.take_fault(), Ok(()));
    driver.report(false);
    driver.report(true);
    assert_eq!(driver.take_fault(), Err(ErrorKind::PinIoError));
    assert_eq!(driver.take_fault(), Ok(()));
}

#[test]
fn a_fault_leaves_pins_and_levels_alone() {
    let mut driver = BusDriver::new(pins());
    driver.send_byte(true, 0x5a);
    driver.report(false);
    assert_eq!(driver.pins(), pins());
    assert_eq!(driver.levels(), BusLevels { register_select: true, enable: false, data: 0x0a });
    assert_eq!(driver.take_fault(), Err(ErrorKind::PinIoError));
    assert_eq!(driver.levels(), BusLevels { register_select: true, enable: false, data: 0x0a });
}
