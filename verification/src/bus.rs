//! The 4-bit parallel bus protocol of the controller.
//!
//! A byte goes over the bus as two nibbles, the high one first. Each nibble
//! is put on the four data lines while the enable line is low, and is latched
//! by one pulse of the enable line. The driver here decides what is done to
//! the lines and in which order; the caller does it, and tells the driver
//! when the transport failed.

use vstd::prelude::*;

use crate::error::ErrorKind;
use crate::PinMap;

verus! {

/// How long the enable line is held high to latch a nibble, in microseconds.
pub const ENABLE_PULSE_US: u32 = 1;

/// How long the controller is given to take a nibble in after the enable
/// line has gone low, in microseconds.
pub const SETTLE_US: u32 = 50;

/// One step of the bus protocol.
#[derive(Clone, Copy, Debug, PartialEq, Eq, Structural)]
pub enum BusOp {
    /// Set the register-select and the enable line.
    SetControl { register_select: bool, enable: bool },
    /// Put the low four bits of `value` on the data lines.
    WriteNibble { value: u8 },
    /// Wait.
    DelayUs { micros: u32 },
}

/// A set of lines that the transport drives together.
#[derive(Clone, Copy, Debug, PartialEq, Eq, Structural)]
pub enum LineGroup {
    RegisterSelect,
    ReadWrite,
    Enable,
    /// The four data lines; bit `i` of a value belongs to data line `4 + i`.
    Data,
}

/// The lines of one group as they are asked of the transport: their pin
/// numbers and the levels they start with, bit `i` of `initial` for `pins[i]`.
#[derive(Clone, Debug, PartialEq, Eq)]
pub struct LineRequest {
    pub group: LineGroup,
    pub pins: Vec<u32>,
    pub initial: u8,
}

/// One thing for the transport to do.
#[derive(Clone, Copy, Debug, PartialEq, Eq, Structural)]
pub enum PinAction {
    /// Set the lines of a group; bit `i` of `values` is the level of its
    /// `i`-th line.
    Drive { group: LineGroup, values: u8 },
    /// Sleep before the next action.
    Sleep { micros: u32 },
}

/// The levels that the driver has last set on the lines.
#[derive(Clone, Copy, Debug, PartialEq, Eq, Structural)]
pub struct BusLevels {
    pub register_select: bool,
    pub enable: bool,
    pub data: u8,
}

/// The upper four bits of a byte.
pub open spec fn high_nibble(byte: u8) -> u8 {
    (byte / 16) as u8
}

/// The lower four bits of a byte.
pub open spec fn low_nibble(byte: u8) -> u8 {
    (byte % 16) as u8
}

/// A logic level as the value of a group of one line.
pub open spec fn level(high: bool) -> u8 {
    if high {
        1
    } else {
        0
    }
}

/// The levels the lines are requested with: register-select high, enable
/// low, all data lines low.
pub open spec fn initial_levels() -> BusLevels {
    BusLevels { register_select: true, enable: false, data: 0 }
}

/// The steps that transfer one nibble: with the enable line low the nibble
/// goes on the data lines; the enable line then goes high for
/// `ENABLE_PULSE_US` and low again, and the controller gets `SETTLE_US`.
pub open spec fn nibble_ops(register_select: bool, nibble: u8) -> Seq<BusOp> {
    seq![
        BusOp::SetControl { register_select, enable: false },
        BusOp::WriteNibble { value: nibble },
        BusOp::SetControl { register_select, enable: true },
        BusOp::DelayUs { micros: ENABLE_PULSE_US },
        BusOp::SetControl { register_select, enable: false },
        BusOp::DelayUs { micros: SETTLE_US },
    ]
}

/// The steps that transfer one byte: its high nibble, then its low nibble.
pub open spec fn byte_ops(register_select: bool, byte: u8) -> Seq<BusOp> {
    nibble_ops(register_select, high_nibble(byte)) + nibble_ops(register_select, low_nibble(byte))
}

/// What the transport does for one step: the register-select line is set
/// before the enable line, a nibble is one write to the data lines, a delay
/// is a sleep.
pub open spec fn op_actions(op: BusOp) -> Seq<PinAction> {
    match op {
        BusOp::SetControl { register_select, enable } => seq![
            PinAction::Drive { group: LineGroup::RegisterSelect, values: level(register_select) },
            PinAction::Drive { group: LineGroup::Enable, values: level(enable) },
        ],
        BusOp::WriteNibble { value } => seq![
            PinAction::Drive { group: LineGroup::Data, values: low_nibble(value) },
        ],
        BusOp::DelayUs { micros } => seq![PinAction::Sleep { micros }],
    }
}

/// The levels on the lines after one step.
pub open spec fn levels_after(levels: BusLevels, op: BusOp) -> BusLevels {
    match op {
        BusOp::SetControl { register_select, enable } => BusLevels {
            register_select,
            enable,
            ..levels
        },
        BusOp::WriteNibble { value } => BusLevels { data: low_nibble(value), ..levels },
        BusOp::DelayUs { micros } => levels,
    }
}

/// What the transport does for a run of steps, in their order.
pub open spec fn actions_of(ops: Seq<BusOp>) -> Seq<PinAction>
    decreases ops.len(),
{
    if ops.len() == 0 {
        Seq::empty()
    } else {
        actions_of(ops.drop_last()) + op_actions(ops.last())
    }
}

/// The levels on the lines after a run of steps.
pub open spec fn levels_after_all(levels: BusLevels, ops: Seq<BusOp>) -> BusLevels
    decreases ops.len(),
{
    if ops.len() == 0 {
        levels
    } else {
        levels_after(levels_after_all(levels, ops.drop_last()), ops.last())
    }
}

/// The four requests that reserve the lines of the bus: register-select,
/// read/write, enable, and the four data lines as one group. The read/write
/// line is requested low and never driven again: the bus only writes.
pub open spec fn startup_requests(pins: PinMap) -> Seq<(LineGroup, Seq<u32>, u8)> {
    seq![
        (LineGroup::RegisterSelect, seq![pins.rs], 1u8),
        (LineGroup::ReadWrite, seq![pins.rw], 0u8),
        (LineGroup::Enable, seq![pins.en], 0u8),
        (LineGroup::Data, seq![pins.d4, pins.d5, pins.d6, pins.d7], 0u8),
    ]
}

impl View for LineRequest {
    type V = (LineGroup, Seq<u32>, u8);

    open spec fn view(&self) -> (LineGroup, Seq<u32>, u8) {
        (self.group, self.pins@, self.initial)
    }
}

/// What a bus driver is, as contracts see it.
pub struct BusView {
    pub pins: PinMap,
    pub levels: BusLevels,
    pub faulted: bool,
}

/// Drives the three control lines and four data lines of the controller.
#[derive(Debug)]
pub struct BusDriver {
    pins: PinMap,
    levels: BusLevels,
    faulted: bool,
}

impl View for BusDriver {
    type V = BusView;

    closed spec fn view(&self) -> BusView {
        BusView { pins: self.pins, levels: self.levels, faulted: self.faulted }
    }
}

impl BusDriver {
    /// A driver for the given pins. The lines are taken to be at the levels
    /// they are requested with, and nothing has failed yet.
    pub fn new(pins: PinMap) -> (driver: BusDriver)
        ensures
            driver@ == (BusView { pins, levels: initial_levels(), faulted: false }),
    {
        BusDriver {
            pins,
            levels: BusLevels { register_select: true, enable: false, data: 0 },
            faulted: false,
        }
    }

    /// The pins of the bus.
    pub fn pins(&self) -> (pins: PinMap)
        ensures
            pins == self@.pins,
    {
        self.pins
    }

    /// The levels the driver has last set.
    pub fn levels(&self) -> (levels: BusLevels)
        ensures
            levels == self@.levels,
    {
        self.levels
    }

    /// The lines to reserve before the bus is used, in the order in which
    /// they are to be requested.
    pub fn line_requests(&self) -> (requests: Vec<LineRequest>)
        ensures
            requests@.len() == 4,
            forall|i: int|
                0 <= i < 4 ==> (#[trigger] requests@[i])@ == startup_requests(self@.pins)[i],
    {
        let mut data: Vec<u32> = Vec::new();
        data.push(self.pins.d4);
        data.push(self.pins.d5);
        data.push(self.pins.d6);
        data.push(self.pins.d7);
        let mut rs: Vec<u32> = Vec::new();
        rs.push(self.pins.rs);
        let mut rw: Vec<u32> = Vec::new();
        rw.push(self.pins.rw);
        let mut en: Vec<u32> = Vec::new();
        en.push(self.pins.en);
        let mut requests: Vec<LineRequest> = Vec::new();
        requests.push(LineRequest { group: LineGroup::RegisterSelect, pins: rs, initial: 1 });
        requests.push(LineRequest { group: LineGroup::ReadWrite, pins: rw, initial: 0 });
        requests.push(LineRequest { group: LineGroup::Enable, pins: en, initial: 0 });
        requests.push(LineRequest { group: LineGroup::Data, pins: data, initial: 0 });
        proof {
            assert(requests@[0]@.1 =~= seq![self.pins.rs]);
            assert(requests@[1]@.1 =~= seq![self.pins.rw]);
            assert(requests@[2]@.1 =~= seq![self.pins.en]);
            assert(requests@[3]@.1 =~= seq![
                self.pins.d4,
                self.pins.d5,
                self.pins.d6,
                self.pins.d7,
            ]);
        }
        requests
    }

    /// Sets the register-select and the enable line: register-select first,
    /// so that it is stable when the enable line moves.
    pub fn set_control(&mut self, register_select: bool, enable: bool) -> (actions: Vec<PinAction>)
        ensures
            actions@ == op_actions(BusOp::SetControl { register_select, enable }),
            final(self)@ == (BusView {
                levels: levels_after(
                    old(self)@.levels,
                    BusOp::SetControl { register_select, enable },
                ),
                ..old(self)@
            }),
    {
        self.levels.register_select = register_select;
        self.levels.enable = enable;
        let mut actions: Vec<PinAction> = Vec::new();
        actions.push(
            PinAction::Drive {
                group: LineGroup::RegisterSelect,
                values: if register_select {
                    1
                } else {
                    0
                },
            },
        );
        actions.push(
            PinAction::Drive {
                group: LineGroup::Enable,
                values: if enable {
                    1
                } else {
                    0
                },
            },
        );
        assert(actions@ =~= op_actions(BusOp::SetControl { register_select, enable }));
        actions
    }

    /// Puts the low four bits of `value` on the data lines.
    pub fn write_nibble(&mut self, value: u8) -> (actions: Vec<PinAction>)
        ensures
            actions@ == op_actions(BusOp::WriteNibble { value }),
            final(self)@ == (BusView {
                levels: levels_after(old(self)@.levels, BusOp::WriteNibble { value }),
                ..old(self)@
            }),
    {
        let nibble: u8 = value & 0x0f;
        assert(nibble == value % 16) by (bit_vector)
            requires
                nibble == value & 0x0f,
        ;
        self.levels.data = nibble;
        let mut actions: Vec<PinAction> = Vec::new();
        actions.push(PinAction::Drive { group: LineGroup::Data, values: nibble });
        assert(actions@ =~= op_actions(BusOp::WriteNibble { value }));
        actions
    }

    /// Carries out one step of the protocol: what the transport has to do for
    /// it, with the levels of the driver brought up to date.
    pub fn apply(&mut self, op: BusOp) -> (actions: Vec<PinAction>)
        ensures
            actions@ == op_actions(op),
            final(self)@ == (BusView {
                levels: levels_after(old(self)@.levels, op),
                ..old(self)@
            }),
    {
        match op {
            BusOp::SetControl { register_select, enable } => self.set_control(
                register_select,
                enable,
            ),
            BusOp::WriteNibble { value } => self.write_nibble(value),
            BusOp::DelayUs { micros } => {
                let mut actions: Vec<PinAction> = Vec::new();
                actions.push(PinAction::Sleep { micros });
                assert(actions@ =~= op_actions(op));
                actions
            },
        }
    }

    /// The steps that transfer one nibble to the register chosen by
    /// `register_select`.
    pub fn nibble_transfer(register_select: bool, nibble: u8) -> (ops: Vec<BusOp>)
        ensures
            ops@ == nibble_ops(register_select, nibble),
    {
        let mut ops: Vec<BusOp> = Vec::new();
        ops.push(BusOp::SetControl { register_select, enable: false });
        ops.push(BusOp::WriteNibble { value: nibble });
        ops.push(BusOp::SetControl { register_select, enable: true });
        ops.push(BusOp::DelayUs { micros: ENABLE_PULSE_US });
        ops.push(BusOp::SetControl { register_select, enable: false });
        ops.push(BusOp::DelayUs { micros: SETTLE_US });
        assert(ops@ =~= nibble_ops(register_select, nibble));
        ops
    }

    /// The steps that transfer one byte to the register chosen by
    /// `register_select`: two nibble transfers, the high nibble first.
    pub fn byte_transfer(register_select: bool, byte: u8) -> (ops: Vec<BusOp>)
        ensures
            ops@ == byte_ops(register_select, byte),
    {
        let high: u8 = byte >> 4;
        let low: u8 = byte & 0x0f;
        assert(high == byte / 16 && low == byte % 16) by (bit_vector)
            requires
                high == byte >> 4,
                low == byte & 0x0f,
        ;
        let mut ops: Vec<BusOp> = Self::nibble_transfer(register_select, high);
        let mut second: Vec<BusOp> = Self::nibble_transfer(register_select, low);
        ops.append(&mut second);
        ops
    }

    /// Transfers one byte: everything the transport has to do for it, in
    /// order. The driver ends with the enable line low and the low nibble on
    /// the data lines.
    pub fn send_byte(&mut self, register_select: bool, byte: u8) -> (actions: Vec<PinAction>)
        ensures
            actions@ == actions_of(byte_ops(register_select, byte)),
            final(self)@ == (BusView {
                levels: BusLevels { register_select, enable: false, data: low_nibble(byte) },
                ..old(self)@
            }),
    {
        let ops: Vec<BusOp> = Self::byte_transfer(register_select, byte);
        let actions: Vec<PinAction> = self.run(&ops);
        proof {
            byte_transfer_ends_idle(old(self)@.levels, register_select, byte);
        }
        actions
    }

    /// Carries out a run of steps, one after the other.
    pub fn run(&mut self, ops: &Vec<BusOp>) -> (actions: Vec<PinAction>)
        ensures
            actions@ == actions_of(ops@),
            final(self)@ == (BusView {
                levels: levels_after_all(old(self)@.levels, ops@),
                ..old(self)@
            }),
    {
        let mut actions: Vec<PinAction> = Vec::new();
        let mut i: usize = 0;
        while i < ops.len()
            invariant
                i <= ops@.len(),
                actions@ == actions_of(ops@.subrange(0, i as int)),
                self@ == (BusView {
                    levels: levels_after_all(old(self)@.levels, ops@.subrange(0, i as int)),
                    ..old(self)@
                }),
            decreases ops@.len() - i,
        {
            let mut step: Vec<PinAction> = self.apply(ops[i]);
            actions.append(&mut step);
            proof {
                let next = ops@.subrange(0, i + 1);
                assert(next.drop_last() =~= ops@.subrange(0, i as int));
                assert(next.last() == ops@[i as int]);
            }
            i = i + 1;
        }
        assert(ops@.subrange(0, i as int) =~= ops@);
        actions
    }

    /// Notes how a write to the transport went. A failure is remembered until
    /// it is taken with `take_fault`.
    pub fn report(&mut self, delivered: bool)
        ensures
            final(self)@ == (BusView {
                faulted: old(self)@.faulted || !delivered,
                ..old(self)@
            }),
    {
        if !delivered {
            self.faulted = true;
        }
    }

    /// Says whether a write has failed since the last call, and forgets it:
    /// `PinIoError` if one has, so that the caller can write the frame again
    /// or leave it out.
    pub fn take_fault(&mut self) -> (result: Result<(), ErrorKind>)
        ensures
            result is Err <==> old(self)@.faulted,
            result matches Err(kind) ==> kind == ErrorKind::PinIoError,
            final(self)@ == (BusView { faulted: false, ..old(self)@ }),
    {
        let faulted: bool = self.faulted;
        self.faulted = false;
        if faulted {
            Err(ErrorKind::PinIoError)
        } else {
            Ok(())
        }
    }
}

/// The transfer of a byte is exactly two nibble writes, the high nibble
/// first and the low nibble second, and the two nibbles make up the byte.
/// Each write happens with the enable line low and is followed at once by
/// the pulse: enable high, the pulse time, enable low, the settling time.
pub proof fn byte_transfer_shape(register_select: bool, byte: u8)
    ensures
        ({
            let ops = byte_ops(register_select, byte);
            &&& ops.len() == 12
            &&& forall|i: int| 0 <= i < 12 ==> ((#[trigger] ops[i]) is WriteNibble <==> i == 1 || i == 7)
            &&& ops[1] == BusOp::WriteNibble { value: high_nibble(byte) }
            &&& ops[7] == BusOp::WriteNibble { value: low_nibble(byte) }
            &&& 16 * high_nibble(byte) + low_nibble(byte) == byte
            &&& forall|i: int|
                0 <= i < 12 && (#[trigger] ops[i]) is WriteNibble ==> {
                    &&& ops[i - 1] == BusOp::SetControl { register_select, enable: false }
                    &&& ops[i + 1] == BusOp::SetControl { register_select, enable: true }
                    &&& ops[i + 2] == BusOp::DelayUs { micros: ENABLE_PULSE_US }
                    &&& ops[i + 3] == BusOp::SetControl { register_select, enable: false }
                    &&& ops[i + 4] == BusOp::DelayUs { micros: SETTLE_US }
                }
        }),
{
}

/// Carrying out two runs of steps one after the other is carrying out the
/// run made of both: the transport does the same, and the lines end at the
/// same levels.
pub proof fn runs_concatenate(levels: BusLevels, first: Seq<BusOp>, second: Seq<BusOp>)
    ensures
        actions_of(first + second) == actions_of(first) + actions_of(second),
        levels_after_all(levels, first + second) == levels_after_all(
            levels_after_all(levels, first),
            second,
        ),
    decreases second.len(),
{
    if second.len() == 0 {
        assert(first + second =~= first);
        assert(actions_of(first) + actions_of(second) =~= actions_of(first));
    } else {
        runs_concatenate(levels, first, second.drop_last());
        assert((first + second).drop_last() =~= first + second.drop_last());
        assert((first + second).last() == second.last());
        assert(actions_of(first + second) =~= actions_of(first) + actions_of(second));
    }
}

/// What the transport does for one nibble, line by line: with the enable line
/// low the nibble goes on the data lines, then the enable line is pulsed.
pub open spec fn nibble_actions(register_select: bool, nibble: u8) -> Seq<PinAction> {
    let rs = PinAction::Drive { group: LineGroup::RegisterSelect, values: level(register_select) };
    seq![
        rs,
        PinAction::Drive { group: LineGroup::Enable, values: 0 },
        PinAction::Drive { group: LineGroup::Data, values: low_nibble(nibble) },
        rs,
        PinAction::Drive { group: LineGroup::Enable, values: 1 },
        PinAction::Sleep { micros: ENABLE_PULSE_US },
        rs,
        PinAction::Drive { group: LineGroup::Enable, values: 0 },
        PinAction::Sleep { micros: SETTLE_US },
    ]
}

/// The transfer of a byte reaches the transport as the actions of its high
/// nibble followed by the actions of its low nibble, and nothing else.
pub proof fn byte_transfer_actions(register_select: bool, byte: u8)
    ensures
        actions_of(nibble_ops(register_select, byte)) == nibble_actions(register_select, byte),
        actions_of(byte_ops(register_select, byte)) == nibble_actions(
            register_select,
            high_nibble(byte),
        ) + nibble_actions(register_select, low_nibble(byte)),
{
    nibble_actions_unfold(register_select, byte);
    nibble_actions_unfold(register_select, high_nibble(byte));
    nibble_actions_unfold(register_select, low_nibble(byte));
    runs_concatenate(
        initial_levels(),
        nibble_ops(register_select, high_nibble(byte)),
        nibble_ops(register_select, low_nibble(byte)),
    );
}

proof fn nibble_actions_unfold(register_select: bool, nibble: u8)
    ensures
        actions_of(nibble_ops(register_select, nibble)) == nibble_actions(register_select, nibble),
{
    let ops = nibble_ops(register_select, nibble);
    reveal_with_fuel(actions_of, 7);
    let s5 = ops.drop_last();
    let s4 = s5.drop_last();
    let s3 = s4.drop_last();
    let s2 = s3.drop_last();
    let s1 = s2.drop_last();
    assert(ops.last() == ops[5]);
    assert(s5.last() == ops[4]);
    assert(s4.last() == ops[3]);
    assert(s3.last() == ops[2]);
    assert(s2.last() == ops[1]);
    assert(s1.last() == ops[0]);
    assert(s1.drop_last().len() == 0);
    assert(actions_of(ops) =~= nibble_actions(register_select, nibble));
}

/// After the transfer of a nibble the enable line is low, the
/// register-select line is as the transfer asked, and the data lines hold
/// the nibble, whatever the lines held before.
pub proof fn nibble_transfer_ends_idle(levels: BusLevels, register_select: bool, nibble: u8)
    ensures
        levels_after_all(levels, nibble_ops(register_select, nibble)) == (BusLevels {
            register_select,
            enable: false,
            data: low_nibble(nibble),
        }),
{
    let ops = nibble_ops(register_select, nibble);
    reveal_with_fuel(levels_after_all, 7);
    let s5 = ops.drop_last();
    let s4 = s5.drop_last();
    let s3 = s4.drop_last();
    let s2 = s3.drop_last();
    let s1 = s2.drop_last();
    assert(ops.last() == ops[5]);
    assert(s5.last() == ops[4]);
    assert(s4.last() == ops[3]);
    assert(s3.last() == ops[2]);
    assert(s2.last() == ops[1]);
    assert(s1.last() == ops[0]);
    assert(s1.drop_last().len() == 0);
}

/// After the transfer of a byte the enable line is low, the register-select
/// line is as the transfer asked, and the data lines hold the low nibble,
/// whatever the lines held before.
pub proof fn byte_transfer_ends_idle(levels: BusLevels, register_select: bool, byte: u8)
    ensures
        levels_after_all(levels, byte_ops(register_select, byte)) == (BusLevels {
            register_select,
            enable: false,
            data: low_nibble(byte),
        }),
{
    let first = nibble_ops(register_select, high_nibble(byte));
    let second = nibble_ops(register_select, low_nibble(byte));
    runs_concatenate(levels, first, second);
    nibble_transfer_ends_idle(levels_after_all(levels, first), register_select, low_nibble(byte));
}

} // verus!
