use vstd::prelude::*;

verus! {

/// Minimum time between two line changes, in microseconds.
pub const DELAY_USECS: u64 = 100;

const ADDRESS_AUTO_INCREMENT_1_MODE: u8 = 0x40;
const ADDRESS_COMMAND_BITS: u8 = 0xc0;
const ADDRESS_COMM_3: u8 = 0x80;
const DISPLAY_CONTROL_BRIGHTNESS_MASK: u8 = 0x07;

/// One action on the two open-drain lines of a display unit.
#[derive(Clone, Copy, Debug, PartialEq, Eq, Structural)]
pub enum BusOp {
    ClkHigh,
    ClkLow,
    DioHigh,
    DioLow,
    /// Wait `DELAY_USECS` before the next change.
    Delay,
    /// Release nothing more and wait until the unit pulls the data line low.
    WaitAck,
}

/// Frame start: data falls while the clock is high.
pub open spec fn start_ops() -> Seq<BusOp> {
    seq![
        BusOp::ClkHigh, BusOp::DioHigh, BusOp::Delay, BusOp::DioLow, BusOp::Delay,
        BusOp::ClkLow, BusOp::Delay,
    ]
}

/// Frame end: data rises while the clock is high.
pub open spec fn stop_ops() -> Seq<BusOp> {
    seq![
        BusOp::ClkLow, BusOp::Delay, BusOp::DioLow, BusOp::Delay, BusOp::ClkHigh,
        BusOp::Delay, BusOp::DioHigh, BusOp::Delay,
    ]
}

/// One bit: clock low, data set, clock high, a delay after each change.
pub open spec fn bit_ops(bit: bool) -> Seq<BusOp> {
    seq![
        BusOp::ClkLow, BusOp::Delay, if bit { BusOp::DioHigh } else { BusOp::DioLow },
        BusOp::Delay, BusOp::ClkHigh, BusOp::Delay,
    ]
}

/// Bit `i` of `data`, counting from the least significant.
pub open spec fn bit_at(data: u8, i: u8) -> bool {
    (data >> i) & 0x01 != 0
}

/// The first `n` bits of `data`, least significant first.
pub open spec fn bits_ops(data: u8, n: nat) -> Seq<BusOp>
    decreases n,
{
    if n == 0 {
        seq![]
    } else {
        bits_ops(data, (n - 1) as nat) + bit_ops(bit_at(data, (n - 1) as u8))
    }
}

/// After the eighth bit: release the data line, clock once, wait for the acknowledge.
pub open spec fn ack_ops() -> Seq<BusOp> {
    seq![
        BusOp::ClkLow, BusOp::Delay, BusOp::DioHigh, BusOp::Delay, BusOp::ClkHigh,
        BusOp::Delay, BusOp::WaitAck,
    ]
}

/// A whole byte with its acknowledge.
pub open spec fn byte_ops(data: u8) -> Seq<BusOp> {
    bits_ops(data, 8) + ack_ops()
}

/// A command byte in a frame of its own.
pub open spec fn cmd_ops(cmd: u8) -> Seq<BusOp> {
    start_ops() + byte_ops(cmd) + stop_ops()
}

/// An address byte and a data byte in one frame.
pub open spec fn data_ops(addr: u8, data: u8) -> Seq<BusOp> {
    start_ops() + byte_ops(addr) + byte_ops(data) + stop_ops()
}

/// The display-control value: a 3-bit level, with bit 3 set to power the unit on.
pub open spec fn brightness_value(level: u8, on: bool) -> u8 {
    (level & 0x07) | (if on { 0x08u8 } else { 0x00u8 })
}

/// The display-control command for a level and power state.
pub open spec fn brightness_cmd(level: u8, on: bool) -> u8 {
    (0x80 + brightness_value(level, on)) as u8
}

/// The operations of `set_brightness`.
pub open spec fn brightness_ops(level: u8, on: bool) -> Seq<BusOp> {
    start_ops() + cmd_ops(brightness_cmd(level, on)) + stop_ops()
}

/// The byte written at position `i` of a frame: the second one carries the colon bit.
pub open spec fn shown_byte(data: Seq<u8>, colon: bool, i: int) -> u8 {
    if i == 1 && colon { data[i] | 0x80 } else { data[i] }
}

/// The address writes of the first `n` positions of a frame.
pub open spec fn writes_ops(data: Seq<u8>, colon: bool, n: nat) -> Seq<BusOp>
    decreases n,
{
    if n == 0 {
        seq![]
    } else {
        writes_ops(data, colon, (n - 1) as nat) + data_ops(
            (0xc0 + (n - 1)) as u8,
            shown_byte(data, colon, n - 1),
        )
    }
}

/// The operations of `display`: mode command, frame start, the four address
/// writes, then brightness with power on.
pub open spec fn display_ops(data: Seq<u8>, colon: bool, brightness: u8) -> Seq<BusOp> {
    cmd_ops(0x40) + start_ops() + writes_ops(data, colon, 4) + brightness_ops(brightness, true)
}

/// What a recording bus sees of `display` at brightness 3: one mode command,
/// a frame start, four address writes at 0xC0, 0xC1, 0xC2, 0xC3 in that
/// order, the second byte carrying the top bit exactly when the colon is
/// requested, then one display-control command that carries `3 | 0x08`.
pub proof fn lemma_display_at_level_three(data: Seq<u8>, colon: bool)
    requires
        data.len() == 4,
        data[1] < 0x80,
    ensures
        display_ops(data, colon, 3) == cmd_ops(0x40) + start_ops() + data_ops(0xc0, data[0])
            + data_ops(0xc1, shown_byte(data, colon, 1)) + data_ops(0xc2, data[2]) + data_ops(
            0xc3,
            data[3],
        ) + start_ops() + cmd_ops(0x80u8 | (3u8 | 0x08u8)) + stop_ops(),
        (shown_byte(data, colon, 1) & 0x80 != 0) == colon,
        shown_byte(data, colon, 1) & 0x7f == data[1],
{
    let b = data[1];
    assert((b | 0x80u8) & 0x80u8 != 0 && (b | 0x80u8) & 0x7fu8 == b && b & 0x80u8 == 0 && b & 0x7fu8 == b)
        by (bit_vector)
        requires
            b < 0x80,
    ;
    assert((3u8 & 0x07u8) | 0x08u8 == 0x0bu8 && 0x80u8 | (3u8 | 0x08u8) == 0x8bu8) by (bit_vector);
    reveal_with_fuel(writes_ops, 5);
    assert(display_ops(data, colon, 3) =~= cmd_ops(0x40) + start_ops() + data_ops(0xc0, data[0])
        + data_ops(0xc1, shown_byte(data, colon, 1)) + data_ops(0xc2, data[2]) + data_ops(
        0xc3,
        data[3],
    ) + start_ops() + cmd_ops(0x80u8 | (3u8 | 0x08u8)) + stop_ops());
}

/// Protocol engine of one display unit. Each operation appends, in order, the
/// line actions it needs to the queue that the line owner drains with `take_ops`.
pub struct TM1637 {
    ops: Vec<BusOp>,
}

impl View for TM1637 {
    type V = Seq<BusOp>;

    /// The line actions queued and not yet taken.
    closed spec fn view(&self) -> Seq<BusOp> {
        self.ops@
    }
}

impl TM1637 {
    /// An engine with nothing queued.
    pub fn new() -> (r: TM1637)
        ensures
            r@ == Seq::<BusOp>::empty(),
    {
        TM1637 { ops: Vec::new() }
    }

    /// Hands out the queued line actions, leaving the queue empty.
    pub fn take_ops(&mut self) -> (r: Vec<BusOp>)
        ensures
            r@ == old(self)@,
            final(self)@ == Seq::<BusOp>::empty(),
    {
        let mut out: Vec<BusOp> = Vec::new();
        std::mem::swap(&mut self.ops, &mut out);
        out
    }

    fn push(&mut self, op: BusOp)
        ensures
            final(self)@ == old(self)@.push(op),
    {
        self.ops.push(op);
    }

    fn delay(&mut self)
        ensures
            final(self)@ == old(self)@.push(BusOp::Delay),
    {
        self.push(BusOp::Delay);
    }

    fn brightness(&self, level: u8, on: bool) -> (r: u8)
        ensures
            r == brightness_value(level, on),
            r <= 0x0f,
    {
        let r = (level & DISPLAY_CONTROL_BRIGHTNESS_MASK) | (if on { 0x08u8 } else { 0x00u8 });
        assert(r <= 0x0f) by (bit_vector)
            requires
                r == (level & 0x07) | (if on { 0x08u8 } else { 0x00u8 }),
        ;
        r
    }

    /// Sets the brightness level (its low three bits) and the power state.
    pub fn set_brightness(&mut self, level: u8, on: bool)
        ensures
            final(self)@ == old(self)@ + brightness_ops(level, on),
    {
        self.start();
        let brightness = self.brightness(level, on);
        assert(brightness & 0x0f == brightness) by (bit_vector)
            requires
                brightness <= 0x0f,
        ;
        self.write_cmd(ADDRESS_COMM_3 + (brightness & 0x0f));
        self.stop();
        assert(final(self)@ =~= old(self)@ + brightness_ops(level, on));
    }

    /// Powers the unit off.
    pub fn turn_off(&mut self)
        ensures
            final(self)@ == old(self)@ + brightness_ops(0, false),
    {
        self.set_brightness(0, false);
    }

    fn send_bit_and_delay(&mut self, bit: bool)
        ensures
            final(self)@ == old(self)@ + bit_ops(bit),
    {
        self.push(BusOp::ClkLow);
        self.delay();
        if bit {
            self.push(BusOp::DioHigh);
        } else {
            self.push(BusOp::DioLow);
        }
        self.delay();
        self.push(BusOp::ClkHigh);
        self.delay();
        assert(final(self)@ =~= old(self)@ + bit_ops(bit));
    }

    /// Sends a byte, least significant bit first, and waits for the acknowledge.
    pub fn write_byte(&mut self, data: u8)
        ensures
            final(self)@ == old(self)@ + byte_ops(data),
    {
        let ghost start = self@;
        let mut i: u8 = 0;
        while i < 8
            invariant
                i <= 8,
                self@ == start + bits_ops(data, i as nat),
            decreases 8 - i,
        {
            self.send_bit_and_delay((data >> i) & 0x01 != 0);
            assert(self@ =~= start + bits_ops(data, (i + 1) as nat));
            i = i + 1;
        }
        self.push(BusOp::ClkLow);
        self.delay();
        self.push(BusOp::DioHigh);
        self.delay();
        self.push(BusOp::ClkHigh);
        self.delay();
        self.push(BusOp::WaitAck);
        assert(self@ =~= start + byte_ops(data));
    }

    /// Marks the beginning of a frame.
    pub fn start(&mut self)
        ensures
            final(self)@ == old(self)@ + start_ops(),
    {
        self.push(BusOp::ClkHigh);
        self.push(BusOp::DioHigh);
        self.delay();
        self.push(BusOp::DioLow);
        self.delay();
        self.push(BusOp::ClkLow);
        self.delay();
        assert(final(self)@ =~= old(self)@ + start_ops());
    }

    /// Marks the end of a frame.
    pub fn stop(&mut self)
        ensures
            final(self)@ == old(self)@ + stop_ops(),
    {
        self.push(BusOp::ClkLow);
        self.delay();
        self.push(BusOp::DioLow);
        self.delay();
        self.push(BusOp::ClkHigh);
        self.delay();
        self.push(BusOp::DioHigh);
        self.delay();
        assert(final(self)@ =~= old(self)@ + stop_ops());
    }

    /// Sends one command byte in its own frame.
    pub fn write_cmd(&mut self, cmd: u8)
        ensures
            final(self)@ == old(self)@ + cmd_ops(cmd),
    {
        self.start();
        self.write_byte(cmd);
        self.stop();
        assert(final(self)@ =~= old(self)@ + cmd_ops(cmd));
    }

    /// Sends an address and a data byte in one frame.
    pub fn write_data(&mut self, addr: u8, data: u8)
        ensures
            final(self)@ == old(self)@ + data_ops(addr, data),
    {
        self.start();
        self.write_byte(addr);
        self.write_byte(data);
        self.stop();
        assert(final(self)@ =~= old(self)@ + data_ops(addr, data));
    }

    /// Shows four glyph patterns, with the colon lit on request, and powers
    /// the unit on at the given brightness.
    pub fn display(&mut self, data: [u8; 4], show_colon: bool, brightness: u8)
        ensures
            final(self)@ == old(self)@ + display_ops(data@, show_colon, brightness),
    {
        let ghost before = self@;
        self.write_cmd(ADDRESS_AUTO_INCREMENT_1_MODE);
        self.start();
        let ghost head = self@;
        let mut address: u8 = ADDRESS_COMMAND_BITS;
        let mut index: usize = 0;
        while index < 4
            invariant
                index <= 4,
                address == 0xc0 + index,
                head == before + cmd_ops(0x40) + start_ops(),
                self@ == head + writes_ops(data@, show_colon, index as nat),
            decreases 4 - index,
        {
            let mut data_item = data[index];
            if index == 1 && show_colon {
                data_item = data_item | 0b10000000;
            }
            self.write_data(address, data_item);
            assert(self@ =~= head + writes_ops(data@, show_colon, (index + 1) as nat));
            address = address + 1;
            index = index + 1;
        }
        self.set_brightness(brightness, true);
        assert(self@ =~= before + display_ops(data@, show_colon, brightness));
    }
}

} // verus!
