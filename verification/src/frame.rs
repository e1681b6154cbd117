//! Bus frames and the enable-pulse framing of nibbles and bytes.

use vstd::prelude::*;
use crate::instruction::Backlight;
use crate::timing::{TimingProfile, LEGACY_NIBBLE_SETTLE_US, NIBBLE_SETTLE_US};

verus! {

/// One thing the caller has to do on the bus or the clock.
#[derive(Clone, Copy, Debug, PartialEq, Eq, Structural)]
pub enum BusOp {
    /// Write the single byte `frame` to the device at `address`.
    Write { address: u8, frame: u8 },
    /// Wait at least this many milliseconds.
    DelayMs(u32),
    /// Wait at least this many microseconds.
    DelayUs(u32),
}

/// The register a transfer is addressed to.
#[derive(Clone, Copy, Debug, PartialEq, Eq, Structural)]
pub enum Register {
    /// The instruction register.
    Command,
    /// The data register.
    Data,
}

impl Register {
    pub open spec fn spec_bits(self) -> u8 {
        match self {
            Register::Command => 0x00,
            Register::Data => 0x01,
        }
    }

    #[verifier::when_used_as_spec(spec_bits)]
    pub fn bits(self) -> (b: u8)
        ensures
            b == self.spec_bits(),
    {
        match self {
            Register::Command => 0x00,
            Register::Data => 0x01,
        }
    }
}

/// Bit of a frame that drives the controller's enable line.
pub const ENABLE: u8 = 0x04;

/// Bit of a frame that drives the read/write line. Never set: the driver only writes.
pub const READ_WRITE: u8 = 0x02;

/// The byte put on the expander for one half-cycle: the top four bits of
/// `high` as data, then backlight, enable, read/write (always clear) and
/// register select.
pub open spec fn frame_spec(high: u8, register: Register, enable: bool, backlight: Backlight) -> u8 {
    (high & 0xf0) | backlight.spec_bits() | (if enable {
        ENABLE
    } else {
        0x00u8
    }) | register.spec_bits()
}

/// Composes one bus frame.
pub fn frame(high: u8, register: Register, enable: bool, backlight: Backlight) -> (f: u8)
    ensures
        f == frame_spec(high, register, enable, backlight),
        f & 0xf0 == high & 0xf0,
        (f & 0x08 != 0) == (backlight == Backlight::On),
        (f & ENABLE != 0) == enable,
        f & READ_WRITE == 0,
        (f & 0x01 != 0) == (register == Register::Data),
{
    let e: u8 = if enable { ENABLE } else { 0x00 };
    let l: u8 = backlight.bits();
    let r: u8 = register.bits();
    let f: u8 = (high & 0xf0) | l | e | r;
    assert(f & 0xf0 == high & 0xf0 && (f & 0x08 != 0) == (l == 0x08) && (f & 0x04 != 0) == (e
        == 0x04) && f & 0x02 == 0 && (f & 0x01 != 0) == (r == 0x01)) by (bit_vector)
        requires
            f == (high & 0xf0) | l | e | r,
            l == 0x00 || l == 0x08,
            e == 0x00 || e == 0x04,
            r == 0x00 || r == 0x01,
    ;
    f
}

/// What every frame of a session carries besides the nibble: where the
/// expander sits, the backlight line, and how nibbles are pulsed.
#[derive(Clone, Copy, Debug, PartialEq, Eq, Structural)]
pub struct Link {
    pub address: u8,
    pub backlight: Backlight,
    pub profile: TimingProfile,
}

/// The write of one frame with the given enable line.
pub open spec fn frame_write(link: Link, high: u8, register: Register, enable: bool) -> BusOp {
    BusOp::Write {
        address: link.address,
        frame: frame_spec(high, register, enable, link.backlight),
    }
}

/// The bus operations of one nibble transfer. The modern profile writes the
/// frame with enable low, with enable high and with enable low again; the
/// legacy profile leaves out the first of the three. Both end with the
/// profile's settle time.
pub open spec fn nibble_transfer(link: Link, high: u8, register: Register) -> Seq<BusOp> {
    match link.profile {
        TimingProfile::Modern => seq![
            frame_write(link, high, register, false),
            frame_write(link, high, register, true),
            frame_write(link, high, register, false),
            BusOp::DelayUs(NIBBLE_SETTLE_US),
        ],
        TimingProfile::Legacy => seq![
            frame_write(link, high, register, true),
            frame_write(link, high, register, false),
            BusOp::DelayUs(LEGACY_NIBBLE_SETTLE_US),
        ],
    }
}

/// The nibble that travels first: the top four bits of `value`, in place.
pub open spec fn high_nibble(value: u8) -> u8 {
    value & 0xf0
}

/// The nibble that travels second: the low four bits of `value`, moved to the top.
pub open spec fn low_nibble(value: u8) -> u8 {
    (value << 4) & 0xf0
}

/// The bus operations of one byte transfer: the high nibble, then the low one.
pub open spec fn byte_transfer(link: Link, value: u8, register: Register) -> Seq<BusOp> {
    nibble_transfer(link, high_nibble(value), register) + nibble_transfer(
        link,
        low_nibble(value),
        register,
    )
}

/// Appends one nibble transfer to `ops`.
pub fn push_nibble(ops: &mut Vec<BusOp>, link: Link, high: u8, register: Register)
    ensures
        final(ops)@ == old(ops)@ + nibble_transfer(link, high, register),
{
    let low: u8 = frame(high, register, false, link.backlight);
    let strobe: u8 = frame(high, register, true, link.backlight);
    if link.profile.asserts_before_strobe() {
        ops.push(BusOp::Write { address: link.address, frame: low });
    }
    ops.push(BusOp::Write { address: link.address, frame: strobe });
    ops.push(BusOp::Write { address: link.address, frame: low });
    ops.push(BusOp::DelayUs(link.profile.settle_us()));
    assert(ops@ =~= old(ops)@ + nibble_transfer(link, high, register));
}

/// Appends one byte transfer to `ops`.
pub fn push_byte(ops: &mut Vec<BusOp>, link: Link, value: u8, register: Register)
    ensures
        final(ops)@ == old(ops)@ + byte_transfer(link, value, register),
{
    push_nibble(ops, link, value & 0xf0, register);
    push_nibble(ops, link, (value << 4) & 0xf0, register);
    assert(ops@ =~= old(ops)@ + byte_transfer(link, value, register));
}

/// Frames one nibble, given in the top four bits of `high`, as the
/// profile's writes and settle time.
pub fn send_nibble(link: Link, high: u8, register: Register) -> (ops: Vec<BusOp>)
    ensures
        ops@ == nibble_transfer(link, high, register),
        ops@.len() == link.profile.nibble_len(),
        latched_nibble(link.profile, ops@) == high >> 4,
{
    let mut ops: Vec<BusOp> = Vec::new();
    push_nibble(&mut ops, link, high, register);
    assert(ops@ =~= nibble_transfer(link, high, register));
    proof {
        lemma_nibble_transfer_latches(link, high, register);
    }
    ops
}

/// Frames one byte as two nibble transfers, high nibble first.
pub fn send_byte(link: Link, value: u8, register: Register) -> (ops: Vec<BusOp>)
    ensures
        ops@ == byte_transfer(link, value, register),
        ops@.len() == 2 * link.profile.nibble_len(),
        first_half(link.profile, ops@) == nibble_transfer(link, high_nibble(value), register),
        second_half(link.profile, ops@) == nibble_transfer(link, low_nibble(value), register),
        reassemble(link.profile, ops@) == value,
{
    let mut ops: Vec<BusOp> = Vec::new();
    push_byte(&mut ops, link, value, register);
    assert(ops@ =~= byte_transfer(link, value, register));
    proof {
        lemma_byte_transfer_reassembles(link, value, register);
    }
    ops
}

/// The nibble the controller latches from a nibble transfer: the data bits
/// of the frame written with enable high, moved to the low four bits.
pub open spec fn latched_nibble(profile: TimingProfile, transfer: Seq<BusOp>) -> u8
    recommends
        transfer.len() == profile.nibble_len(),
{
    match transfer[profile.strobe_index()] {
        BusOp::Write { address, frame } => frame >> 4,
        _ => 0,
    }
}

/// The operations of the first nibble transfer of a byte transfer.
pub open spec fn first_half(profile: TimingProfile, transfer: Seq<BusOp>) -> Seq<BusOp>
    recommends
        transfer.len() == 2 * profile.nibble_len(),
{
    transfer.subrange(0, profile.nibble_len() as int)
}

/// The operations of the second nibble transfer of a byte transfer.
pub open spec fn second_half(profile: TimingProfile, transfer: Seq<BusOp>) -> Seq<BusOp>
    recommends
        transfer.len() == 2 * profile.nibble_len(),
{
    transfer.subrange(profile.nibble_len() as int, 2 * profile.nibble_len() as int)
}

/// The byte the controller puts together from the operations of a byte
/// transfer: the first latched nibble above the second.
pub open spec fn reassemble(profile: TimingProfile, transfer: Seq<BusOp>) -> u8
    recommends
        transfer.len() == 2 * profile.nibble_len(),
{
    (latched_nibble(profile, first_half(profile, transfer)) << 4) | latched_nibble(
        profile,
        second_half(profile, transfer),
    )
}

/// From a nibble transfer the controller latches the top four bits of the
/// value sent, and the write it latches them from has enable high.
pub proof fn lemma_nibble_transfer_latches(link: Link, high: u8, register: Register)
    ensures
        nibble_transfer(link, high, register).len() == link.profile.nibble_len(),
        nibble_transfer(link, high, register)[link.profile.strobe_index()] == frame_write(
            link,
            high,
            register,
            true,
        ),
        latched_nibble(link.profile, nibble_transfer(link, high, register)) == high >> 4,
{
    let l: u8 = link.backlight.spec_bits();
    let r: u8 = register.spec_bits();
    let f: u8 = frame_spec(high, register, true, link.backlight);
    assert(f >> 4 == high >> 4) by (bit_vector)
        requires
            f == (high & 0xf0) | l | 0x04u8 | r,
            l == 0x00 || l == 0x08,
            r == 0x00 || r == 0x01,
    ;
}

/// A byte transfer is exactly two nibble transfers, and the nibbles the
/// controller latches from them, put together again, are the byte sent.
pub proof fn lemma_byte_transfer_reassembles(link: Link, value: u8, register: Register)
    ensures
        byte_transfer(link, value, register).len() == 2 * link.profile.nibble_len(),
        first_half(link.profile, byte_transfer(link, value, register)) == nibble_transfer(
            link,
            high_nibble(value),
            register,
        ),
        second_half(link.profile, byte_transfer(link, value, register)) == nibble_transfer(
            link,
            low_nibble(value),
            register,
        ),
        reassemble(link.profile, byte_transfer(link, value, register)) == value,
{
    let t = byte_transfer(link, value, register);
    let hi = nibble_transfer(link, high_nibble(value), register);
    let lo = nibble_transfer(link, low_nibble(value), register);
    assert(first_half(link.profile, t) =~= hi);
    assert(second_half(link.profile, t) =~= lo);
    lemma_nibble_transfer_latches(link, high_nibble(value), register);
    lemma_nibble_transfer_latches(link, low_nibble(value), register);
    let h: u8 = high_nibble(value) >> 4;
    let w: u8 = low_nibble(value) >> 4;
    assert((h << 4) | w == value) by (bit_vector)
        requires
            h == (value & 0xf0) >> 4,
            w == ((value << 4) & 0xf0) >> 4,
    ;
}

} // verus!
