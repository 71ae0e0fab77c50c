//! Channel selection and command-word assembly for the TSC2046.
//!
//! The chip's command word is one byte, MSB to LSB: Start (always 1),
//! three channel-select bits, Mode (0 forces 12-bit conversions), SER/DFR
//! (0 forces differential reference mode), and two PowerDown bits (00 keeps
//! the chip powered between conversions so the interrupt line stays usable;
//! 11 powers it down between conversions).

use vstd::prelude::*;

verus! {

/// Start bit: set in every command word.
pub const CTRL_START: u8 = 0x80;
/// Mode bit: cleared to select 12-bit conversions.
pub const CTRL_MODE: u8 = 0x08;
/// SER/DFR bit: cleared to select differential reference mode.
pub const CTRL_SER: u8 = 0x04;
/// Both PowerDown bits; set when the interrupt line is disabled.
pub const CTRL_PD_MASK: u8 = 0x03;

/// Channel-select pattern for the X-position channel.
pub const CTRL_SEL_X: u8 = 0x50;
/// Channel-select pattern for the Y-position channel.
pub const CTRL_SEL_Y: u8 = 0x10;
/// Channel-select pattern for the first pressure-sense channel.
pub const CTRL_SEL_Z1: u8 = 0x30;
/// Channel-select pattern for the second pressure-sense channel.
pub const CTRL_SEL_Z2: u8 = 0x40;

/// The four analog inputs the driver samples.
#[derive(Clone, Copy, PartialEq, Eq, Structural, Debug)]
pub enum Axes {
    /// X position.
    X,
    /// Y position.
    Y,
    /// First pressure-sense tap.
    Z1,
    /// Second pressure-sense tap.
    Z2,
}

impl Axes {
    /// The three channel-select bits of this axis, already in position
    /// within the command byte.
    pub open spec fn spec_ctrl_bits(self) -> u8 {
        match self {
            Axes::X => CTRL_SEL_X,
            Axes::Y => CTRL_SEL_Y,
            Axes::Z1 => CTRL_SEL_Z1,
            Axes::Z2 => CTRL_SEL_Z2,
        }
    }

    /// Returns the channel-select bits of this axis.
    pub fn ctrl_bits(&self) -> (r: u8)
        ensures
            r == self.spec_ctrl_bits(),
    {
        match self {
            Axes::X => CTRL_SEL_X,
            Axes::Y => CTRL_SEL_Y,
            Axes::Z1 => CTRL_SEL_Z1,
            Axes::Z2 => CTRL_SEL_Z2,
        }
    }
}

/// The command word for one conversion: Start bit set, Mode and SER bits
/// cleared, the axis's channel-select bits, and the PowerDown bits cleared
/// exactly when the interrupt line is enabled.
pub open spec fn spec_command_word(axis: Axes, irq_on: bool) -> u8 {
    if irq_on {
        CTRL_START | axis.spec_ctrl_bits()
    } else {
        CTRL_START | axis.spec_ctrl_bits() | CTRL_PD_MASK
    }
}

/// Assembles the command word sent to the chip to sample `axis` while the
/// interrupt line is enabled or disabled per `irq_on`.
pub fn command_word(axis: Axes, irq_on: bool) -> (r: u8)
    ensures
        r == spec_command_word(axis, irq_on),
{
    let select: u8 = axis.ctrl_bits();
    if irq_on {
        CTRL_START | select
    } else {
        CTRL_START | select | CTRL_PD_MASK
    }
}

/// The 12-bit sample carried by the chip's two reply bytes: the bytes taken
/// big-endian as a 16-bit word, shifted right past the 3 trailing don't-care
/// bits, and masked to 12 bits.
pub open spec fn spec_sample(high: u8, low: u8) -> u16 {
    ((((high as u16) << 8) | (low as u16)) >> 3) & 0xFFF
}

/// Reconstructs the 12-bit sample from the two reply bytes of one
/// conversion.
pub fn decode_sample(high: u8, low: u8) -> (v: u16)
    ensures
        v == spec_sample(high, low),
        v < 0x1000,
{
    let word: u16 = ((high as u16) << 8) | (low as u16);
    let v: u16 = (word >> 3) & 0xFFF;
    proof {
        assert(((((high as u16) << 8) | (low as u16)) >> 3) & 0xFFF < 0x1000) by (bit_vector);
    }
    v
}

/// Every command word has the Start bit set, the Mode and SER bits cleared,
/// the axis's channel-select bits in the select field, and both PowerDown
/// bits cleared exactly when the interrupt line is enabled.
pub proof fn lemma_command_word_shape(axis: Axes, irq_on: bool)
    ensures
        spec_command_word(axis, irq_on) & CTRL_START == CTRL_START,
        spec_command_word(axis, irq_on) & CTRL_MODE == 0,
        spec_command_word(axis, irq_on) & CTRL_SER == 0,
        spec_command_word(axis, irq_on) & CTRL_PD_MASK == (if irq_on {
            0u8
        } else {
            CTRL_PD_MASK
        }),
        spec_command_word(axis, irq_on) & 0x70 == axis.spec_ctrl_bits(),
{
    let s = axis.spec_ctrl_bits();
    assert(s == 0x50 || s == 0x10 || s == 0x30 || s == 0x40);
    assert((0x80u8 | s) & 0x80u8 == 0x80u8 && (0x80u8 | s) & 0x08u8 == 0u8 && (0x80u8 | s)
        & 0x04u8 == 0u8 && (0x80u8 | s) & 0x03u8 == 0u8 && (0x80u8 | s) & 0x70u8 == s) by (bit_vector)
        requires
            s == 0x50 || s == 0x10 || s == 0x30 || s == 0x40,
    ;
    assert((0x80u8 | s | 0x03u8) & 0x80u8 == 0x80u8 && (0x80u8 | s | 0x03u8) & 0x08u8 == 0u8 && (
    0x80u8 | s | 0x03u8) & 0x04u8 == 0u8 && (0x80u8 | s | 0x03u8) & 0x03u8 == 0x03u8 && (0x80u8 | s
        | 0x03u8) & 0x70u8 == s) by (bit_vector)
        requires
            s == 0x50 || s == 0x10 || s == 0x30 || s == 0x40,
    ;
}

/// The command words of one touch acquisition, in the fixed order the
/// channels are sampled: X, Y, then the two pressure-sense taps.
pub open spec fn spec_touch_commands(irq_on: bool) -> Seq<u8> {
    seq![
        spec_command_word(Axes::X, irq_on),
        spec_command_word(Axes::Y, irq_on),
        spec_command_word(Axes::Z1, irq_on),
        spec_command_word(Axes::Z2, irq_on),
    ]
}

/// Every command word of a touch acquisition carries the PowerDown bits
/// that the interrupt flag dictates: both cleared when the interrupt line
/// is enabled, both set when it is not.
pub proof fn lemma_touch_commands_power_down(irq_on: bool)
    ensures
        spec_touch_commands(irq_on).len() == 4,
        forall|i: int|
            0 <= i < 4 ==> (#[trigger] spec_touch_commands(irq_on)[i]) & CTRL_PD_MASK == (
            if irq_on {
                0u8
            } else {
                CTRL_PD_MASK
            }),
{
    lemma_command_word_shape(Axes::X, irq_on);
    lemma_command_word_shape(Axes::Y, irq_on);
    lemma_command_word_shape(Axes::Z1, irq_on);
    lemma_command_word_shape(Axes::Z2, irq_on);
}

/// The full command-word table: the byte produced for each of the four
/// channels, with the interrupt line enabled and disabled.
pub proof fn lemma_command_word_table()
    ensures
        spec_command_word(Axes::X, false) == 0xD3,
        spec_command_word(Axes::Y, false) == 0x93,
        spec_command_word(Axes::Z1, false) == 0xB3,
        spec_command_word(Axes::Z2, false) == 0xC3,
        spec_command_word(Axes::X, true) == 0xD0,
        spec_command_word(Axes::Y, true) == 0x90,
        spec_command_word(Axes::Z1, true) == 0xB0,
        spec_command_word(Axes::Z2, true) == 0xC0,
{
    assert((0x80u8 | 0x50u8 | 0x03u8) == 0xD3u8 && (0x80u8 | 0x10u8 | 0x03u8) == 0x93u8 && (0x80u8
        | 0x30u8 | 0x03u8) == 0xB3u8 && (0x80u8 | 0x40u8 | 0x03u8) == 0xC3u8 && (0x80u8 | 0x50u8)
        == 0xD0u8 && (0x80u8 | 0x10u8) == 0x90u8 && (0x80u8 | 0x30u8) == 0xB0u8 && (0x80u8 | 0x40u8)
        == 0xC0u8) by (bit_vector);
}

/// Round trip of the reply encoding: a 12-bit value packed as the chip packs
/// it, high byte `value >> 5` and low byte `value << 3` truncated to 8 bits,
/// decodes back to the value itself.
pub proof fn lemma_sample_round_trip(value: u16)
    requires
        value < 0x1000,
    ensures
        spec_sample((value >> 5) as u8, (value << 3) as u8) == value,
{
    assert(((((((value >> 5) as u8) as u16) << 8) | ((((value << 3) as u8)) as u16)) >> 3) & 0xFFF
        == value) by (bit_vector)
        requires
            value < 0x1000,
    ;
}

} // verus!
