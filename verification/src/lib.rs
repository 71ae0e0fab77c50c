//! Driver logic for the TSC2046 four-wire resistive touch-screen controller.
//!
//! The driver talks to the chip over a transaction bus (one command byte
//! written, two reply bytes read per conversion), assembles the chip's 8-bit
//! command words, reconstructs 12-bit samples from the reply bytes, and
//! derives a pressure-based touch decision from four channel samples.
//!
//! Pressure figures and the touch threshold are IEEE-754 single-precision
//! values, carried as their 32-bit bit patterns; see the [`single`] module.

mod single;
mod types;

pub use single::{
    is_nan_bits, single_div, single_from_u16, single_lt, single_mul, single_sub, FULL_SCALE_BITS,
    ONE_BITS, POS_INF_BITS,
};
pub use types::{
    command_word, decode_sample, lemma_command_word_shape, lemma_command_word_table,
    lemma_sample_round_trip, lemma_touch_commands_power_down, spec_command_word, spec_sample,
    spec_touch_commands, Axes, CTRL_MODE, CTRL_PD_MASK, CTRL_SEL_X, CTRL_SEL_Y, CTRL_SEL_Z1,
    CTRL_SEL_Z2, CTRL_SER, CTRL_START,
};

use vstd::prelude::*;

verus! {

/// A touch point on the screen.
#[derive(Clone, Copy, PartialEq, Debug)]
pub struct TouchPoint {
    /// The x-coordinate of the touch point, ranging from 0 to 4095.
    pub x: u16,
    /// The y-coordinate of the touch point, ranging from 0 to 4095.
    pub y: u16,
    /// The IEEE-754 single-precision bit pattern of the derived pressure
    /// figure: lower values mean a harder press.
    pub z: u32,
}

/// The transaction bus the chip is wired to. One call is one transaction,
/// delimited by chip-select assertion: the command byte is written, then
/// the two reply bytes are read into `read`. A transaction succeeds or
/// fails as a unit; the error is the implementor's own and is propagated
/// opaquely.
/// A bus's transaction history: command bytes, oldest first. Purely a
/// specification value; an implementor's stub of [`Bus::history`] is never
/// called at runtime.
pub type CommandHistory = Seq<u8>;

pub trait Bus {
    /// The implementor's transport error.
    type Error;

    /// The command bytes of every transaction issued so far, oldest first.
    /// A ghost observation of the traffic; implementors do not store it.
    spec fn history(&self) -> CommandHistory;

    /// Performs one write-then-read transaction. Whatever the outcome, the
    /// call appends its command byte to the transaction history.
    fn transaction(&mut self, command: u8, read: &mut [u8; 2]) -> (r: Result<(), Self::Error>)
        ensures
            final(self).history() == old(self).history().push(command),
    ;
}

/// The pressure figure derived from the X and pressure-sense samples:
/// `(x / 4096) * (z2 / z1 - 1)`, evaluated in IEEE-754 single precision.
pub open spec fn spec_pressure(x_raw: u16, z1_raw: u16, z2_raw: u16) -> u32 {
    single_mul(
        single_div(single_from_u16(x_raw), FULL_SCALE_BITS),
        single_sub(single_div(single_from_u16(z2_raw), single_from_u16(z1_raw)), ONE_BITS),
    )
}

/// Decides whether four channel samples register as a touch: they do
/// exactly when the derived pressure figure compares below the threshold.
/// A zero first pressure sample (an open circuit) makes the figure infinite
/// or NaN, which never compares below any threshold, so it yields no touch
/// rather than an error.
pub fn derive_touch(x_raw: u16, y_raw: u16, z1_raw: u16, z2_raw: u16, touch_threshold: u32) -> (r:
    Option<TouchPoint>)
    ensures
        single_lt(spec_pressure(x_raw, z1_raw, z2_raw), touch_threshold) ==> r == Some(
            (TouchPoint { x: x_raw, y: y_raw, z: spec_pressure(x_raw, z1_raw, z2_raw) }),
        ),
        !single_lt(spec_pressure(x_raw, z1_raw, z2_raw), touch_threshold) ==> r == None::<
            TouchPoint,
        >,
        z1_raw == 0 ==> r == None::<TouchPoint>,
{
    let x_scaled = single::div_bits(single::from_u16_bits(x_raw), FULL_SCALE_BITS);
    let ratio = single::div_bits(single::from_u16_bits(z2_raw), single::from_u16_bits(z1_raw));
    let z_value = single::mul_bits(x_scaled, single::sub_bits(ratio, ONE_BITS));
    if single::lt_bits(z_value, touch_threshold) {
        Some(TouchPoint { x: x_raw, y: y_raw, z: z_value })
    } else {
        None
    }
}

/// Driver for the TSC2046 four-wire touch-screen controller. It owns the
/// bus handle for its lifetime; access must be serialized by the caller.
pub struct Tsc2046<SPI> {
    /// The bus the TSC2046 chip is reached over.
    spi: SPI,
    /// Whether the interrupt pin is enabled.
    irq_on: bool,
    /// The IEEE-754 single-precision bit pattern of the pressure figure
    /// below which a sample registers as a touch.
    touch_threshold: u32,
}

impl<SPI: Bus> Tsc2046<SPI> {
    /// Whether the interrupt pin is enabled.
    pub closed spec fn irq_enabled(self) -> bool {
        self.irq_on
    }

    /// The bit pattern of the touch threshold.
    pub closed spec fn threshold_bits(self) -> u32 {
        self.touch_threshold
    }

    /// The command bytes the driver has written to its bus, oldest first.
    pub closed spec fn bus_history(self) -> Seq<u8> {
        self.spi.history()
    }

    /// Creates a driver: stores the bus, the interrupt flag and the
    /// threshold, then issues one configuration transaction to establish
    /// the X-channel command word as the chip's resting state. Fails, and
    /// hands no driver out, if that transaction fails.
    pub fn new(spi: SPI, irq_on: bool, touch_threshold: u32) -> (r: Result<
        Tsc2046<SPI>,
        SPI::Error,
    >)
        ensures
            r matches Ok(d) ==> d.irq_enabled() == irq_on && d.threshold_bits()
                == touch_threshold && d.bus_history() == spi.history().push(
                spec_command_word(Axes::X, irq_on),
            ),
    {
        let mut instance = Tsc2046 { spi, irq_on, touch_threshold };
        match instance.update_register() {
            Ok(()) => Ok(instance),
            Err(e) => Err(e),
        }
    }

    /// Writes the chip's resting configuration: one transaction carrying
    /// the X-channel command word for the current interrupt flag.
    fn update_register(&mut self) -> (r: Result<(), SPI::Error>)
        ensures
            final(self).irq_on == old(self).irq_on,
            final(self).touch_threshold == old(self).touch_threshold,
            final(self).spi.history() == old(self).spi.history().push(
                spec_command_word(Axes::X, old(self).irq_on),
            ),
    {
        let command = command_word(Axes::X, self.irq_on);
        let mut buf: [u8; 2] = [0u8, 0u8];
        self.spi.transaction(command, &mut buf)
    }

    /// Samples one axis: one transaction writing the axis's command word
    /// and reading the two reply bytes, decoded to a 12-bit sample.
    fn read_axis(&mut self, axis: Axes) -> (r: Result<u16, SPI::Error>)
        ensures
            final(self).irq_on == old(self).irq_on,
            final(self).touch_threshold == old(self).touch_threshold,
            final(self).spi.history() == old(self).spi.history().push(
                spec_command_word(axis, old(self).irq_on),
            ),
            r matches Ok(v) ==> v < 0x1000,
    {
        let command = command_word(axis, self.irq_on);
        let mut buf: [u8; 2] = [0u8, 0u8];
        match self.spi.transaction(command, &mut buf) {
            Ok(()) => Ok(decode_sample(buf[0], buf[1])),
            Err(e) => Err(e),
        }
    }

    /// Enables or disables the interrupt pin. The flag is updated first and
    /// kept even if the configuration transaction then fails: there is no
    /// rollback, so the stored flag reflects the request whatever the
    /// result.
    pub fn set_irq(&mut self, enable_irq: bool) -> (r: Result<(), SPI::Error>)
        ensures
            final(self).irq_enabled() == enable_irq,
            final(self).threshold_bits() == old(self).threshold_bits(),
            final(self).bus_history() == old(self).bus_history().push(
                spec_command_word(Axes::X, enable_irq),
            ),
    {
        self.irq_on = enable_irq;
        self.update_register()
    }

    /// Sets the touch threshold, given as the IEEE-754 single-precision bit
    /// pattern of the pressure figure below which a sample registers as a
    /// touch. Purely local; cannot fail.
    pub fn set_touch_threshold(&mut self, touch_threshold: u32)
        ensures
            final(self).threshold_bits() == touch_threshold,
            final(self).irq_enabled() == old(self).irq_enabled(),
            final(self).bus_history() == old(self).bus_history(),
    {
        self.touch_threshold = touch_threshold;
    }

    /// Samples the X, Y and both pressure-sense channels in that fixed
    /// order, one transaction each, and derives the touch decision. A
    /// failed transaction is propagated at once; "no touch" is a normal
    /// `Ok(None)` outcome, never an error.
    pub fn get_touch(&mut self) -> (r: Result<Option<TouchPoint>, SPI::Error>)
        ensures
            final(self).irq_enabled() == old(self).irq_enabled(),
            final(self).threshold_bits() == old(self).threshold_bits(),
            r matches Ok(_) ==> final(self).bus_history() == old(self).bus_history()
                + spec_touch_commands(old(self).irq_enabled()),
            old(self).bus_history().is_prefix_of(final(self).bus_history()),
            r matches Ok(Some(tp)) ==> tp.x < 0x1000 && tp.y < 0x1000 && single_lt(
                tp.z,
                old(self).threshold_bits(),
            ),
    {
        let x_raw = match self.read_axis(Axes::X) {
            Ok(v) => v,
            Err(e) => {
                return Err(e);
            },
        };
        let y_raw = match self.read_axis(Axes::Y) {
            Ok(v) => v,
            Err(e) => {
                return Err(e);
            },
        };
        let z1_raw = match self.read_axis(Axes::Z1) {
            Ok(v) => v,
            Err(e) => {
                return Err(e);
            },
        };
        let z2_raw = match self.read_axis(Axes::Z2) {
            Ok(v) => v,
            Err(e) => {
                return Err(e);
            },
        };
        Ok(derive_touch(x_raw, y_raw, z1_raw, z2_raw, self.touch_threshold))
    }
}

} // verus!
