//! A validated record of one output line and the hardware requests it issues.
//!
//! [`ControlGpio`] never touches the hardware itself. It decides: whether a pin
//! and a mode may be recorded, whether a level may be driven, and with which
//! arguments the hardware is to be called. The caller carries the resulting
//! [`PinSetup`] and [`PinWrite`] to the line.

use vstd::prelude::*;

verus! {

/// Highest pin number that can be driven.
pub const MAX_PIN: i32 = 30;

/// Highest mode value that a line accepts.
pub const MAX_MODE: u32 = 7;

/// Highest raw drive level that a line accepts.
pub const MAX_LEVEL: u32 = 10000;

/// Why a pin number is refused.
pub const INVALID_PIN: &'static str = "Please, digit a valid pin!";

/// Why a mode is refused.
pub const INVALID_MODE: &'static str = "Please, digit a valid mode for pin!";

/// Why a drive level is refused.
pub const INVALID_VALUE: &'static str = "Please, digit a valid value for pin!";

/// A request to drive `pin` to `level`.
#[derive(Clone, Copy, Debug, PartialEq, Eq, Structural)]
pub struct PinWrite {
    pub pin: i32,
    pub level: u32,
}

/// The two requests that bring a line into service: select the pad `pad`, then
/// set the direction of `pin` to `mode`.
#[derive(Clone, Copy, Debug, PartialEq, Eq, Structural)]
pub struct PinSetup {
    pub pad: u32,
    pub pin: i32,
    pub mode: u32,
}

/// The mathematical content of a [`ControlGpio`]: a pin number and a mode.
pub struct PinSpec {
    pub pin: int,
    pub mode: int,
}

/// Whether `pin` and `mode` may be recorded, and if not, why: the pin is judged
/// first.
pub open spec fn validated(pin: i32, mode: u32) -> Result<(), &'static str> {
    if pin < 0 || pin > MAX_PIN {
        Err(INVALID_PIN)
    } else if mode > MAX_MODE {
        Err(INVALID_MODE)
    } else {
        Ok(())
    }
}

/// The level at which a line rests once `outcome` has been acted on, if it
/// rested at `before`: a write drives it to the level it names, a refusal
/// reaches no hardware and leaves it where it was.
pub open spec fn level_after(before: u32, outcome: Result<PinWrite, &'static str>) -> u32 {
    match outcome {
        Ok(write) => write.level,
        Err(_) => before,
    }
}

impl PinSpec {
    /// Both fields lie in the range that the hardware accepts.
    pub open spec fn valid(self) -> bool {
        &&& 0 <= self.pin <= MAX_PIN
        &&& 0 <= self.mode <= MAX_MODE
    }

    /// What this line answers to a request for the level `value`.
    pub open spec fn write(self, value: u32) -> Result<PinWrite, &'static str> {
        if value > MAX_LEVEL {
            Err(INVALID_VALUE)
        } else {
            Ok(PinWrite { pin: self.pin as i32, level: value })
        }
    }

    /// The requests that bring this line into service.
    pub open spec fn setup(self) -> PinSetup {
        PinSetup { pad: self.pin as u32, pin: self.pin as i32, mode: self.mode as u32 }
    }

    /// This line with its mode replaced.
    pub open spec fn with_mode(self, mode: int) -> PinSpec {
        PinSpec { pin: self.pin, mode }
    }
}

/// One output line: its pin number and its mode, both always in range.
#[derive(Debug)]
pub struct ControlGpio {
    pin: i32,
    mode: u32,
}

impl View for ControlGpio {
    type V = PinSpec;

    closed spec fn view(&self) -> PinSpec {
        PinSpec { pin: self.pin as int, mode: self.mode as int }
    }
}

impl ControlGpio {
    #[verifier::type_invariant]
    spec fn in_range(self) -> bool {
        self@.valid()
    }

    /// Judges a pin number and a mode before a line is recorded.
    pub fn validate(pin: i32, mode: u32) -> (r: Result<(), &'static str>)
        ensures
            r == validated(pin, mode),
            r is Ok <==> (PinSpec { pin: pin as int, mode: mode as int }).valid(),
    {
        if pin < 0 || pin > MAX_PIN {
            Err(INVALID_PIN)
        } else if mode > MAX_MODE {
            Err(INVALID_MODE)
        } else {
            Ok(())
        }
    }

    /// Records the line `pin` in mode `mode`.
    pub fn new(pin: i32, mode: u32) -> (gpio: Self)
        requires
            0 <= pin <= MAX_PIN,
            mode <= MAX_MODE,
        ensures
            gpio@ == (PinSpec { pin: pin as int, mode: mode as int }),
            gpio@.valid(),
    {
        ControlGpio { pin, mode }
    }

    /// Records the line `pin` in mode `mode` if both are in range, and says
    /// why not otherwise.
    pub fn try_new(pin: i32, mode: u32) -> (r: Result<Self, &'static str>)
        ensures
            match validated(pin, mode) {
                Ok(_) => r matches Ok(gpio) && gpio@ == (PinSpec {
                    pin: pin as int,
                    mode: mode as int,
                }),
                Err(message) => r matches Err(reason) && reason == message,
            },
    {
        match ControlGpio::validate(pin, mode) {
            Ok(_) => Ok(ControlGpio::new(pin, mode)),
            Err(message) => Err(message),
        }
    }

    /// The requests that bring the line into service, to be issued once after
    /// the line was recorded.
    pub fn setup(&self) -> (setup: PinSetup)
        ensures
            setup == self@.setup(),
            setup.pad == self@.pin,
            setup.pin == self@.pin,
            setup.mode == self@.mode,
    {
        proof {
            use_type_invariant(self);
        }
        PinSetup { pad: self.pin as u32, pin: self.pin, mode: self.mode }
    }

    /// Asks for the line to be driven to `value`. A level above [`MAX_LEVEL`]
    /// is refused and no write is requested.
    pub fn set_value(&self, value: u32) -> (r: Result<PinWrite, &'static str>)
        ensures
            r == self@.write(value),
            value > MAX_LEVEL ==> r == Err::<PinWrite, &'static str>(INVALID_VALUE),
            value <= MAX_LEVEL ==> r == Ok::<PinWrite, &'static str>(
                PinWrite { pin: self@.pin as i32, level: value },
            ),
    {
        proof {
            use_type_invariant(self);
        }
        if value > MAX_LEVEL {
            return Err(INVALID_VALUE);
        }
        Ok(PinWrite { pin: self.pin, level: value })
    }

    /// Replaces the recorded mode. A mode above [`MAX_MODE`] is refused and the
    /// record stays as it was. The hardware is not reconfigured.
    pub fn change_mode(&mut self, mode: u32) -> (r: Result<(), &str>)
        ensures
            mode > MAX_MODE ==> r == Err::<(), &str>(INVALID_MODE) && *final(self) == *old(self),
            mode <= MAX_MODE ==> r == Ok::<(), &str>(()) && final(self)@ == old(self)@.with_mode(
                mode as int,
            ),
            final(self)@.valid(),
    {
        proof {
            use_type_invariant(&*self);
        }
        if mode > MAX_MODE {
            return Err(INVALID_MODE);
        }
        self.mode = mode;
        Ok(())
    }

    /// The recorded pin number.
    pub fn pin(&self) -> (pin: i32)
        ensures
            pin == self@.pin,
            0 <= pin <= MAX_PIN,
    {
        proof {
            use_type_invariant(self);
        }
        self.pin
    }

    /// The recorded mode.
    pub fn mode(&self) -> (mode: u32)
        ensures
            mode == self@.mode,
            mode <= MAX_MODE,
    {
        proof {
            use_type_invariant(self);
        }
        self.mode
    }
}

/// A level above 10000 is refused and leaves the line at the level it had;
/// every level up to 10000 is accepted and becomes the level of the line.
pub proof fn lemma_write_in_range(line: PinSpec, before: u32, value: u32)
    ensures
        value > MAX_LEVEL ==> line.write(value) is Err && level_after(before, line.write(value))
            == before,
        value <= MAX_LEVEL ==> line.write(value) is Ok && level_after(before, line.write(value))
            == value,
{
}

/// Asking for the same level twice in a row leaves the line at the level that
/// asking once leaves it at.
pub proof fn lemma_write_idempotent(line: PinSpec, before: u32, value: u32)
    ensures
        level_after(level_after(before, line.write(value)), line.write(value)) == level_after(
            before,
            line.write(value),
        ),
{
}

} // verus!
