//! The pitch control: a single shared scalar, written by the command surface
//! and read by the playback callback.
//!
//! The factor is carried as a positive count of tenths.  Three presets are
//! reachable from any state at any time — low (`7`, a factor of 0.7),
//! normal (`10`, a factor of 1.0) and high (`13`, a factor of 1.3) — and an
//! unrecognized command leaves the factor unchanged.  Last write wins: the
//! next playback pass uses exactly the factor most recently set.

use vstd::prelude::*;

verus! {

/// The three pitch presets the command surface can select.
#[derive(Clone, Copy, PartialEq, Eq, Structural, Debug)]
pub enum Preset {
    /// Lowered pitch, factor 0.7.
    Low,
    /// Unshifted pitch, factor 1.0.
    Normal,
    /// Raised pitch, factor 1.3.
    High,
}

/// The factor, in tenths, that a preset selects.
pub open spec fn preset_tenths(p: Preset) -> int {
    match p {
        Preset::Low => 7,
        Preset::Normal => 10,
        Preset::High => 13,
    }
}

/// One command from the control surface, already decoded from its text form.
#[derive(Clone, Copy, PartialEq, Eq, Structural, Debug)]
pub enum Command {
    /// Select the low preset.
    SetLow,
    /// Select the high preset.
    SetHigh,
    /// Select the normal preset.
    SetNormal,
    /// End the session.
    Quit,
    /// Anything unrecognized: an explicit no-op.
    Unknown,
}

/// The command a trimmed input line decodes to: `1` selects low, `2` high,
/// `0` normal, `q` quits, and everything else is unrecognized.  The bytes
/// compared are the key values: 49 is `1`, 50 is `2`, 48 is `0`, 113 is `q`.
pub open spec fn spec_parse_command(line: Seq<u8>) -> Command {
    if line.len() == 1 {
        if line[0] == 49u8 {
            Command::SetLow
        } else if line[0] == 50u8 {
            Command::SetHigh
        } else if line[0] == 48u8 {
            Command::SetNormal
        } else if line[0] == 113u8 {
            Command::Quit
        } else {
            Command::Unknown
        }
    } else {
        Command::Unknown
    }
}

/// Decode one trimmed input line into a command.
pub fn parse_command(line: &Vec<u8>) -> (c: Command)
    ensures
        c == spec_parse_command(line@),
{
    if line.len() == 1 {
        let b: u8 = line[0];
        if b == 49 {
            Command::SetLow
        } else if b == 50 {
            Command::SetHigh
        } else if b == 48 {
            Command::SetNormal
        } else if b == 113 {
            Command::Quit
        } else {
            Command::Unknown
        }
    } else {
        Command::Unknown
    }
}

/// The current pitch factor, in tenths: a single-slot control cell, written
/// only by the command surface and read on every playback pass.  It is
/// always strictly positive, so the resampler's index arithmetic stays
/// meaningful.
pub struct PitchControl {
    factor_tenths: u32,
}

impl View for PitchControl {
    type V = int;

    closed spec fn view(&self) -> int {
        self.factor_tenths as int
    }
}

impl PitchControl {
    /// The factor is strictly positive and small enough that the resampler's
    /// position arithmetic cannot overflow.
    pub open spec fn valid(&self) -> bool {
        1 <= self@ <= 13
    }

    /// A control at the normal preset, a factor of one.
    pub fn new() -> (c: PitchControl)
        ensures
            c@ == preset_tenths(Preset::Normal),
            c.valid(),
    {
        PitchControl { factor_tenths: 10 }
    }

    /// Overwrite the factor with a preset.  Last write wins: the control
    /// holds exactly the preset's factor afterwards, whatever it held
    /// before, so the very next read uses this preset.
    pub fn set_preset(&mut self, p: Preset)
        ensures
            final(self)@ == preset_tenths(p),
            final(self).valid(),
    {
        match p {
            Preset::Low => {
                self.factor_tenths = 7;
            },
            Preset::Normal => {
                self.factor_tenths = 10;
            },
            Preset::High => {
                self.factor_tenths = 13;
            },
        }
    }

    /// Read the current factor, in tenths: exactly the value most recently
    /// written.
    pub fn factor_tenths(&self) -> (ft: u32)
        ensures
            ft as int == self@,
    {
        self.factor_tenths
    }
}

/// Apply one decoded command to the control: the three set commands select
/// their preset, `Quit` and `Unknown` leave the factor untouched, and the
/// result says whether the session should end.
pub fn apply_command(control: &mut PitchControl, c: Command) -> (quit: bool)
    requires
        old(control).valid(),
    ensures
        final(control).valid(),
        quit == (c == Command::Quit),
        final(control)@ == match c {
            Command::SetLow => preset_tenths(Preset::Low),
            Command::SetHigh => preset_tenths(Preset::High),
            Command::SetNormal => preset_tenths(Preset::Normal),
            Command::Quit => old(control)@,
            Command::Unknown => old(control)@,
        },
{
    match c {
        Command::SetLow => {
            control.set_preset(Preset::Low);
            false
        },
        Command::SetHigh => {
            control.set_preset(Preset::High);
            false
        },
        Command::SetNormal => {
            control.set_preset(Preset::Normal);
            false
        },
        Command::Quit => true,
        Command::Unknown => false,
    }
}

} // verus!
