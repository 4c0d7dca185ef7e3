//! The measurement mode chosen by the user: which liquid the sensor is
//! calibrated for, water (H2O) or isopropyl alcohol (IPA).

use vstd::prelude::*;

use crate::command::Command;

verus! {

#[derive(Clone, Copy, Debug, PartialEq, Eq, Structural)]
pub enum State {
    Water,
    IsopropylAlcohol,
}

/// The other mode.
pub open spec fn toggled(state: State) -> State {
    match state {
        State::Water => State::IsopropylAlcohol,
        State::IsopropylAlcohol => State::Water,
    }
}

/// The label shown for a mode.
pub open spec fn state_label(state: State) -> Seq<char> {
    match state {
        State::Water => "H2O"@,
        State::IsopropylAlcohol => "IPA"@,
    }
}

/// The command that starts continuous measurement in a mode.
pub open spec fn state_command(state: State) -> Command {
    match state {
        State::Water => Command::ContinuousMeasurementWater,
        State::IsopropylAlcohol => Command::ContinuousMeasurementIsopropylAlcohol,
    }
}

impl State {
    pub fn toggle(&mut self)
        ensures
            *final(self) == toggled(*old(self)),
    {
        *self = match self {
            State::Water => State::IsopropylAlcohol,
            State::IsopropylAlcohol => State::Water,
        }
    }

    pub fn as_str(&self) -> (label: &'static str)
        ensures
            label@ == state_label(*self),
    {
        match self {
            State::Water => "H2O",
            State::IsopropylAlcohol => "IPA",
        }
    }

    /// The command that starts continuous measurement in this mode; the
    /// sensor is switched by stopping the measurement, waiting for it to
    /// become idle, then sending this command.
    pub fn measurement_command(&self) -> (command: Command)
        ensures
            command == state_command(*self),
    {
        match self {
            State::Water => Command::ContinuousMeasurementWater,
            State::IsopropylAlcohol => Command::ContinuousMeasurementIsopropylAlcohol,
        }
    }
}

/// Toggling always changes the mode, and toggling twice gives the mode back.
pub proof fn toggle_is_an_involution(state: State)
    ensures
        toggled(state) != state,
        toggled(toggled(state)) == state,
{
}

/// The two modes are shown with different labels.
pub proof fn labels_are_distinct(a: State, b: State)
    requires
        state_label(a) == state_label(b),
    ensures
        a == b,
{
    reveal_strlit("H2O");
    reveal_strlit("IPA");
    assert("H2O"@[0] != "IPA"@[0]);
}

} // verus!
