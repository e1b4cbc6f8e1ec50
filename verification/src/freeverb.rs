//! The reverb module: its parameters and the commands that change them.

use vstd::prelude::*;
use crate::message::{is_zero, switch_of, ToProcessor};
use crate::parameter::PercentStringConverter;

verus! {

/// The reverb as a module of the engine.
pub struct FreeverbModule;

impl FreeverbModule {
    /// The name of the module.
    pub fn name() -> (name: &'static str)
        ensures
            name@ == "Freeverb"@,
    {
        "Freeverb"
    }
}

/// A message for the reverb beside the commands that set parameters.
#[derive(Clone, Copy, Debug, PartialEq, Eq, Structural)]
pub enum ToFreeverb {
    SetScopeEnabled(bool),
}

/// The parameters of the reverb, in the order of their numeric identifiers.
#[derive(Clone, Copy, Debug, PartialEq, Eq, Structural)]
pub enum FreeverbParameterId {
    Dampening,
    Width,
    RoomSize,
    Freeze,
    Dry,
    Wet,
    Scope,
}

impl FreeverbParameterId {
    /// The numeric identifier of the parameter, as carried by commands.
    pub open spec fn index(self) -> nat {
        match self {
            FreeverbParameterId::Dampening => 0,
            FreeverbParameterId::Width => 1,
            FreeverbParameterId::RoomSize => 2,
            FreeverbParameterId::Freeze => 3,
            FreeverbParameterId::Dry => 4,
            FreeverbParameterId::Wet => 5,
            FreeverbParameterId::Scope => 6,
        }
    }

    pub fn as_usize(&self) -> (id: usize)
        ensures
            id == self.index(),
    {
        match self {
            FreeverbParameterId::Dampening => 0,
            FreeverbParameterId::Width => 1,
            FreeverbParameterId::RoomSize => 2,
            FreeverbParameterId::Freeze => 3,
            FreeverbParameterId::Dry => 4,
            FreeverbParameterId::Wet => 5,
            FreeverbParameterId::Scope => 6,
        }
    }

    /// The parameter with the numeric identifier `value`, if there is one.
    pub fn try_from(value: usize) -> (id: Result<Self, ()>)
        ensures
            value < 7 ==> id is Ok && id->Ok_0.index() == value,
            value >= 7 ==> id is Err,
    {
        match value {
            0 => Ok(FreeverbParameterId::Dampening),
            1 => Ok(FreeverbParameterId::Width),
            2 => Ok(FreeverbParameterId::RoomSize),
            3 => Ok(FreeverbParameterId::Freeze),
            4 => Ok(FreeverbParameterId::Dry),
            5 => Ok(FreeverbParameterId::Wet),
            6 => Ok(FreeverbParameterId::Scope),
            _ => Err(()),
        }
    }
}

/// Going from a parameter to its number and back leads to the parameter, and
/// no two parameters share a number.
pub proof fn lemma_identifiers_are_distinct(first: FreeverbParameterId, second: FreeverbParameterId)
    ensures
        first.index() < 7,
        first.index() == second.index() ==> first == second,
{
}

/// The converter that names the reverb's levels.
pub fn percent_string_converter() -> (converter: PercentStringConverter)
    ensures
        converter == (PercentStringConverter {  }),
{
    PercentStringConverter {  }
}

/// What a command asks of the reverb.
#[derive(Clone, Copy, Debug, PartialEq, Eq, Structural)]
pub enum ParameterChange {
    Dampening(u32),
    Width(u32),
    RoomSize(u32),
    Freeze(bool),
    Dry(u32),
    Wet(u32),
    /// Whether the reverb sends what it puts out to the scope.
    Scope(bool),
    /// The command names a parameter that the reverb does not have.
    InvalidId(usize),
    /// The command changes nothing.
    Nothing,
}

/// The change that a command stands for. Levels are passed on as they are;
/// a switch is on unless its value compares equal to zero.
pub open spec fn change_of(message: ToProcessor) -> ParameterChange {
    match message {
        ToProcessor::SetParameter(id, value) => if id == 0 {
            ParameterChange::Dampening(value)
        } else if id == 1 {
            ParameterChange::Width(value)
        } else if id == 2 {
            ParameterChange::RoomSize(value)
        } else if id == 3 {
            ParameterChange::Freeze(!is_zero(value))
        } else if id == 4 {
            ParameterChange::Dry(value)
        } else if id == 5 {
            ParameterChange::Wet(value)
        } else if id == 6 {
            ParameterChange::Scope(!is_zero(value))
        } else {
            ParameterChange::InvalidId(id)
        },
        ToProcessor::BeginEdit(_) => ParameterChange::Nothing,
        ToProcessor::EndEdit(_) => ParameterChange::Nothing,
    }
}

/// Reads a command for the reverb.
pub fn receive_message(message: ToProcessor) -> (change: ParameterChange)
    ensures
        change == change_of(message),
{
    match message {
        ToProcessor::SetParameter(id, value) => {
            match FreeverbParameterId::try_from(id) {
                Ok(FreeverbParameterId::Dampening) => ParameterChange::Dampening(value),
                Ok(FreeverbParameterId::Width) => ParameterChange::Width(value),
                Ok(FreeverbParameterId::RoomSize) => ParameterChange::RoomSize(value),
                Ok(FreeverbParameterId::Freeze) => ParameterChange::Freeze(switch_of(value)),
                Ok(FreeverbParameterId::Dry) => ParameterChange::Dry(value),
                Ok(FreeverbParameterId::Wet) => ParameterChange::Wet(value),
                Ok(FreeverbParameterId::Scope) => ParameterChange::Scope(switch_of(value)),
                Err(_) => ParameterChange::InvalidId(id),
            }
        },
        ToProcessor::BeginEdit(_) => ParameterChange::Nothing,
        ToProcessor::EndEdit(_) => ParameterChange::Nothing,
    }
}

} // verus!
