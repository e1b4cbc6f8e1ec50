//! What a module says of its parameters: their kinds and their texts.

use vstd::prelude::*;
use crate::message::{is_zero, ONE, ZERO};

verus! {

/// The kind of value that a parameter takes.
#[derive(Clone, Copy, Debug, PartialEq, Eq, Structural)]
pub enum ValueType {
    Float,
    Bool,
}

/// The set of parameters of a module.
pub trait Parameters: Default {

}

/// Names values by a number and a unit.
pub struct DefaultStringConverter {
    unit: String,
}

impl View for DefaultStringConverter {
    type V = Seq<char>;

    /// The text of the unit.
    closed spec fn view(&self) -> Seq<char> {
        self.unit@
    }
}

impl DefaultStringConverter {
    pub fn new(unit: String) -> (converter: Self)
        ensures
            converter@ == unit@,
    {
        Self { unit }
    }

    pub fn unit(&self) -> (unit: Option<&str>)
        ensures
            unit matches Some(text) && text@ == self@,
    {
        Some(self.unit.as_str())
    }
}

impl Default for DefaultStringConverter {
    fn default() -> (converter: Self)
        ensures
            converter@ == Seq::<char>::empty(),
    {
        Self { unit: String::new() }
    }
}

impl Clone for DefaultStringConverter {
    fn clone(&self) -> (copy: Self)
        ensures
            copy@ == self@,
    {
        Self { unit: self.unit.clone() }
    }
}

/// Names values between zero and one as percentages.
#[derive(Clone, Copy, Debug, PartialEq, Eq, Structural)]
pub struct PercentStringConverter {}

impl PercentStringConverter {
    pub fn unit(&self) -> (unit: Option<&str>)
        ensures
            unit matches Some(text) && text@ == "%"@,
    {
        Some("%")
    }
}

impl Default for PercentStringConverter {
    fn default() -> (converter: Self)
        ensures
            converter == (PercentStringConverter {  }),
    {
        PercentStringConverter {  }
    }
}

/// Names the two values of a switch.
#[derive(Clone, Copy, Debug, PartialEq, Eq, Structural)]
pub struct BoolStringConverter;

impl BoolStringConverter {
    /// The name of a value: "off" for what compares equal to zero, "on" for
    /// anything else.
    pub fn to_string(&self, value: u32) -> (name: String)
        ensures
            is_zero(value) ==> name@ == "off"@,
            !is_zero(value) ==> name@ == "on"@,
    {
        if value == 0 || value == 0x8000_0000 {
            "off".to_owned()
        } else {
            "on".to_owned()
        }
    }

    /// The value that a name stands for, if it is one of the two names.
    pub fn to_value(&self, name: &str) -> (value: Option<u32>)
        ensures
            name@ == "off"@ ==> value == Some(ZERO),
            name@ == "on"@ ==> value == Some(ONE),
            name@ != "off"@ && name@ != "on"@ ==> value is None,
    {
        proof {
            reveal_strlit("off");
            reveal_strlit("on");
            assert("off"@.len() == 3);
            assert("on"@.len() == 2);
        }
        let given = name.to_owned();
        if given == "off".to_owned() {
            Some(ZERO)
        } else if given == "on".to_owned() {
            Some(ONE)
        } else {
            None
        }
    }

    pub fn unit(&self) -> (unit: Option<&str>)
        ensures
            unit is None,
    {
        None
    }
}

impl Default for BoolStringConverter {
    fn default() -> (converter: Self)
        ensures
            converter == BoolStringConverter,
    {
        BoolStringConverter
    }
}

} // verus!
