//! Small value types that several commands share.

use vstd::prelude::*;
use vstd::std_specs::convert::FromSpecImpl;

verus! {

/// How the lines of a text block are aligned.
#[derive(Debug, Clone, Copy, PartialEq, Eq, Structural)]
pub enum Justification {
    /// Left, the default.
    L,
    /// Centred.
    C,
    /// Right.
    R,
    /// Justified over the full width.
    J,
}

/// The justification that a letter stands for; any other character means left.
pub open spec fn justification_of(value: char) -> Justification {
    if value == 'C' {
        Justification::C
    } else if value == 'R' {
        Justification::R
    } else if value == 'J' {
        Justification::J
    } else {
        Justification::L
    }
}

/// The letter of a justification.
pub open spec fn justification_letter(value: Justification) -> char {
    match value {
        Justification::L => 'L',
        Justification::C => 'C',
        Justification::R => 'R',
        Justification::J => 'J',
    }
}

impl From<char> for Justification {
    fn from(value: char) -> (r: Self) {
        match value {
            'L' => Justification::L,
            'C' => Justification::C,
            'R' => Justification::R,
            'J' => Justification::J,
            _ => Justification::L,
        }
    }
}

impl FromSpecImpl<char> for Justification {
    open spec fn obeys_from_spec() -> bool {
        true
    }

    open spec fn from_spec(value: char) -> Self {
        justification_of(value)
    }
}

impl From<Justification> for char {
    fn from(value: Justification) -> (r: Self) {
        match value {
            Justification::L => 'L',
            Justification::C => 'C',
            Justification::R => 'R',
            Justification::J => 'J',
        }
    }
}

impl FromSpecImpl<Justification> for char {
    open spec fn obeys_from_spec() -> bool {
        true
    }

    open spec fn from_spec(value: Justification) -> Self {
        justification_letter(value)
    }
}

impl Justification {
    /// The letter of this justification as a string of one character.
    pub fn letter_string(self) -> (s: String)
        ensures
            s@ == seq![justification_letter(self)],
    {
        let c = char::from(self);
        let mut s = String::new();
        s.push(c);
        s
    }
}

/// A yes-or-no switch.
#[derive(Debug, Clone, Copy, PartialEq, Eq, Structural)]
pub enum YesNo {
    /// Yes, written `Y`.
    Y,
    /// No, written `N`.
    N,
}

/// The switch that a letter stands for; any character but `Y` means no.
pub open spec fn yes_no_of(value: char) -> YesNo {
    if value == 'Y' {
        YesNo::Y
    } else {
        YesNo::N
    }
}

impl From<char> for YesNo {
    fn from(value: char) -> (r: Self) {
        match value {
            'Y' => YesNo::Y,
            'N' => YesNo::N,
            _ => YesNo::N,
        }
    }
}

impl FromSpecImpl<char> for YesNo {
    open spec fn obeys_from_spec() -> bool {
        true
    }

    open spec fn from_spec(value: char) -> Self {
        yes_no_of(value)
    }
}

impl From<YesNo> for char {
    fn from(value: YesNo) -> (r: Self) {
        match value {
            YesNo::Y => 'Y',
            YesNo::N => 'N',
        }
    }
}

impl FromSpecImpl<YesNo> for char {
    open spec fn obeys_from_spec() -> bool {
        true
    }

    open spec fn from_spec(value: YesNo) -> Self {
        match value {
            YesNo::Y => 'Y',
            YesNo::N => 'N',
        }
    }
}

impl From<bool> for YesNo {
    fn from(value: bool) -> (r: Self) {
        if value {
            YesNo::Y
        } else {
            YesNo::N
        }
    }
}

impl FromSpecImpl<bool> for YesNo {
    open spec fn obeys_from_spec() -> bool {
        true
    }

    open spec fn from_spec(value: bool) -> Self {
        if value {
            YesNo::Y
        } else {
            YesNo::N
        }
    }
}

impl From<YesNo> for bool {
    fn from(value: YesNo) -> (r: Self) {
        match value {
            YesNo::Y => true,
            YesNo::N => false,
        }
    }
}

impl FromSpecImpl<YesNo> for bool {
    open spec fn obeys_from_spec() -> bool {
        true
    }

    open spec fn from_spec(value: YesNo) -> Self {
        value == YesNo::Y
    }
}

} // verus!
