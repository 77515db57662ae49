use vstd::prelude::*;

verus! {

/// How many resonant low-pass stages the filter cascades.
#[derive(Debug, Clone, Copy, PartialEq, Eq, Structural)]
pub enum Poles {
    One,
    Two,
    Three,
}

/// The number of poles that an integer selects; anything but one, two or three selects two.
pub open spec fn poles_of(number_of_poles: i32) -> Poles {
    if number_of_poles == 1 {
        Poles::One
    } else if number_of_poles == 3 {
        Poles::Three
    } else {
        Poles::Two
    }
}

pub fn get_number_of_poles_from_integer(number_of_poles_word: i32) -> (r: Poles)
    ensures
        r == poles_of(number_of_poles_word),
{
    match number_of_poles_word {
        1 => Poles::One,
        2 => Poles::Two,
        3 => Poles::Three,
        _ => Poles::Two,
    }
}

} // verus!
