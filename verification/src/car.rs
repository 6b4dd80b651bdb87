//! A car record and the factory that builds one.

use vstd::prelude::*;

verus! {

/// How a car shifts gears.
#[derive(PartialEq, Debug, Structural)]
pub enum Transmission {
    Manual,
    SemiAuto,
    Automatic,
}

/// A vehicle as it leaves the factory or after it has been driven.
pub struct Car {
    pub color: String,
    pub transmission: Transmission,
    pub convertible: bool,
    pub mileage: u32,
}

/// Builds a new car from its colour, transmission and roof.
///
/// Every new car starts with zero mileage.
pub fn car_factory(color: String, transmission: Transmission, convertible: bool) -> (car: Car)
    ensures
        car.color == color,
        car.transmission == transmission,
        car.convertible == convertible,
        car.mileage == 0,
{
    let car: Car = Car { color: color, transmission: transmission, convertible: convertible, mileage: 0 };

    return car;
}

} // verus!
