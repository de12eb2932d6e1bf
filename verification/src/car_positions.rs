//! The decoded "cars around us" proximity variable.

use vstd::prelude::*;
use crate::schema::VarType;
use crate::value::VarData;

verus! {

/// Where other cars are relative to the vehicle; published by the
/// simulator as a bit-field variable with a small enumerated value.
#[derive(Clone, Copy, Debug, PartialEq, Eq, Structural)]
pub enum CarPositions {
    /// Check is off.
    Off,
    /// No cars around us.
    Clear,
    /// There is a car to our left.
    CarLeft,
    /// There is a car to our right.
    CarRight,
    /// There are cars on each side.
    CarLeftRight,
    /// There are two cars to our left.
    CarsLeft,
    /// There are two cars to our right.
    CarsRight,
}

/// The proximity state a raw word stands for, if any.
pub open spec fn car_positions_of(raw: int) -> Option<CarPositions> {
    if raw == 0 {
        Some(CarPositions::Off)
    } else if raw == 1 {
        Some(CarPositions::Clear)
    } else if raw == 2 {
        Some(CarPositions::CarLeft)
    } else if raw == 3 {
        Some(CarPositions::CarRight)
    } else if raw == 4 {
        Some(CarPositions::CarLeftRight)
    } else if raw == 5 {
        Some(CarPositions::CarsLeft)
    } else if raw == 6 {
        Some(CarPositions::CarsRight)
    } else {
        None
    }
}

impl CarPositions {
    /// Whether at least one car is on our left.
    pub fn car_left(self) -> (r: bool)
        ensures
            r == (self == CarPositions::CarLeft || self == CarPositions::CarLeftRight || self
                == CarPositions::CarsLeft),
    {
        match self {
            CarPositions::CarLeft | CarPositions::CarLeftRight | CarPositions::CarsLeft => true,
            CarPositions::Off
            | CarPositions::Clear
            | CarPositions::CarRight
            | CarPositions::CarsRight => false,
        }
    }

    /// Whether at least one car is on our right.
    pub fn car_right(self) -> (r: bool)
        ensures
            r == (self == CarPositions::CarRight || self == CarPositions::CarLeftRight || self
                == CarPositions::CarsRight),
    {
        match self {
            CarPositions::CarRight | CarPositions::CarLeftRight | CarPositions::CarsRight => true,
            CarPositions::Off
            | CarPositions::Clear
            | CarPositions::CarLeft
            | CarPositions::CarsLeft => false,
        }
    }
}

impl VarData for CarPositions {
    /// A bit-field variable holding one of the small enumerated values;
    /// anything else is absent.
    open spec fn spec_parse(var_type: VarType, data: Seq<u8>) -> Option<CarPositions> {
        match u32::spec_parse(var_type, data) {
            Some(v) => car_positions_of(v as int),
            None => None,
        }
    }

    fn parse(var_type: VarType, data: &[u8]) -> (r: Option<CarPositions>)
        ensures
            r == Self::spec_parse(var_type, data@),
    {
        match u32::parse(var_type, data) {
            Some(v) => match v {
                0 => Some(CarPositions::Off),
                1 => Some(CarPositions::Clear),
                2 => Some(CarPositions::CarLeft),
                3 => Some(CarPositions::CarRight),
                4 => Some(CarPositions::CarLeftRight),
                5 => Some(CarPositions::CarsLeft),
                6 => Some(CarPositions::CarsRight),
                _ => None,
            },
            None => None,
        }
    }
}

} // verus!
