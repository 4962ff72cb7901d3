//! The error of a manifest update, whichever manifest kind it came from.
use crate::cargo::{error_message, CargoTomlError};
use vstd::prelude::*;

verus! {

/// A manifest update that failed, with the manifest kind's own error kept whole.
#[derive(Debug)]
pub enum PackageManagerError {
    CargoToml(CargoTomlError),
}

impl From<CargoTomlError> for PackageManagerError {
    fn from(value: CargoTomlError) -> (r: Self)
        ensures
            r == PackageManagerError::CargoToml(value),
    {
        PackageManagerError::CargoToml(value)
    }
}

impl vstd::std_specs::convert::FromSpecImpl<CargoTomlError> for PackageManagerError {
    open spec fn obeys_from_spec() -> bool {
        true
    }

    open spec fn from_spec(v: CargoTomlError) -> Self {
        PackageManagerError::CargoToml(v)
    }
}

impl PackageManagerError {
    /// The message that describes the error to a user: that of the wrapped error.
    pub fn message(&self) -> (r: String)
        ensures
            match *self {
                PackageManagerError::CargoToml(e) => r@ == error_message(e),
            },
    {
        match self {
            PackageManagerError::CargoToml(error) => error.message(),
        }
    }
}

} // verus!
