use vstd::prelude::*;

verus! {

/// A charger row as listings present it.
#[derive(Clone, Debug)]
pub struct AvailableCharger {
    pub serial_id: String,
    pub ip_address: String,
}

/// A charger row as it is inserted.
#[derive(Clone, Debug)]
pub struct NewAvailableCharger {
    pub serial_id: String,
    pub ip_address: String,
}

} // verus!
