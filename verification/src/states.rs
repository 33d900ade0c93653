use vstd::prelude::*;

verus! {

/// Marker for the power mode a sensor handle is known to be in.
pub trait SensorState {

}

/// No measurements are taken; registers stay accessible.
#[derive(Debug)]
pub struct Sleep;

impl SensorState for Sleep {

}

/// Measurements cycle continuously, separated by the standby time.
#[derive(Debug)]
pub struct Normal;

impl SensorState for Normal {

}

/// One measurement is taken on request, then the device sleeps again.
#[derive(Debug)]
pub struct Forced;

impl SensorState for Forced {

}

} // verus!
