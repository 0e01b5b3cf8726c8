//! Aggregates that tie descriptor records into a device tree: a device has
//! configurations, a configuration has interfaces, an interface has
//! endpoints and may carry extra class-specific descriptors.

use vstd::prelude::*;
use crate::usb::descriptors;

verus! {

/// A device and its configurations.
#[derive(Debug, Clone)]
pub struct Device {
    pub descriptor: descriptors::Device,
    pub configurations: Vec<Configuration>,
}

/// A configuration and its interfaces.
#[derive(Debug, Clone)]
pub struct Configuration {
    pub descriptor: descriptors::Configuration,
    pub interfaces: Vec<Interface>,
}

/// An interface, its extra descriptors and its endpoints.
#[derive(Debug, Clone)]
pub struct Interface {
    pub descriptor: descriptors::Interface,
    pub other_descriptors: Vec<Vec<u8>>,
    pub endpoints: Vec<Endpoint>,
}

/// One endpoint.
#[derive(Debug, Clone)]
pub struct Endpoint {
    pub descriptor: descriptors::Endpoint,
}

} // verus!
