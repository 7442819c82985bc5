use vstd::prelude::*;
use crate::profile::DeviceConfig;

verus! {

/// What the host reported for one direction: a device, and the default
/// stream configuration of that device where it gave one.
#[derive(Debug)]
pub struct Probe<D> {
    pub device: D,
    pub default_config: Option<DeviceConfig>,
}

/// The devices a session works with, one for each direction, each with its
/// default stream configuration. `D` is the device handle; nothing here
/// looks inside it.
#[derive(Debug)]
pub struct Config<D> {
    pub record_device: Option<D>,
    pub record_device_config: Option<DeviceConfig>,
    pub play_device: Option<D>,
    pub play_device_config: Option<DeviceConfig>,
}

/// The device of a probe, if the host had one.
pub open spec fn probed_device<D>(probe: Option<Probe<D>>) -> Option<D> {
    match probe {
        Some(p) => Some(p.device),
        None => None,
    }
}

/// The configuration of a probe: none without a device.
pub open spec fn probed_config<D>(probe: Option<Probe<D>>) -> Option<DeviceConfig> {
    match probe {
        Some(p) => p.default_config,
        None => None,
    }
}

impl<D> Config<D> {
    /// A configuration is never kept for a direction that has no device.
    pub open spec fn wf(&self) -> bool {
        &&& self.record_device_config is Some ==> self.record_device is Some
        &&& self.play_device_config is Some ==> self.play_device is Some
    }

    /// The configuration for what the host reported as its default input
    /// and output.
    pub fn new(record: Option<Probe<D>>, play: Option<Probe<D>>) -> (config: Config<D>)
        ensures
            config.record_device == probed_device(record),
            config.record_device_config == probed_config(record),
            config.play_device == probed_device(play),
            config.play_device_config == probed_config(play),
            config.wf(),
    {
        let (record_device, record_device_config) = match record {
            Some(probe) => (Some(probe.device), probe.default_config),
            None => (None, None),
        };
        let (play_device, play_device_config) = match play {
            Some(probe) => (Some(probe.device), probe.default_config),
            None => (None, None),
        };
        Config { record_device, record_device_config, play_device, play_device_config }
    }

    /// Records from `device` from now on.
    pub fn change_record_device(&mut self, device: D, default_config: Option<DeviceConfig>)
        ensures
            final(self).record_device == Some(device),
            final(self).record_device_config == default_config,
            final(self).play_device == old(self).play_device,
            final(self).play_device_config == old(self).play_device_config,
            old(self).wf() ==> final(self).wf(),
    {
        self.record_device = Some(device);
        self.record_device_config = default_config;
    }

    /// Plays on `device` from now on.
    pub fn change_play_device(&mut self, device: D, default_config: Option<DeviceConfig>)
        ensures
            final(self).play_device == Some(device),
            final(self).play_device_config == default_config,
            final(self).record_device == old(self).record_device,
            final(self).record_device_config == old(self).record_device_config,
            old(self).wf() ==> final(self).wf(),
    {
        self.play_device = Some(device);
        self.play_device_config = default_config;
    }
}

} // verus!
