use vstd::prelude::*;

use crate::config::SupportedDevice;
use crate::error::{Error, ErrorKind};
use crate::rpc;
use crate::session::{SessionCoordinator, TapoSessionStatusExt};

verus! {

/// One registered device: its immutable identity and its mutable session
/// lifecycle.
#[derive(Clone, Debug)]
pub struct Device {
    pub name: String,
    pub address: String,
    pub device_type: SupportedDevice,
    pub session: SessionCoordinator,
}

/// The process-wide device table, built once at startup: its shape is
/// immutable afterwards, only the sessions inside mutate.
#[derive(Clone, Debug)]
pub struct DeviceRegistry {
    pub devices: Vec<Device>,
}

impl DeviceRegistry {
    /// Device names are unique and every session is well formed.
    pub open spec fn wf(self) -> bool {
        &&& forall|i: int, j: int|
            0 <= i < j < self.devices@.len() ==> self.devices@[i].name@ != self.devices@[j].name@
        &&& forall|i: int| 0 <= i < self.devices@.len() ==> (#[trigger] self.devices@[i]).session.wf()
    }

    /// An empty registry.
    pub fn new() -> (r: DeviceRegistry)
        ensures
            r.devices@.len() == 0,
            r.wf(),
    {
        DeviceRegistry { devices: Vec::new() }
    }

    /// The index of the device called `name`, if one is registered.
    pub open spec fn spec_find(self, name: Seq<char>) -> Option<int> {
        if exists|i: int| 0 <= i < self.devices@.len() && self.devices@[i].name@ == name {
            Some(choose|i: int| 0 <= i < self.devices@.len() && self.devices@[i].name@ == name)
        } else {
            None
        }
    }

    /// Look a device up by name.
    pub fn find(&self, name: &String) -> (r: Option<usize>)
        requires
            self.wf(),
        ensures
            match r {
                Some(idx) => idx < self.devices@.len() && self.devices@[idx as int].name@ == name@,
                None => forall|i: int|
                    0 <= i < self.devices@.len() ==> (#[trigger] self.devices@[i]).name@ != name@,
            },
    {
        let mut i: usize = 0;
        while i < self.devices.len()
            invariant
                i <= self.devices@.len(),
                forall|j: int| 0 <= j < i ==> (#[trigger] self.devices@[j]).name@ != name@,
            decreases self.devices@.len() - i,
        {
            if self.devices[i].name == *name {
                return Some(i);
            }
            i += 1;
        }
        None
    }

    /// Resolve a device name to its registry index, or report `NotFound` for
    /// a name no device carries.
    pub fn get_device_by_name(&self, name: &String) -> (r: Result<usize, Error>)
        requires
            self.wf(),
        ensures
            match r {
                Ok(idx) => idx < self.devices@.len() && self.devices@[idx as int].name@ == name@,
                Err(e) => e.kind == ErrorKind::NotFound && forall|i: int|
                    0 <= i < self.devices@.len() ==> (#[trigger] self.devices@[i]).name@ != name@,
            },
    {
        match self.find(name) {
            Some(idx) => Ok(idx),
            None => Err(Error::not_found(String::from_str("Device could not be found"))),
        }
    }

    /// Register a device. Refuses a second device under an existing name, so
    /// the registry's names stay unique.
    pub fn register(&mut self, device: Device) -> (r: Result<(), Error>)
        requires
            old(self).wf(),
            device.session.wf(),
        ensures
            final(self).wf(),
            match r {
                Ok(_) => final(self).devices@ == old(self).devices@.push(device),
                Err(e) => e.kind == ErrorKind::InvalidArgument && final(self).devices@ == old(
                    self,
                ).devices@,
            },
    {
        match self.find(&device.name) {
            Some(_) => Err(Error::invalid_argument(String::from_str(
                "A device with this name is already registered",
            ))),
            None => {
                self.devices.push(device);
                Ok(())
            },
        }
    }

    /// How many devices are registered.
    pub fn len(&self) -> (r: usize)
        ensures
            r == self.devices@.len(),
    {
        self.devices.len()
    }

    /// The public listing of one registered device: identity plus the wire
    /// code of its current session status.
    pub fn summary(&self, idx: usize) -> (r: rpc::Device)
        requires
            idx < self.devices@.len(),
        ensures
            ({
                let d = self.devices@[idx as int];
                &&& r.name@ == d.name@
                &&& r.device_type@ == d.device_type.spec_model_name()
                &&& r.address@ == d.address@
                &&& r.status == d.session.status.spec_rpc()
            }),
    {
        let device = &self.devices[idx];
        rpc::Device {
            name: device.name.clone(),
            device_type: device.device_type.model_name(),
            address: device.address.clone(),
            status: device.session.status.rpc(),
        }
    }

    /// The public listing of every registered device, in registration order.
    pub fn summaries(&self) -> (r: Vec<rpc::Device>)
        ensures
            r@.len() == self.devices@.len(),
            forall|i: int|
                0 <= i < self.devices@.len() ==> {
                    let d = self.devices@[i];
                    &&& (#[trigger] r@[i]).name@ == d.name@
                    &&& r@[i].device_type@ == d.device_type.spec_model_name()
                    &&& r@[i].address@ == d.address@
                    &&& r@[i].status == d.session.status.spec_rpc()
                },
    {
        let mut out: Vec<rpc::Device> = Vec::new();
        let mut i: usize = 0;
        while i < self.devices.len()
            invariant
                i <= self.devices@.len(),
                out@.len() == i,
                forall|j: int|
                    0 <= j < i ==> {
                        let d = self.devices@[j];
                        &&& (#[trigger] out@[j]).name@ == d.name@
                        &&& out@[j].device_type@ == d.device_type.spec_model_name()
                        &&& out@[j].address@ == d.address@
                        &&& out@[j].status == d.session.status.spec_rpc()
                    },
            decreases self.devices@.len() - i,
        {
            let summary = self.summary(i);
            out.push(summary);
            i += 1;
        }
        out
    }
}

} // verus!
