//! Instances and adapters: the way to a device.

use vstd::prelude::*;
use crate::handle::{Adapter, Device, Handle, Instance, Pending};
use crate::native::{CallModel, NativeCall};
use crate::types::{AdapterDescriptor, DeviceDescriptor};

verus! {

impl Instance {
    /// Describes the creation of an instance.
    pub fn new() -> (p: Pending<Instance>)
        ensures
            p.call_spec()@ == CallModel::CreateInstance,
    {
        Pending::new(NativeCall::CreateInstance)
    }

    /// Describes the choice of an adapter of this instance by `desc`.
    pub fn get_adapter(&self, desc: &AdapterDescriptor) -> (p: Pending<Adapter>)
        ensures
            p.call_spec()@ == (CallModel::InstanceGetAdapter {
                instance: self.ident(),
                desc: *desc,
            }),
    {
        Pending::new(NativeCall::InstanceGetAdapter { instance: self.id(), desc: *desc })
    }
}

impl Adapter {
    /// Describes the opening of this adapter as a device.
    pub fn create_device(&self, desc: &DeviceDescriptor) -> (p: Pending<Device>)
        ensures
            p.call_spec()@ == (CallModel::AdapterCreateDevice {
                adapter: self.ident(),
                desc: *desc,
            }),
    {
        Pending::new(NativeCall::AdapterCreateDevice { adapter: self.id(), desc: *desc })
    }
}

} // verus!
