use vstd::prelude::*;

verus! {

/// One addressable compute unit of the plugin, known by its handle and by
/// the handle of the client that it belongs to. Neither handle is null, and
/// two devices are the same when their handles are.
#[derive(Debug, Clone, Copy, PartialEq, Eq, Structural)]
pub struct Device {
    client: usize,
    ptr: usize,
}

impl Device {
    #[verifier::type_invariant]
    spec fn non_null(self) -> bool {
        self.ptr != 0 && self.client != 0
    }

    /// The handle of this device.
    pub closed spec fn handle(self) -> usize {
        self.ptr
    }

    /// The handle of the client that this device belongs to.
    pub closed spec fn owner(self) -> usize {
        self.client
    }

    /// Wraps a handle that the plugin reported for a client.
    pub fn wrap(client: usize, ptr: usize) -> (device: Device)
        requires
            client != 0,
            ptr != 0,
        ensures
            device.handle() == ptr,
            device.owner() == client,
    {
        Device { client, ptr }
    }

    /// The handle of the client that this device belongs to.
    pub fn client(&self) -> (c: usize)
        ensures
            c == self.owner(),
            c != 0,
    {
        proof {
            use_type_invariant(self);
        }
        self.client
    }

    /// The handle, to pass back to the plugin.
    pub fn ptr(&self) -> (p: usize)
        ensures
            p == self.handle(),
            p != 0,
    {
        proof {
            use_type_invariant(self);
        }
        self.ptr
    }
}

/// Whether none of the handles is null.
pub open spec fn all_non_null(handles: Seq<usize>) -> bool {
    forall|i: int| 0 <= i < handles.len() ==> handles[i] != 0
}

/// Tests that none of the handles is null.
pub fn check_non_null(handles: &Vec<usize>) -> (b: bool)
    ensures
        b == all_non_null(handles@),
{
    let mut i: usize = 0;
    while i < handles.len()
        invariant
            i <= handles.len(),
            forall|j: int| 0 <= j < i ==> handles@[j] != 0,
        decreases handles.len() - i,
    {
        if handles[i] == 0 {
            return false;
        }
        i += 1;
    }
    true
}

/// Wraps every handle of a device list that the plugin reported for a
/// client, in order.
pub fn wrap_devices(client: usize, handles: &Vec<usize>) -> (devices: Vec<Device>)
    requires
        client != 0,
        all_non_null(handles@),
    ensures
        devices.len() == handles.len(),
        forall|i: int|
            0 <= i < handles.len() ==> (#[trigger] devices@[i]).handle() == handles@[i]
                && devices@[i].owner() == client,
{
    let mut devices: Vec<Device> = Vec::with_capacity(handles.len());
    let mut i: usize = 0;
    while i < handles.len()
        invariant
            i <= handles.len(),
            client != 0,
            all_non_null(handles@),
            devices.len() == i,
            forall|j: int|
                0 <= j < i ==> (#[trigger] devices@[j]).handle() == handles@[j]
                    && devices@[j].owner() == client,
        decreases handles.len() - i,
    {
        devices.push(Device::wrap(client, handles[i]));
        i += 1;
    }
    devices
}

} // verus!
