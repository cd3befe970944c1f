use vstd::prelude::*;
use crate::error::Error;

verus! {

/// An owned buffer of the plugin, known by its handle and by the handle of
/// the client that it belongs to. Neither handle is null.
#[derive(Debug, PartialEq, Eq)]
pub struct Buffer {
    client: usize,
    ptr: usize,
}

impl Buffer {
    #[verifier::type_invariant]
    spec fn non_null(self) -> bool {
        self.ptr != 0 && self.client != 0
    }

    /// The handle that this buffer owns.
    pub closed spec fn handle(self) -> usize {
        self.ptr
    }

    /// The handle of the client that this buffer belongs to.
    pub closed spec fn owner(self) -> usize {
        self.client
    }

    /// Takes ownership of a handle that the plugin filled in for a client.
    pub fn wrap(client: usize, ptr: usize) -> (buffer: Buffer)
        requires
            client != 0,
            ptr != 0,
        ensures
            buffer.handle() == ptr,
            buffer.owner() == client,
    {
        Buffer { client, ptr }
    }

    /// Takes ownership of a handle, refusing a null handle.
    pub fn try_wrap(client: usize, ptr: usize) -> (r: Result<Buffer, Error>)
        ensures
            client != 0 && ptr != 0 ==> r.is_ok() && r.unwrap().handle() == ptr
                && r.unwrap().owner() == client,
            client == 0 || ptr == 0 ==> r == Err::<Buffer, Error>(Error::NullPointer),
    {
        if client == 0 || ptr == 0 {
            Err(Error::NullPointer)
        } else {
            Ok(Buffer::wrap(client, ptr))
        }
    }

    /// The handle, to pass back to the plugin.
    pub fn ptr(&self) -> (p: usize)
        ensures
            p == self.handle(),
            p != 0,
    {
        proof {
            use_type_invariant(self);
        }
        self.ptr
    }

    /// The handle of the client that this buffer belongs to.
    pub fn client(&self) -> (c: usize)
        ensures
            c == self.owner(),
            c != 0,
    {
        proof {
            use_type_invariant(self);
        }
        self.client
    }
}

} // verus!
