//! The context: one instance of an audio backend.
use vstd::prelude::*;

use crate::error::{error_of, Error, Result};
use crate::ffi::{c_string, has_nul, CUBEB_OK};
use crate::handle::{released, NativeHandle};
use vstd::string::StringSliceAdditionalSpecFns;

verus! {

/// The zero-terminated names handed to native context initialisation.
#[derive(Debug)]
pub struct InitRequest {
    pub context_name: Vec<u8>,
    /// The requested backend, when one is named.
    pub backend_name: Option<Vec<u8>>,
}

/// Whether an optional name holds a zero byte.
pub open spec fn opt_has_nul(name: Option<&str>) -> bool {
    match name {
        Some(n) => has_nul(n.spec_bytes()),
        None => false,
    }
}

/// A native context handle together with the name it was created under.
#[derive(Debug)]
pub struct Context {
    native: NativeHandle,
    name: String,
}

impl Context {
    /// The native context.
    pub closed spec fn spec_handle(&self) -> NativeHandle {
        self.native
    }

    /// The name the context was created under.
    pub closed spec fn spec_name(&self) -> Seq<char> {
        self.name@
    }

    /// The names to initialise a context with; `None` when either holds a zero byte, so
    /// that such a name is refused before the native library is called.
    pub fn prepare(context_name: &str, backend_name: Option<&str>) -> (r: Option<InitRequest>)
        ensures
            r.is_none() <==> (has_nul(context_name.spec_bytes()) || opt_has_nul(backend_name)),
            r matches Some(q) ==> {
                &&& q.context_name@ == context_name.spec_bytes().push(0)
                &&& match backend_name {
                    Some(b) => q.backend_name matches Some(v) && v@ == b.spec_bytes().push(0),
                    None => q.backend_name.is_none(),
                }
            },
    {
        let name = match c_string(context_name) {
            Some(n) => n,
            None => return None,
        };
        let backend = match backend_name {
            Some(b) => match c_string(b) {
                Some(v) => Some(v),
                None => return None,
            },
            None => None,
        };
        Some(InitRequest { context_name: name, backend_name: backend })
    }

    /// The context an initialisation call produced: `status` is what the call returned,
    /// `addr` the native context it filled in.
    pub fn from_init(status: libc::c_int, addr: usize, name: &str) -> (r: Result<Context>)
        ensures
            status == CUBEB_OK <==> r is Ok,
            r is Err ==> r == Err::<Context, Error>(error_of(status as int)),
            r matches Ok(c) ==> {
                &&& c.spec_handle().spec_live()
                &&& c.spec_handle().spec_addr() == addr
                &&& c.spec_name() == name@
            },
    {
        if status != CUBEB_OK {
            return Err(Error::from(status));
        }
        Ok(Context { native: NativeHandle::new(addr), name: name.to_owned() })
    }

    /// Address of the native context.
    pub fn native(&self) -> (r: usize)
        ensures
            r == self.spec_handle().spec_addr(),
    {
        self.native.addr()
    }

    /// The name the context was created under.
    pub fn name(&self) -> (r: &str)
        ensures
            r@ == self.spec_name(),
    {
        self.name.as_str()
    }

    /// Gives the native context up for release: its address the first time, `None` after.
    pub fn release(&mut self) -> (r: Option<usize>)
        ensures
            released(old(self).spec_handle(), final(self).spec_handle(), r),
            final(self).spec_name() == old(self).spec_name(),
    {
        self.native.release()
    }
}

/// An empty context name is always accepted, as the single terminating zero.
pub proof fn lemma_empty_name_accepted(name: &str)
    requires
        name.spec_bytes().len() == 0,
    ensures
        !has_nul(name.spec_bytes()),
        name.spec_bytes().push(0) == seq![0u8],
{
    assert(name.spec_bytes().push(0) =~= seq![0u8]);
}

} // verus!
