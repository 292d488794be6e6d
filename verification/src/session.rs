//! Instances, sessions and the objects every tracker is created from.

use vstd::prelude::*;
use crate::extensions::{Extension, FunctionTable, InstanceExtensions};
use crate::ownership::ObjectKind;
use crate::status::{cvt_spec, Status, ERROR_EXTENSION_NOT_PRESENT};
use crate::types::Handle;

verus! {

/// The negotiated connection to the runtime: its native handle and the table
/// of extension functions that was resolved when it was created.
#[derive(Clone, Copy, Debug, PartialEq, Eq, Structural)]
pub struct Instance {
    pub handle: Handle,
    pub extensions: InstanceExtensions,
}

impl Instance {
    /// Adopts a native instance handle together with its extension table.
    pub fn from_raw(handle: Handle, extensions: InstanceExtensions) -> (r: Instance)
        ensures
            r.handle == handle,
            r.extensions == extensions,
    {
        Instance { handle, extensions }
    }

    /// The native instance handle.
    pub fn as_raw(&self) -> (r: Handle)
        ensures
            r == self.handle,
    {
        self.handle
    }

    /// The extension function table of the instance.
    pub fn exts(&self) -> (r: &InstanceExtensions)
        ensures
            *r == self.extensions,
    {
        &self.extensions
    }
}

/// What every object created from a session refers to: the instance and the
/// native session handle.
#[derive(Clone, Copy, Debug, PartialEq, Eq, Structural)]
pub struct SessionInner {
    pub instance: Instance,
    pub handle: Handle,
}

impl SessionInner {
    /// The function table of `ext` in the instance of this session.
    pub open spec fn table(self, ext: Extension) -> Option<FunctionTable> {
        self.instance.extensions.table(ext)
    }
}

/// A bound runtime context, from which trackers, spaces and swapchains are
/// created.
#[derive(Clone, Copy, Debug, PartialEq, Eq, Structural)]
pub struct Session {
    pub inner: SessionInner,
}

/// What the first step of a creation returns: the function table of the
/// extension, or the extension-not-present error when it was not enabled.
pub open spec fn lookup_spec(session: SessionInner, ext: Extension) -> Result<FunctionTable, Status> {
    match session.table(ext) {
        Some(table) => Ok(table),
        None => Err(Status { raw: ERROR_EXTENSION_NOT_PRESENT }),
    }
}

/// What a creation reply yields: the extension-not-present error when the
/// extension was not enabled, the native code when the call failed, and the
/// handle that the runtime wrote otherwise.
pub open spec fn created_spec(session: SessionInner, ext: Extension, code: Status, out: Handle) -> Result<
    Handle,
    Status,
> {
    match lookup_spec(session, ext) {
        Err(e) => Err(e),
        Ok(_) => match cvt_spec(code) {
            Err(e) => Err(e),
            Ok(_) => Ok(out),
        },
    }
}

impl Session {
    /// Adopts a native session handle that belongs to `instance`.
    pub fn from_raw(instance: Instance, handle: Handle) -> (r: Session)
        ensures
            r.inner == (SessionInner { instance, handle }),
    {
        Session { inner: SessionInner { instance, handle } }
    }

    /// The native session handle.
    pub fn as_raw(&self) -> (r: Handle)
        ensures
            r == self.inner.handle,
    {
        self.inner.handle
    }

    /// The instance the session belongs to.
    pub fn instance(&self) -> (r: &Instance)
        ensures
            *r == self.inner.instance,
    {
        &self.inner.instance
    }

    /// The first step of every creation: looks up the function table of the
    /// extension that backs the object, and fails when it was not enabled.
    pub fn require_extension(&self, ext: Extension) -> (r: Result<FunctionTable, Status>)
        ensures
            r == lookup_spec(self.inner, ext),
    {
        match self.inner.instance.extensions.get(ext) {
            Some(table) => Ok(table),
            None => Err(Status::extension_not_present()),
        }
    }

    /// The last step of every creation: turns the reply of the native
    /// creation function into the new handle or the error to return.
    pub fn created_handle(&self, ext: Extension, code: Status, out: Handle) -> (r: Result<Handle, Status>)
        ensures
            r == created_spec(self.inner, ext, code, out),
    {
        match self.require_extension(ext) {
            Err(e) => Err(e),
            Ok(_) => match crate::status::cvt(code) {
                Err(e) => Err(e),
                Ok(_) => Ok(out),
            },
        }
    }
}

/// A frame of reference in which tracked data is located.
#[derive(Clone, Copy, Debug, PartialEq, Eq, Structural)]
pub struct Space {
    pub session: SessionInner,
    pub handle: Handle,
}

impl Space {
    /// Adopts a native space handle that belongs to `session`.
    pub fn from_raw(session: &Session, handle: Handle) -> (r: Space)
        ensures
            r.session == session.inner,
            r.handle == handle,
    {
        Space { session: session.inner, handle }
    }

    /// The native space handle.
    pub fn as_raw(&self) -> (r: Handle)
        ensures
            r == self.handle,
    {
        self.handle
    }

    /// The kind under which an ownership graph knows the space.
    pub fn kind(&self) -> (r: ObjectKind)
        ensures
            r == ObjectKind::Space,
    {
        ObjectKind::Space
    }
}

/// A creation request is refused with the extension-not-present error
/// exactly when the backing extension was not enabled, and then no reply of
/// the runtime changes the outcome.
pub proof fn lemma_refused_without_extension(session: SessionInner, ext: Extension, code: Status, out: Handle)
    requires
        session.table(ext) is None,
    ensures
        lookup_spec(session, ext) == Err::<FunctionTable, Status>(Status { raw: ERROR_EXTENSION_NOT_PRESENT }),
        created_spec(session, ext, code, out) == Err::<Handle, Status>(
            Status { raw: ERROR_EXTENSION_NOT_PRESENT },
        ),
{
}

} // verus!
