//! Foveation profiles and the swapchain calls that consume them.

use vstd::prelude::*;
use crate::extensions::{Extension, FunctionTable};
use crate::ownership::ObjectKind;
use crate::session::{created_spec, lookup_spec, Instance, Session, SessionInner};
use crate::status::{cvt, cvt_spec, Status};
use crate::types::{Handle, Scalar, StructureType};

verus! {

/// How strongly the periphery is coarsened.
#[derive(Clone, Copy, Debug, PartialEq, Eq, Structural)]
pub enum FoveationLevelFB {
    Off,
    Low,
    Medium,
    High,
}

/// Whether the runtime may lower the level on its own.
#[derive(Clone, Copy, Debug, PartialEq, Eq, Structural)]
pub enum FoveationDynamicFB {
    Disabled,
    LevelEnabled,
}

/// The settings of a level profile.
#[derive(Clone, Copy, Debug, PartialEq, Eq, Structural)]
pub struct FoveationLevelProfile {
    pub level: FoveationLevelFB,
    pub vertical_offset: Scalar,
    pub dynamic: FoveationDynamicFB,
}

/// The native structure that carries the settings of a level profile. Its
/// chain is empty.
#[derive(Clone, Copy, Debug, PartialEq, Eq, Structural)]
pub struct FoveationLevelProfileCreateInfoFB {
    pub ty: StructureType,
    pub vertical_offset: Scalar,
    pub level: FoveationLevelFB,
    pub dynamic: FoveationDynamicFB,
}

/// The native creation structure of a foveation profile. Its chain holds
/// the level profile, if one was given, and nothing else.
#[derive(Clone, Copy, Debug, PartialEq, Eq, Structural)]
pub struct FoveationProfileCreateInfoFB {
    pub ty: StructureType,
    pub next: Option<FoveationLevelProfileCreateInfoFB>,
}

/// Flags of a swapchain that is created for foveation, as the runtime
/// defines their bits.
#[derive(Clone, Copy, Debug, PartialEq, Eq, Structural)]
pub struct SwapchainCreateFoveationFlagsFB {
    pub bits: u64,
}

/// Flags of a foveation state update, as the runtime defines their bits.
#[derive(Clone, Copy, Debug, PartialEq, Eq, Structural)]
pub struct SwapchainStateFoveationFlagsFB {
    pub bits: u64,
}

/// The native structure that asks for a swapchain fit for foveation. Its
/// chain is empty.
#[derive(Clone, Copy, Debug, PartialEq, Eq, Structural)]
pub struct SwapchainCreateInfoFoveationFB {
    pub ty: StructureType,
    pub flags: SwapchainCreateFoveationFlagsFB,
}

/// The parameters of a swapchain, with the image format as the graphics
/// interface in use numbers it.
#[derive(Clone, Copy, Debug, PartialEq, Eq, Structural)]
pub struct SwapchainCreateInfo {
    pub create_flags: u64,
    pub usage_flags: u64,
    pub format: i64,
    pub sample_count: u32,
    pub width: u32,
    pub height: u32,
    pub face_count: u32,
    pub array_size: u32,
    pub mip_count: u32,
}

/// The native creation structure of a swapchain, with the foveation
/// structure as the only link of its chain.
#[derive(Clone, Copy, Debug, PartialEq, Eq, Structural)]
pub struct NativeSwapchainCreateInfo {
    pub ty: StructureType,
    pub next: Option<SwapchainCreateInfoFoveationFB>,
    pub create_flags: u64,
    pub usage_flags: u64,
    pub format: i64,
    pub sample_count: u32,
    pub width: u32,
    pub height: u32,
    pub face_count: u32,
    pub array_size: u32,
    pub mip_count: u32,
}

/// The native structure of a foveation state update. Its chain is empty.
#[derive(Clone, Copy, Debug, PartialEq, Eq, Structural)]
pub struct SwapchainStateFoveationFB {
    pub ty: StructureType,
    pub flags: SwapchainStateFoveationFlagsFB,
    pub profile: Handle,
}

/// What a foveation profile refers to: the instance, which must outlive it,
/// and its native handle.
#[derive(Clone, Copy, Debug, PartialEq, Eq, Structural)]
pub struct FoveationProfileFBInner {
    pub instance: Instance,
    pub handle: Handle,
}

/// A foveation profile. Its copies share one native profile, which lives
/// until the last of them is gone.
#[derive(Clone, Copy, Debug, PartialEq, Eq, Structural)]
pub struct FoveationProfileFB {
    pub inner: FoveationProfileFBInner,
}

/// The images a session renders into.
#[derive(Clone, Copy, Debug, PartialEq, Eq, Structural)]
pub struct Swapchain {
    pub session: SessionInner,
    pub handle: Handle,
}

/// The native structure that carries a level profile.
pub open spec fn level_profile_info_spec(profile: FoveationLevelProfile) -> FoveationLevelProfileCreateInfoFB {
    FoveationLevelProfileCreateInfoFB {
        ty: StructureType::FoveationLevelProfileCreateInfoFB,
        vertical_offset: profile.vertical_offset,
        level: profile.level,
        dynamic: profile.dynamic,
    }
}

/// The native creation structure for a profile with the given level
/// profile, or with none.
pub open spec fn profile_create_info_spec(level_profile: Option<FoveationLevelProfile>) -> FoveationProfileCreateInfoFB {
    FoveationProfileCreateInfoFB {
        ty: StructureType::FoveationProfileCreateInfoFB,
        next: match level_profile {
            Some(profile) => Some(level_profile_info_spec(profile)),
            None => None,
        },
    }
}

/// The native creation structure of a swapchain with the given parameters
/// and foveation flags.
pub open spec fn swapchain_create_info_spec(
    info: SwapchainCreateInfo,
    flags: SwapchainCreateFoveationFlagsFB,
) -> NativeSwapchainCreateInfo {
    NativeSwapchainCreateInfo {
        ty: StructureType::SwapchainCreateInfo,
        next: Some(SwapchainCreateInfoFoveationFB { ty: StructureType::SwapchainCreateInfoFoveationFB, flags }),
        create_flags: info.create_flags,
        usage_flags: info.usage_flags,
        format: info.format,
        sample_count: info.sample_count,
        width: info.width,
        height: info.height,
        face_count: info.face_count,
        array_size: info.array_size,
        mip_count: info.mip_count,
    }
}

/// What a profile creation reply yields: the extension-not-present error
/// when the foveation extension was not enabled, the native code when the
/// call failed, and otherwise the profile that owns the new handle and
/// refers to the instance of the session.
pub open spec fn profile_created_spec(session: SessionInner, code: Status, out: Handle) -> Result<
    FoveationProfileFB,
    Status,
> {
    match lookup_spec(session, Extension::FbFoveation) {
        Err(e) => Err(e),
        Ok(_) => match cvt_spec(code) {
            Err(e) => Err(e),
            Ok(_) => Ok(
                FoveationProfileFB { inner: FoveationProfileFBInner { instance: session.instance, handle: out } },
            ),
        },
    }
}

/// What the creation reply for a swapchain fit for foveation yields: the
/// extension-not-present error when the foveation extension was not
/// enabled, the native code when the call failed, and otherwise the
/// swapchain that owns the new handle.
pub open spec fn swapchain_with_foveation_created_spec(session: SessionInner, code: Status, out: Handle) -> Result<
    Swapchain,
    Status,
> {
    match created_spec(session, Extension::FbFoveation, code, out) {
        Err(e) => Err(e),
        Ok(handle) => Ok(Swapchain { session, handle }),
    }
}

/// The request of a foveation update of `swapchain` with `profile`: the
/// extension-not-present error when the state update extension was not
/// enabled, and otherwise the native structure with no flags set.
pub open spec fn update_foveation_spec(swapchain: Swapchain, profile: FoveationProfileFB) -> Result<
    SwapchainStateFoveationFB,
    Status,
> {
    match lookup_spec(swapchain.session, Extension::FbSwapchainUpdateState) {
        Err(e) => Err(e),
        Ok(_) => Ok(
            SwapchainStateFoveationFB {
                ty: StructureType::SwapchainStateFoveationFB,
                flags: SwapchainStateFoveationFlagsFB { bits: 0 },
                profile: profile.inner.handle,
            },
        ),
    }
}

/// What the reply to a foveation update of `swapchain` yields: the
/// extension-not-present error when the state update extension was not
/// enabled, the native code when the call failed, and nothing otherwise.
pub open spec fn foveation_updated_spec(swapchain: Swapchain, code: Status) -> Result<(), Status> {
    match lookup_spec(swapchain.session, Extension::FbSwapchainUpdateState) {
        Err(e) => Err(e),
        Ok(_) => match cvt_spec(code) {
            Err(e) => Err(e),
            Ok(_) => Ok(()),
        },
    }
}

impl FoveationProfileFB {
    /// Takes ownership of an existing foveation profile handle.
    ///
    /// `handle` must be a valid profile handle, owned by nothing else, that
    /// was created with a session of `instance`.
    pub fn from_raw(instance: Instance, handle: Handle) -> (r: FoveationProfileFB)
        ensures
            r.inner == (FoveationProfileFBInner { instance, handle }),
    {
        FoveationProfileFB { inner: FoveationProfileFBInner { instance, handle } }
    }

    /// The native handle of the profile.
    pub fn as_raw(&self) -> (r: Handle)
        ensures
            r == self.inner.handle,
    {
        self.inner.handle
    }

    /// The function table through which the profile is destroyed, or `None`
    /// when the profile was adopted on an instance without the foveation
    /// extension; no native destroy call is made then.
    pub fn fp(&self) -> (r: Option<FunctionTable>)
        ensures
            r == self.inner.instance.extensions.table(Extension::FbFoveation),
    {
        self.inner.instance.extensions.fb_foveation()
    }
}

impl Session {
    /// Begins the creation of a foveation profile: checks that the
    /// extension is enabled and fills the native creation structure, with
    /// the level profile chained to it if one is given. On an error no
    /// native call is to be made.
    pub fn create_foveation_profile(&self, level_profile: Option<FoveationLevelProfile>) -> (r: Result<
        FoveationProfileCreateInfoFB,
        Status,
    >)
        ensures
            match lookup_spec(self.inner, Extension::FbFoveation) {
                Err(e) => r == Err::<FoveationProfileCreateInfoFB, Status>(e),
                Ok(_) => r == Ok::<FoveationProfileCreateInfoFB, Status>(profile_create_info_spec(level_profile)),
            },
    {
        match self.require_extension(Extension::FbFoveation) {
            Err(e) => Err(e),
            Ok(_) => {
                let next = match level_profile {
                    Some(profile) => Some(
                        FoveationLevelProfileCreateInfoFB {
                            ty: StructureType::FoveationLevelProfileCreateInfoFB,
                            vertical_offset: profile.vertical_offset,
                            level: profile.level,
                            dynamic: profile.dynamic,
                        },
                    ),
                    None => None,
                };
                Ok(FoveationProfileCreateInfoFB { ty: StructureType::FoveationProfileCreateInfoFB, next })
            },
        }
    }

    /// Completes the creation of a foveation profile from the reply of the
    /// native creation function. The profile refers to the instance, not to
    /// the session.
    pub fn foveation_profile_created(&self, code: Status, out: Handle) -> (r: Result<FoveationProfileFB, Status>)
        ensures
            r == profile_created_spec(self.inner, code, out),
    {
        match self.created_handle(Extension::FbFoveation, code, out) {
            Err(e) => Err(e),
            Ok(handle) => Ok(FoveationProfileFB::from_raw(self.inner.instance, handle)),
        }
    }

    /// Begins the creation of a swapchain fit for foveation: checks that
    /// the foveation extension is enabled and fills the native creation
    /// structure with the parameters of `info` and, chained to them, the
    /// foveation structure that carries `flags`. On an error no native call
    /// is to be made.
    pub fn create_swapchain_with_foveation(
        &self,
        info: &SwapchainCreateInfo,
        flags: SwapchainCreateFoveationFlagsFB,
    ) -> (r: Result<NativeSwapchainCreateInfo, Status>)
        ensures
            match lookup_spec(self.inner, Extension::FbFoveation) {
                Err(e) => r == Err::<NativeSwapchainCreateInfo, Status>(e),
                Ok(_) => r == Ok::<NativeSwapchainCreateInfo, Status>(swapchain_create_info_spec(*info, flags)),
            },
    {
        match self.require_extension(Extension::FbFoveation) {
            Err(e) => Err(e),
            Ok(_) => Ok(
                NativeSwapchainCreateInfo {
                    ty: StructureType::SwapchainCreateInfo,
                    next: Some(
                        SwapchainCreateInfoFoveationFB {
                            ty: StructureType::SwapchainCreateInfoFoveationFB,
                            flags,
                        },
                    ),
                    create_flags: info.create_flags,
                    usage_flags: info.usage_flags,
                    format: info.format,
                    sample_count: info.sample_count,
                    width: info.width,
                    height: info.height,
                    face_count: info.face_count,
                    array_size: info.array_size,
                    mip_count: info.mip_count,
                },
            ),
        }
    }

    /// Completes the creation of a swapchain fit for foveation from the
    /// reply of the native creation function: the extension-not-present
    /// error when the foveation extension was not enabled, the native code
    /// on failure, and the swapchain that owns `out` on success.
    pub fn swapchain_with_foveation_created(&self, code: Status, out: Handle) -> (r: Result<Swapchain, Status>)
        ensures
            r == swapchain_with_foveation_created_spec(self.inner, code, out),
    {
        match self.created_handle(Extension::FbFoveation, code, out) {
            Err(e) => Err(e),
            Ok(handle) => Ok(Swapchain { session: self.inner, handle }),
        }
    }
}

impl Swapchain {
    /// Adopts a native swapchain handle that belongs to `session`.
    pub fn from_raw(session: &Session, handle: Handle) -> (r: Swapchain)
        ensures
            r == (Swapchain { session: session.inner, handle }),
    {
        Swapchain { session: session.inner, handle }
    }

    /// The native swapchain handle.
    pub fn as_raw(&self) -> (r: Handle)
        ensures
            r == self.handle,
    {
        self.handle
    }

    /// The kind under which an ownership graph knows the swapchain.
    pub fn kind(&self) -> (r: ObjectKind)
        ensures
            r == ObjectKind::Swapchain,
    {
        ObjectKind::Swapchain
    }

    /// The instance the swapchain belongs to.
    pub fn instance(&self) -> (r: &Instance)
        ensures
            *r == self.session.instance,
    {
        &self.session.instance
    }

    /// Begins a foveation update of the swapchain: checks that the state
    /// update extension is enabled and fills the native structure with the
    /// handle of `profile`. On an error no native call is to be made.
    pub fn update_foveation(&self, profile: &FoveationProfileFB) -> (r: Result<SwapchainStateFoveationFB, Status>)
        ensures
            r == update_foveation_spec(*self, *profile),
    {
        match self.session.instance.extensions.fb_swapchain_update_state() {
            None => Err(Status::extension_not_present()),
            Some(_) => Ok(
                SwapchainStateFoveationFB {
                    ty: StructureType::SwapchainStateFoveationFB,
                    flags: SwapchainStateFoveationFlagsFB { bits: 0 },
                    profile: profile.as_raw(),
                },
            ),
        }
    }

    /// Completes a foveation update from the reply of the native call: the
    /// extension-not-present error when the state update extension was not
    /// enabled, the native code on failure, and nothing on success.
    pub fn foveation_updated(&self, code: Status) -> (r: Result<(), Status>)
        ensures
            r == foveation_updated_spec(*self, code),
    {
        match self.session.instance.extensions.fb_swapchain_update_state() {
            None => Err(Status::extension_not_present()),
            Some(_) => match cvt(code) {
                Err(e) => Err(e),
                Ok(_) => Ok(()),
            },
        }
    }
}

} // verus!
