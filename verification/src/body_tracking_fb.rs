//! Body tracking: a tracker that reports the pose of seventy body joints.

use vstd::prelude::*;
use crate::extensions::{Extension, FunctionTable};
use crate::ownership::ObjectKind;
use crate::session::{created_spec, lookup_spec, Session, SessionInner, Space};
use crate::status::{cvt, cvt_spec, Status};
use crate::types::{Handle, Posef, Scalar, StructureType, Time};

verus! {

/// The number of joints of the default joint set.
pub const BODY_JOINT_COUNT_FB: usize = 70;

/// The joint sets a body tracker can be created for.
#[derive(Clone, Copy, Debug, PartialEq, Eq, Structural)]
pub enum BodyJointSetFB {
    Default,
}

/// The native creation structure of a body tracker. Its chain is empty.
#[derive(Clone, Copy, Debug, PartialEq, Eq, Structural)]
pub struct BodyTrackerCreateInfoFB {
    pub ty: StructureType,
    pub body_joint_set: BodyJointSetFB,
}

/// The native request structure of a joint query. Its chain is empty.
#[derive(Clone, Copy, Debug, PartialEq, Eq, Structural)]
pub struct BodyJointsLocateInfoFB {
    pub ty: StructureType,
    pub base_space: Handle,
    pub time: Time,
}

/// What the reply structure of a joint query holds when it is handed to
/// the runtime: its tag, the activity flag unset, and the number of joints
/// there is room for. Its chain is empty; every other field is written by
/// the runtime alone.
#[derive(Clone, Copy, Debug, PartialEq, Eq, Structural)]
pub struct BodyJointLocationsHeaderFB {
    pub ty: StructureType,
    pub is_active: bool,
    pub joint_count: u32,
}

/// The location of one joint.
#[derive(Clone, Copy, Debug, PartialEq, Eq, Structural)]
pub struct BodyJointLocationFB {
    pub location_flags: u64,
    pub pose: Posef,
}

/// An array of joint locations, one for each joint of the default set.
pub type BodyJointFBLocations = [BodyJointLocationFB; 70];

/// What the runtime wrote in reply to a joint query.
#[derive(Debug)]
pub struct BodyJointLocationsFB {
    pub is_active: bool,
    pub confidence: Scalar,
    pub joint_locations: BodyJointFBLocations,
    pub skeleton_changed_count: u32,
    pub time: Time,
}

/// A snapshot of the tracked body.
#[derive(Debug)]
pub struct BodyJointLocations {
    pub joints: BodyJointFBLocations,
    pub confidence: Scalar,
    pub skeleton_changed_count: u32,
    pub time: Time,
}

/// The snapshot that a reply is shaped into: every field as the runtime
/// wrote it. Nothing but the success of the call decides whether there is
/// a snapshot: the activity flag of the reply does not.
pub open spec fn body_joints_spec(code: Status, native: BodyJointLocationsFB) -> Result<
    BodyJointLocations,
    Status,
> {
    match cvt_spec(code) {
        Err(e) => Err(e),
        Ok(_) => Ok(
            BodyJointLocations {
                joints: native.joint_locations,
                confidence: native.confidence,
                skeleton_changed_count: native.skeleton_changed_count,
                time: native.time,
            },
        ),
    }
}

/// A running body tracker. It refers to the session it was created from and
/// owns its native handle.
#[derive(Debug)]
pub struct BodyTrackerFB {
    session: SessionInner,
    handle: Handle,
}

impl BodyTrackerFB {
    #[verifier::type_invariant]
    spec fn has_functions(self) -> bool {
        self.session.table(Extension::FbBodyTracking) is Some
    }

    /// The session the tracker refers to.
    pub closed spec fn session_spec(self) -> SessionInner {
        self.session
    }

    /// The native handle the tracker owns.
    pub closed spec fn handle_spec(self) -> Handle {
        self.handle
    }

    /// The native handle of the tracker.
    pub fn as_raw(&self) -> (r: Handle)
        ensures
            r == self.handle_spec(),
    {
        self.handle
    }

    /// The kind under which an ownership graph knows the tracker.
    pub fn kind(&self) -> (r: ObjectKind)
        ensures
            r == ObjectKind::BodyTrackerFB,
    {
        ObjectKind::BodyTrackerFB
    }

    /// The session the tracker was created from.
    pub fn session(&self) -> (r: SessionInner)
        ensures
            r == self.session_spec(),
    {
        self.session
    }

    /// Takes ownership of an existing body tracker.
    ///
    /// `handle` must be a valid body tracker handle of `session`, owned by
    /// nothing else, and the body tracking extension must be enabled.
    pub fn from_raw(session: &Session, handle: Handle) -> (r: BodyTrackerFB)
        requires
            session.inner.table(Extension::FbBodyTracking) is Some,
        ensures
            r.session_spec() == session.inner,
            r.handle_spec() == handle,
    {
        BodyTrackerFB { session: session.inner, handle }
    }

    /// The function table the tracker's calls go through. It is there for
    /// as long as the tracker is.
    pub fn fp(&self) -> (r: FunctionTable)
        ensures
            self.session_spec().table(Extension::FbBodyTracking) == Some(r),
            r.extension == Extension::FbBodyTracking,
    {
        proof {
            use_type_invariant(self);
            crate::extensions::lemma_table_is_own(self.session.instance.extensions, Extension::FbBodyTracking);
        }
        match self.session.instance.extensions.fb_body_tracking() {
            Some(table) => table,
            None => vstd::pervasive::unreached(),
        }
    }

    /// The request of a joint query at `time`, relative to `base`.
    ///
    /// `base` must belong to the session of the tracker.
    pub fn locate_body_joints(&self, base: &Space, time: Time) -> (r: BodyJointsLocateInfoFB)
        requires
            base.session == self.session_spec(),
        ensures
            r == (BodyJointsLocateInfoFB {
                ty: StructureType::BodyJointsLocateInfoFB,
                base_space: base.handle,
                time,
            }),
    {
        BodyJointsLocateInfoFB { ty: StructureType::BodyJointsLocateInfoFB, base_space: base.handle, time }
    }

    /// The header of the reply structure that goes with a joint query:
    /// tagged as joint locations, marked inactive, with room for every
    /// joint of the default set.
    pub fn body_joint_locations_header(&self) -> (r: BodyJointLocationsHeaderFB)
        ensures
            r == (BodyJointLocationsHeaderFB {
                ty: StructureType::BodyJointLocationsFB,
                is_active: false,
                joint_count: 70,
            }),
            r.joint_count == BODY_JOINT_COUNT_FB,
    {
        BodyJointLocationsHeaderFB { ty: StructureType::BodyJointLocationsFB, is_active: false, joint_count: 70 }
    }

    /// Shapes the reply to a joint query. A failed call gives its code; a
    /// successful one gives all joints, the confidence and the counter of
    /// skeleton changes as the runtime wrote them.
    pub fn body_joints_located(&self, code: Status, native: &BodyJointLocationsFB) -> (r: Result<
        BodyJointLocations,
        Status,
    >)
        ensures
            r == body_joints_spec(code, *native),
    {
        match cvt(code) {
            Err(e) => Err(e),
            Ok(_) => Ok(
                BodyJointLocations {
                    joints: native.joint_locations,
                    confidence: native.confidence,
                    skeleton_changed_count: native.skeleton_changed_count,
                    time: native.time,
                },
            ),
        }
    }
}

/// The tracker that a creation reply yields.
pub open spec fn body_tracker_created_spec(session: SessionInner, code: Status, out: Handle, r: Result<
    BodyTrackerFB,
    Status,
>) -> bool {
    match created_spec(session, Extension::FbBodyTracking, code, out) {
        Err(e) => r == Err::<BodyTrackerFB, Status>(e),
        Ok(handle) => r is Ok && r->Ok_0.session_spec() == session && r->Ok_0.handle_spec() == handle,
    }
}

impl Session {
    /// Begins the creation of a body tracker: checks that the extension is
    /// enabled and fills the native creation structure. On an error no
    /// native call is to be made.
    pub fn create_body_tracker_fb(&self) -> (r: Result<BodyTrackerCreateInfoFB, Status>)
        ensures
            match lookup_spec(self.inner, Extension::FbBodyTracking) {
                Err(e) => r == Err::<BodyTrackerCreateInfoFB, Status>(e),
                Ok(_) => r == Ok::<BodyTrackerCreateInfoFB, Status>(
                    BodyTrackerCreateInfoFB {
                        ty: StructureType::BodyTrackerCreateInfoFB,
                        body_joint_set: BodyJointSetFB::Default,
                    },
                ),
            },
    {
        match self.require_extension(Extension::FbBodyTracking) {
            Err(e) => Err(e),
            Ok(_) => Ok(
                BodyTrackerCreateInfoFB {
                    ty: StructureType::BodyTrackerCreateInfoFB,
                    body_joint_set: BodyJointSetFB::Default,
                },
            ),
        }
    }

    /// Completes the creation of a body tracker from the reply of the
    /// native creation function: the tracker that owns `out` on success, the
    /// native code on failure, and nothing in between.
    pub fn body_tracker_fb_created(&self, code: Status, out: Handle) -> (r: Result<BodyTrackerFB, Status>)
        ensures
            body_tracker_created_spec(self.inner, code, out, r),
    {
        match self.created_handle(Extension::FbBodyTracking, code, out) {
            Err(e) => Err(e),
            Ok(handle) => Ok(BodyTrackerFB { session: self.inner, handle }),
        }
    }
}

/// The counter of skeleton changes passes through a query unchanged, so it
/// never decreases from one query to the next while the runtime's counter
/// does not, and grows by exactly one when the runtime's counter does.
pub proof fn lemma_skeleton_counter_follows_runtime(
    first: BodyJointLocationsFB,
    second: BodyJointLocationsFB,
    code_first: Status,
    code_second: Status,
)
    requires
        !code_first.is_error(),
        !code_second.is_error(),
    ensures
        body_joints_spec(code_first, first) is Ok,
        body_joints_spec(code_second, second) is Ok,
        first.skeleton_changed_count <= second.skeleton_changed_count ==> body_joints_spec(
            code_first,
            first,
        )->Ok_0.skeleton_changed_count <= body_joints_spec(code_second, second)->Ok_0.skeleton_changed_count,
        second.skeleton_changed_count == first.skeleton_changed_count + 1 ==> body_joints_spec(
            code_second,
            second,
        )->Ok_0.skeleton_changed_count == body_joints_spec(code_first, first)->Ok_0.skeleton_changed_count + 1,
        second.skeleton_changed_count == first.skeleton_changed_count ==> body_joints_spec(
            code_second,
            second,
        )->Ok_0.skeleton_changed_count == body_joints_spec(code_first, first)->Ok_0.skeleton_changed_count,
{
}

} // verus!
