//! Full-body tracking: a body tracker that can also report the lower body.

use vstd::prelude::*;
use crate::extensions::{Extension, FunctionTable};
use crate::ownership::ObjectKind;
use crate::session::{created_spec, lookup_spec, Session, SessionInner};
use crate::status::Status;
use crate::types::{Handle, Posef, StructureType};

verus! {

/// The number of joints of the default joint set.
pub const BODY_JOINT_COUNT_META: usize = 70;

/// The number of joints of the full-body joint set.
pub const BODY_JOINT_FULL_BODY_COUNT_META: usize = 84;

/// The joint sets a full-body tracker can be created for.
#[derive(Clone, Copy, Debug, PartialEq, Eq, Structural)]
pub enum BodyJointSetFullBodyMETA {
    Default,
    FullBody,
}

/// The native creation structure of a full-body tracker. Its chain is empty.
#[derive(Clone, Copy, Debug, PartialEq, Eq, Structural)]
pub struct BodyTrackerFullBodyCreateInfoMETA {
    pub ty: StructureType,
    pub body_joint_set: BodyJointSetFullBodyMETA,
}

/// The location of one joint of the full-body set.
#[derive(Clone, Copy, Debug, PartialEq, Eq, Structural)]
pub struct BodyJointFullBodyLocationMETA {
    pub location_flags: u64,
    pub pose: Posef,
}

/// An array of joint locations, one for each joint of the full-body set.
pub type BodyJointFullBodyMETALocations = [BodyJointFullBodyLocationMETA; 84];

/// The joint set that is requested for a tracker of the whole body or of
/// the upper body alone.
pub open spec fn joint_set_for(full_body: bool) -> BodyJointSetFullBodyMETA {
    if full_body {
        BodyJointSetFullBodyMETA::FullBody
    } else {
        BodyJointSetFullBodyMETA::Default
    }
}

/// The number of joints that a tracker of the given joint set reports.
pub open spec fn joint_count_spec(set: BodyJointSetFullBodyMETA) -> usize {
    match set {
        BodyJointSetFullBodyMETA::Default => BODY_JOINT_COUNT_META,
        BodyJointSetFullBodyMETA::FullBody => BODY_JOINT_FULL_BODY_COUNT_META,
    }
}

/// The number of joints that a tracker of the given joint set reports.
pub fn joint_count(set: BodyJointSetFullBodyMETA) -> (r: usize)
    ensures
        r == joint_count_spec(set),
{
    match set {
        BodyJointSetFullBodyMETA::Default => BODY_JOINT_COUNT_META,
        BodyJointSetFullBodyMETA::FullBody => BODY_JOINT_FULL_BODY_COUNT_META,
    }
}

/// A running full-body tracker. It refers to the session it was created
/// from and owns its native handle.
#[derive(Debug)]
pub struct BodyTrackerFullBodyMETA {
    session: SessionInner,
    handle: Handle,
}

impl BodyTrackerFullBodyMETA {
    #[verifier::type_invariant]
    spec fn has_functions(self) -> bool {
        self.session.table(Extension::MetaBodyTrackingFullBody) is Some
    }

    /// The session the tracker refers to.
    pub closed spec fn session_spec(self) -> SessionInner {
        self.session
    }

    /// The native handle the tracker owns.
    pub closed spec fn handle_spec(self) -> Handle {
        self.handle
    }

    /// The native handle of the tracker.
    pub fn as_raw(&self) -> (r: Handle)
        ensures
            r == self.handle_spec(),
    {
        self.handle
    }

    /// The kind under which an ownership graph knows the tracker.
    pub fn kind(&self) -> (r: ObjectKind)
        ensures
            r == ObjectKind::BodyTrackerFullBodyMETA,
    {
        ObjectKind::BodyTrackerFullBodyMETA
    }

    /// The session the tracker was created from.
    pub fn session(&self) -> (r: SessionInner)
        ensures
            r == self.session_spec(),
    {
        self.session
    }

    /// Takes ownership of an existing full-body tracker.
    ///
    /// `handle` must be a valid tracker handle of `session`, owned by
    /// nothing else, and the full-body tracking extension must be enabled.
    pub fn from_raw(session: &Session, handle: Handle) -> (r: BodyTrackerFullBodyMETA)
        requires
            session.inner.table(Extension::MetaBodyTrackingFullBody) is Some,
        ensures
            r.session_spec() == session.inner,
            r.handle_spec() == handle,
    {
        BodyTrackerFullBodyMETA { session: session.inner, handle }
    }

    /// The function table the tracker's calls go through. It is there for
    /// as long as the tracker is.
    pub fn fp(&self) -> (r: FunctionTable)
        ensures
            self.session_spec().table(Extension::MetaBodyTrackingFullBody) == Some(r),
            r.extension == Extension::MetaBodyTrackingFullBody,
    {
        proof {
            use_type_invariant(self);
            crate::extensions::lemma_table_is_own(
                self.session.instance.extensions,
                Extension::MetaBodyTrackingFullBody,
            );
        }
        match self.session.instance.extensions.meta_body_tracking_full_body() {
            Some(table) => table,
            None => vstd::pervasive::unreached(),
        }
    }
}

/// The tracker that a creation reply yields.
pub open spec fn full_body_tracker_created_spec(
    session: SessionInner,
    code: Status,
    out: Handle,
    r: Result<BodyTrackerFullBodyMETA, Status>,
) -> bool {
    match created_spec(session, Extension::MetaBodyTrackingFullBody, code, out) {
        Err(e) => r == Err::<BodyTrackerFullBodyMETA, Status>(e),
        Ok(handle) => r is Ok && r->Ok_0.session_spec() == session && r->Ok_0.handle_spec() == handle,
    }
}

impl Session {
    /// Begins the creation of a full-body tracker: checks that the
    /// extension is enabled and fills the native creation structure with
    /// the full-body joint set if `full_body` is set and the default set
    /// otherwise. On an error no native call is to be made.
    pub fn create_body_tracker_full_body_meta(&self, full_body: bool) -> (r: Result<
        BodyTrackerFullBodyCreateInfoMETA,
        Status,
    >)
        ensures
            match lookup_spec(self.inner, Extension::MetaBodyTrackingFullBody) {
                Err(e) => r == Err::<BodyTrackerFullBodyCreateInfoMETA, Status>(e),
                Ok(_) => r == Ok::<BodyTrackerFullBodyCreateInfoMETA, Status>(
                    BodyTrackerFullBodyCreateInfoMETA {
                        ty: StructureType::BodyTrackerFullBodyCreateInfoMETA,
                        body_joint_set: joint_set_for(full_body),
                    },
                ),
            },
    {
        match self.require_extension(Extension::MetaBodyTrackingFullBody) {
            Err(e) => Err(e),
            Ok(_) => {
                let body_joint_set = if full_body {
                    BodyJointSetFullBodyMETA::FullBody
                } else {
                    BodyJointSetFullBodyMETA::Default
                };
                Ok(
                    BodyTrackerFullBodyCreateInfoMETA {
                        ty: StructureType::BodyTrackerFullBodyCreateInfoMETA,
                        body_joint_set,
                    },
                )
            },
        }
    }

    /// Completes the creation of a full-body tracker from the reply of the
    /// native creation function: the tracker that owns `out` on success, the
    /// native code on failure.
    pub fn body_tracker_full_body_meta_created(&self, code: Status, out: Handle) -> (r: Result<
        BodyTrackerFullBodyMETA,
        Status,
    >)
        ensures
            full_body_tracker_created_spec(self.inner, code, out, r),
    {
        match self.created_handle(Extension::MetaBodyTrackingFullBody, code, out) {
            Err(e) => Err(e),
            Ok(handle) => Ok(BodyTrackerFullBodyMETA { session: self.inner, handle }),
        }
    }
}

} // verus!
