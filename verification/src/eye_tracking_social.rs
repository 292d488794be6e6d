//! Social eye tracking: a tracker that reports the gaze of both eyes.

use vstd::prelude::*;
use crate::extensions::{Extension, FunctionTable};
use crate::ownership::ObjectKind;
use crate::session::{created_spec, lookup_spec, Session, SessionInner, Space};
use crate::status::{cvt, cvt_spec, Status};
use crate::types::{Handle, Posef, Scalar, StructureType, Time};

verus! {

/// The index of the left eye in a pair of gazes.
pub const EYE_LEFT: usize = 0;

/// The index of the right eye in a pair of gazes.
pub const EYE_RIGHT: usize = 1;

/// The native creation structure of an eye tracker. Its chain is empty.
#[derive(Clone, Copy, Debug, PartialEq, Eq, Structural)]
pub struct EyeTrackerCreateInfoFB {
    pub ty: StructureType,
}

/// The native request structure of a gaze query. Its chain is empty.
#[derive(Clone, Copy, Debug, PartialEq, Eq, Structural)]
pub struct EyeGazesInfoFB {
    pub ty: StructureType,
    pub base_space: Handle,
    pub time: Time,
}

/// What the reply structure of a gaze query holds when it is handed to the
/// runtime: its tag. Its chain is empty; the gazes and the time are written
/// by the runtime alone.
#[derive(Clone, Copy, Debug, PartialEq, Eq, Structural)]
pub struct EyeGazesHeaderFB {
    pub ty: StructureType,
}

/// What the runtime wrote for one eye. Pose and confidence mean nothing
/// unless `is_valid` is set.
#[derive(Clone, Copy, Debug, PartialEq, Eq, Structural)]
pub struct EyeGazeFB {
    pub is_valid: bool,
    pub gaze_pose: Posef,
    pub gaze_confidence: Scalar,
}

/// What the runtime wrote in reply to a gaze query.
#[derive(Clone, Copy, Debug)]
pub struct EyeGazesFB {
    pub gaze: [EyeGazeFB; 2],
    pub time: Time,
}

/// The gaze of one eye.
#[derive(Clone, Copy, Debug, PartialEq, Eq, Structural)]
pub struct EyeGaze {
    pub pose: Posef,
    pub confidence: Scalar,
}

/// The gazes of the left and the right eye, each absent while the runtime
/// does not track that eye.
#[derive(Clone, Copy, Debug)]
pub struct EyeGazes {
    pub gaze: [Option<EyeGaze>; 2],
    pub time: Time,
}

/// The gaze that one eye's native value is shaped into: absent when the
/// value is not valid, its pose and confidence unchanged when it is.
pub open spec fn eye_gaze_spec(native: EyeGazeFB) -> Option<EyeGaze> {
    if native.is_valid {
        Some(EyeGaze { pose: native.gaze_pose, confidence: native.gaze_confidence })
    } else {
        None
    }
}

/// Whether `r` is what a gaze reply is shaped into: the native code when the
/// call failed; otherwise each eye shaped on its own and the native time.
pub open spec fn eye_gazes_spec(code: Status, native: EyeGazesFB, r: Result<EyeGazes, Status>) -> bool {
    match cvt_spec(code) {
        Err(e) => r == Err::<EyeGazes, Status>(e),
        Ok(_) => {
            &&& r is Ok
            &&& r->Ok_0.gaze[0] == eye_gaze_spec(native.gaze[0])
            &&& r->Ok_0.gaze[1] == eye_gaze_spec(native.gaze[1])
            &&& r->Ok_0.time == native.time
        },
    }
}

/// Shapes the native value of one eye.
pub fn shape_eye_gaze(native: &EyeGazeFB) -> (r: Option<EyeGaze>)
    ensures
        r == eye_gaze_spec(*native),
{
    if native.is_valid {
        Some(EyeGaze { pose: native.gaze_pose, confidence: native.gaze_confidence })
    } else {
        None
    }
}

/// A running eye tracker. It refers to the session it was created from and
/// owns its native handle.
#[derive(Debug)]
pub struct EyeTrackerSocial {
    session: SessionInner,
    handle: Handle,
}

impl EyeTrackerSocial {
    #[verifier::type_invariant]
    spec fn has_functions(self) -> bool {
        self.session.table(Extension::FbEyeTrackingSocial) is Some
    }

    /// The session the tracker refers to.
    pub closed spec fn session_spec(self) -> SessionInner {
        self.session
    }

    /// The native handle the tracker owns.
    pub closed spec fn handle_spec(self) -> Handle {
        self.handle
    }

    /// The native handle of the tracker.
    pub fn as_raw(&self) -> (r: Handle)
        ensures
            r == self.handle_spec(),
    {
        self.handle
    }

    /// The kind under which an ownership graph knows the tracker.
    pub fn kind(&self) -> (r: ObjectKind)
        ensures
            r == ObjectKind::EyeTrackerSocial,
    {
        ObjectKind::EyeTrackerSocial
    }

    /// The session the tracker was created from.
    pub fn session(&self) -> (r: SessionInner)
        ensures
            r == self.session_spec(),
    {
        self.session
    }

    /// Takes ownership of an existing eye tracker.
    ///
    /// `handle` must be a valid eye tracker handle of `session`, owned by
    /// nothing else, and the eye tracking extension must be enabled.
    pub fn from_raw(session: &Session, handle: Handle) -> (r: EyeTrackerSocial)
        requires
            session.inner.table(Extension::FbEyeTrackingSocial) is Some,
        ensures
            r.session_spec() == session.inner,
            r.handle_spec() == handle,
    {
        EyeTrackerSocial { session: session.inner, handle }
    }

    /// The function table the tracker's calls go through. It is there for
    /// as long as the tracker is.
    pub fn fp(&self) -> (r: FunctionTable)
        ensures
            self.session_spec().table(Extension::FbEyeTrackingSocial) == Some(r),
            r.extension == Extension::FbEyeTrackingSocial,
    {
        proof {
            use_type_invariant(self);
            crate::extensions::lemma_table_is_own(
                self.session.instance.extensions,
                Extension::FbEyeTrackingSocial,
            );
        }
        match self.session.instance.extensions.fb_eye_tracking_social() {
            Some(table) => table,
            None => vstd::pervasive::unreached(),
        }
    }

    /// The request of a gaze query at `time`, relative to `base`.
    ///
    /// `base` must belong to the session of the tracker.
    pub fn get_eye_gazes(&self, base: &Space, time: Time) -> (r: EyeGazesInfoFB)
        requires
            base.session == self.session_spec(),
        ensures
            r == (EyeGazesInfoFB { ty: StructureType::EyeGazesInfoFB, base_space: base.handle, time }),
    {
        EyeGazesInfoFB { ty: StructureType::EyeGazesInfoFB, base_space: base.handle, time }
    }

    /// The header of the reply structure that goes with a gaze query.
    pub fn eye_gazes_header(&self) -> (r: EyeGazesHeaderFB)
        ensures
            r == (EyeGazesHeaderFB { ty: StructureType::EyeGazesFB }),
    {
        EyeGazesHeaderFB { ty: StructureType::EyeGazesFB }
    }

    /// Shapes the reply to a gaze query. A failed call gives its code. A
    /// successful one gives, for each eye on its own, nothing when the
    /// runtime marked the eye invalid, and the pose and confidence as the
    /// runtime wrote them when it marked the eye valid.
    pub fn eye_gazes_received(&self, code: Status, native: &EyeGazesFB) -> (r: Result<EyeGazes, Status>)
        ensures
            eye_gazes_spec(code, *native, r),
    {
        match cvt(code) {
            Err(e) => Err(e),
            Ok(_) => {
                let left = shape_eye_gaze(&native.gaze[0]);
                let right = shape_eye_gaze(&native.gaze[1]);
                Ok(EyeGazes { gaze: [left, right], time: native.time })
            },
        }
    }
}

/// The tracker that a creation reply yields.
pub open spec fn eye_tracker_created_spec(session: SessionInner, code: Status, out: Handle, r: Result<
    EyeTrackerSocial,
    Status,
>) -> bool {
    match created_spec(session, Extension::FbEyeTrackingSocial, code, out) {
        Err(e) => r == Err::<EyeTrackerSocial, Status>(e),
        Ok(handle) => r is Ok && r->Ok_0.session_spec() == session && r->Ok_0.handle_spec() == handle,
    }
}

impl Session {
    /// Begins the creation of an eye tracker: checks that the extension is
    /// enabled and fills the native creation structure. On an error no
    /// native call is to be made.
    pub fn create_eye_tracker_social(&self) -> (r: Result<EyeTrackerCreateInfoFB, Status>)
        ensures
            match lookup_spec(self.inner, Extension::FbEyeTrackingSocial) {
                Err(e) => r == Err::<EyeTrackerCreateInfoFB, Status>(e),
                Ok(_) => r == Ok::<EyeTrackerCreateInfoFB, Status>(
                    EyeTrackerCreateInfoFB { ty: StructureType::EyeTrackerCreateInfoFB },
                ),
            },
    {
        match self.require_extension(Extension::FbEyeTrackingSocial) {
            Err(e) => Err(e),
            Ok(_) => Ok(EyeTrackerCreateInfoFB { ty: StructureType::EyeTrackerCreateInfoFB }),
        }
    }

    /// Completes the creation of an eye tracker from the reply of the native
    /// creation function: the tracker that owns `out` on success, the native
    /// code on failure.
    pub fn eye_tracker_social_created(&self, code: Status, out: Handle) -> (r: Result<
        EyeTrackerSocial,
        Status,
    >)
        ensures
            eye_tracker_created_spec(self.inner, code, out, r),
    {
        match self.created_handle(Extension::FbEyeTrackingSocial, code, out) {
            Err(e) => Err(e),
            Ok(handle) => Ok(EyeTrackerSocial { session: self.inner, handle }),
        }
    }
}

/// Each eye is gated by its own validity flag: an invalid eye is absent from
/// a successful reply whatever the other eye holds, and a valid eye carries
/// the native pose and confidence unchanged.
pub proof fn lemma_eyes_are_gated_separately(code: Status, native: EyeGazesFB, r: Result<EyeGazes, Status>, eye: int)
    requires
        !code.is_error(),
        eye_gazes_spec(code, native, r),
        0 <= eye < 2,
    ensures
        r is Ok,
        !native.gaze[eye].is_valid ==> r->Ok_0.gaze[eye] is None,
        native.gaze[eye].is_valid ==> r->Ok_0.gaze[eye] == Some(
            EyeGaze { pose: native.gaze[eye].gaze_pose, confidence: native.gaze[eye].gaze_confidence },
        ),
{
}

} // verus!
