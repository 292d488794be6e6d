//! Face tracking: trackers that report the weights of facial expressions,
//! in the first and in the second version of the extension.

use vstd::prelude::*;
use crate::extensions::{Extension, FunctionTable};
use crate::ownership::ObjectKind;
use crate::session::{created_spec, lookup_spec, Session, SessionInner};
use crate::status::{cvt, cvt_spec, Status};
use crate::types::{Handle, Scalar, StructureType, Time};

verus! {

/// The number of expression weights of the first version.
pub const FACE_EXPRESSION_COUNT: usize = 63;

/// The number of confidence scores of the first version.
pub const FACE_CONFIDENCE_COUNT: usize = 2;

/// The number of expression weights of the second version.
pub const FACE_EXPRESSION2_COUNT: usize = 70;

/// The number of confidence scores of the second version.
pub const FACE_CONFIDENCE2_COUNT: usize = 2;

/// The index of the lower face among the confidence scores.
pub const FACE_CONFIDENCE_LOWER: usize = 0;

/// The index of the upper face among the confidence scores.
pub const FACE_CONFIDENCE_UPPER: usize = 1;

/// The expression sets a face tracker of the first version can report.
#[derive(Clone, Copy, Debug, PartialEq, Eq, Structural)]
pub enum FaceExpressionSetFB {
    Default,
}

/// The expression sets a face tracker of the second version can report.
#[derive(Clone, Copy, Debug, PartialEq, Eq, Structural)]
pub enum FaceExpressionSet2FB {
    Default,
}

/// A source the runtime may derive expressions from. The raw value is the
/// one the runtime uses.
#[derive(Clone, Copy, Debug, PartialEq, Eq, Structural)]
pub struct FaceTrackingDataSource2FB {
    pub raw: i32,
}

/// The raw value of the visual data source.
pub const FACE_TRACKING_DATA_SOURCE2_VISUAL: i32 = 0;

/// The raw value of the audio data source.
pub const FACE_TRACKING_DATA_SOURCE2_AUDIO: i32 = 1;

/// The native creation structure of a face tracker of the first version.
/// Its chain is empty.
#[derive(Clone, Copy, Debug, PartialEq, Eq, Structural)]
pub struct FaceTrackerCreateInfoFB {
    pub ty: StructureType,
    pub face_expression_set: FaceExpressionSetFB,
}

/// The native creation structure of a face tracker of the second version.
/// Its chain is empty; the count of requested sources is the length of
/// `requested_data_sources`.
#[derive(Debug)]
pub struct FaceTrackerCreateInfo2FB {
    pub ty: StructureType,
    pub face_expression_set: FaceExpressionSet2FB,
    pub requested_data_sources: Vec<FaceTrackingDataSource2FB>,
}

/// The native request of an expression query of the first version. Its
/// chain is empty.
#[derive(Clone, Copy, Debug, PartialEq, Eq, Structural)]
pub struct FaceExpressionInfoFB {
    pub ty: StructureType,
    pub time: Time,
}

/// The native request of an expression query of the second version. Its
/// chain is empty.
#[derive(Clone, Copy, Debug, PartialEq, Eq, Structural)]
pub struct FaceExpressionInfo2FB {
    pub ty: StructureType,
    pub time: Time,
}

/// What the reply structure of an expression query of the first version
/// holds when it is handed to the runtime: its tag, the sizes of the two
/// buffers the runtime is to fill, both validity flags unset, and the time
/// of the query. Its chain is empty.
#[derive(Clone, Copy, Debug, PartialEq, Eq, Structural)]
pub struct FaceExpressionWeightsHeaderFB {
    pub ty: StructureType,
    pub weight_count: u32,
    pub confidence_count: u32,
    pub is_valid: bool,
    pub is_eye_following_blendshapes_valid: bool,
    pub time: Time,
}

/// What the reply structure of an expression query of the second version
/// holds when it is handed to the runtime: as for the first version, with
/// the data source whose raw value is zero. Its chain is empty.
#[derive(Clone, Copy, Debug, PartialEq, Eq, Structural)]
pub struct FaceExpressionWeights2HeaderFB {
    pub ty: StructureType,
    pub weight_count: u32,
    pub confidence_count: u32,
    pub is_valid: bool,
    pub is_eye_following_blendshapes_valid: bool,
    pub data_source: FaceTrackingDataSource2FB,
    pub time: Time,
}

/// What the runtime wrote in reply to an expression query of the first
/// version. The weights mean nothing unless `is_valid` is set.
#[derive(Debug)]
pub struct FaceExpressionReplyFB {
    pub weights: [Scalar; 63],
    pub confidences: [Scalar; 2],
    pub is_valid: bool,
    pub is_eye_following_blendshapes_valid: bool,
    pub time: Time,
}

/// What the runtime wrote in reply to an expression query of the second
/// version. The weights mean nothing unless `is_valid` is set.
#[derive(Debug)]
pub struct FaceExpressionReply2FB {
    pub weights: [Scalar; 70],
    pub confidences: [Scalar; 2],
    pub is_valid: bool,
    pub is_eye_following_blendshapes_valid: bool,
    pub data_source: FaceTrackingDataSource2FB,
    pub time: Time,
}

/// The expression weights of a face, first version.
#[derive(Debug)]
pub struct FaceExpressionWeightsFB {
    pub weights: [Scalar; 63],
    pub lower_face_confidence: Scalar,
    pub upper_face_confidence: Scalar,
    pub is_eye_following_blendshapes_valid: bool,
    pub time: Time,
}

/// The expression weights of a face, second version.
#[derive(Debug)]
pub struct FaceExpressionWeights2FB {
    pub weights: [Scalar; 70],
    pub lower_face_confidence: Scalar,
    pub upper_face_confidence: Scalar,
    pub is_eye_following_blendshapes_valid: bool,
    pub data_source: FaceTrackingDataSource2FB,
    pub time: Time,
}

/// What a reply of the first version is shaped into: the native code when
/// the call failed; nothing when the runtime marked the reply invalid,
/// whatever the buffers hold; otherwise all weights and both confidence
/// scores as the runtime wrote them, with the flag for the eye-following
/// blend shapes and the time of the query.
pub open spec fn face_weights_spec(time: Time, code: Status, native: FaceExpressionReplyFB) -> Result<
    Option<FaceExpressionWeightsFB>,
    Status,
> {
    match cvt_spec(code) {
        Err(e) => Err(e),
        Ok(_) => if native.is_valid {
            Ok(
                Some(
                    FaceExpressionWeightsFB {
                        weights: native.weights,
                        lower_face_confidence: native.confidences[0],
                        upper_face_confidence: native.confidences[1],
                        is_eye_following_blendshapes_valid: native.is_eye_following_blendshapes_valid,
                        time,
                    },
                ),
            )
        } else {
            Ok(None)
        },
    }
}

/// What a reply of the second version is shaped into: as for the first
/// version, with the data source the runtime reported.
pub open spec fn face_weights2_spec(time: Time, code: Status, native: FaceExpressionReply2FB) -> Result<
    Option<FaceExpressionWeights2FB>,
    Status,
> {
    match cvt_spec(code) {
        Err(e) => Err(e),
        Ok(_) => if native.is_valid {
            Ok(
                Some(
                    FaceExpressionWeights2FB {
                        weights: native.weights,
                        lower_face_confidence: native.confidences[0],
                        upper_face_confidence: native.confidences[1],
                        is_eye_following_blendshapes_valid: native.is_eye_following_blendshapes_valid,
                        data_source: native.data_source,
                        time,
                    },
                ),
            )
        } else {
            Ok(None)
        },
    }
}

/// A running face tracker of the first version. It refers to the session it
/// was created from and owns its native handle.
#[derive(Debug)]
pub struct FaceTrackerFB {
    session: SessionInner,
    handle: Handle,
}

impl FaceTrackerFB {
    #[verifier::type_invariant]
    spec fn has_functions(self) -> bool {
        self.session.table(Extension::FbFaceTracking) is Some
    }

    /// The session the tracker refers to.
    pub closed spec fn session_spec(self) -> SessionInner {
        self.session
    }

    /// The native handle the tracker owns.
    pub closed spec fn handle_spec(self) -> Handle {
        self.handle
    }

    /// The native handle of the tracker.
    pub fn as_raw(&self) -> (r: Handle)
        ensures
            r == self.handle_spec(),
    {
        self.handle
    }

    /// The kind under which an ownership graph knows the tracker.
    pub fn kind(&self) -> (r: ObjectKind)
        ensures
            r == ObjectKind::FaceTrackerFB,
    {
        ObjectKind::FaceTrackerFB
    }

    /// The session the tracker was created from.
    pub fn session(&self) -> (r: SessionInner)
        ensures
            r == self.session_spec(),
    {
        self.session
    }

    /// Takes ownership of an existing face tracker.
    ///
    /// `handle` must be a valid face tracker handle of `session`, owned by
    /// nothing else, and the face tracking extension must be enabled.
    pub fn from_raw(session: &Session, handle: Handle) -> (r: FaceTrackerFB)
        requires
            session.inner.table(Extension::FbFaceTracking) is Some,
        ensures
            r.session_spec() == session.inner,
            r.handle_spec() == handle,
    {
        FaceTrackerFB { session: session.inner, handle }
    }

    /// The function table the tracker's calls go through. It is there for
    /// as long as the tracker is.
    pub fn fp(&self) -> (r: FunctionTable)
        ensures
            self.session_spec().table(Extension::FbFaceTracking) == Some(r),
            r.extension == Extension::FbFaceTracking,
    {
        proof {
            use_type_invariant(self);
            crate::extensions::lemma_table_is_own(self.session.instance.extensions, Extension::FbFaceTracking);
        }
        match self.session.instance.extensions.fb_face_tracking() {
            Some(table) => table,
            None => vstd::pervasive::unreached(),
        }
    }

    /// The request of an expression query at `time`.
    pub fn get_face_expression_weights(&self, time: Time) -> (r: FaceExpressionInfoFB)
        ensures
            r == (FaceExpressionInfoFB { ty: StructureType::FaceExpressionInfoFB, time }),
    {
        FaceExpressionInfoFB { ty: StructureType::FaceExpressionInfoFB, time }
    }

    /// The header of the reply structure that goes with an expression
    /// query at `time`: tagged as expression weights, with room for every
    /// weight and both confidence scores, and marked invalid.
    pub fn face_expression_weights_header(&self, time: Time) -> (r: FaceExpressionWeightsHeaderFB)
        ensures
            r == (FaceExpressionWeightsHeaderFB {
                ty: StructureType::FaceExpressionWeightsFB,
                weight_count: 63,
                confidence_count: 2,
                is_valid: false,
                is_eye_following_blendshapes_valid: false,
                time,
            }),
            r.weight_count == FACE_EXPRESSION_COUNT,
            r.confidence_count == FACE_CONFIDENCE_COUNT,
    {
        FaceExpressionWeightsHeaderFB {
            ty: StructureType::FaceExpressionWeightsFB,
            weight_count: 63,
            confidence_count: 2,
            is_valid: false,
            is_eye_following_blendshapes_valid: false,
            time,
        }
    }

    /// Shapes the reply to the expression query that was made for `time`.
    /// The validity flag is read before anything else of the reply is.
    pub fn face_expression_weights_received(
        &self,
        time: Time,
        code: Status,
        native: &FaceExpressionReplyFB,
    ) -> (r: Result<Option<FaceExpressionWeightsFB>, Status>)
        ensures
            r == face_weights_spec(time, code, *native),
    {
        match cvt(code) {
            Err(e) => Err(e),
            Ok(_) => if native.is_valid {
                Ok(
                    Some(
                        FaceExpressionWeightsFB {
                            weights: native.weights,
                            lower_face_confidence: native.confidences[0],
                            upper_face_confidence: native.confidences[1],
                            is_eye_following_blendshapes_valid: native.is_eye_following_blendshapes_valid,
                            time,
                        },
                    ),
                )
            } else {
                Ok(None)
            },
        }
    }
}

/// A running face tracker of the second version. It refers to the session
/// it was created from and owns its native handle.
#[derive(Debug)]
pub struct FaceTracker2FB {
    session: SessionInner,
    handle: Handle,
}

impl FaceTracker2FB {
    #[verifier::type_invariant]
    spec fn has_functions(self) -> bool {
        self.session.table(Extension::FbFaceTracking2) is Some
    }

    /// The session the tracker refers to.
    pub closed spec fn session_spec(self) -> SessionInner {
        self.session
    }

    /// The native handle the tracker owns.
    pub closed spec fn handle_spec(self) -> Handle {
        self.handle
    }

    /// The native handle of the tracker.
    pub fn as_raw(&self) -> (r: Handle)
        ensures
            r == self.handle_spec(),
    {
        self.handle
    }

    /// The kind under which an ownership graph knows the tracker.
    pub fn kind(&self) -> (r: ObjectKind)
        ensures
            r == ObjectKind::FaceTracker2FB,
    {
        ObjectKind::FaceTracker2FB
    }

    /// The session the tracker was created from.
    pub fn session(&self) -> (r: SessionInner)
        ensures
            r == self.session_spec(),
    {
        self.session
    }

    /// Takes ownership of an existing face tracker.
    ///
    /// `handle` must be a valid face tracker handle of `session`, owned by
    /// nothing else, and the face tracking extension must be enabled.
    pub fn from_raw(session: &Session, handle: Handle) -> (r: FaceTracker2FB)
        requires
            session.inner.table(Extension::FbFaceTracking2) is Some,
        ensures
            r.session_spec() == session.inner,
            r.handle_spec() == handle,
    {
        FaceTracker2FB { session: session.inner, handle }
    }

    /// The function table the tracker's calls go through. It is there for
    /// as long as the tracker is.
    pub fn fp(&self) -> (r: FunctionTable)
        ensures
            self.session_spec().table(Extension::FbFaceTracking2) == Some(r),
            r.extension == Extension::FbFaceTracking2,
    {
        proof {
            use_type_invariant(self);
            crate::extensions::lemma_table_is_own(self.session.instance.extensions, Extension::FbFaceTracking2);
        }
        match self.session.instance.extensions.fb_face_tracking2() {
            Some(table) => table,
            None => vstd::pervasive::unreached(),
        }
    }

    /// The request of an expression query at `time`.
    pub fn get_face_expression_weights(&self, time: Time) -> (r: FaceExpressionInfo2FB)
        ensures
            r == (FaceExpressionInfo2FB { ty: StructureType::FaceExpressionInfo2FB, time }),
    {
        FaceExpressionInfo2FB { ty: StructureType::FaceExpressionInfo2FB, time }
    }

    /// The header of the reply structure that goes with an expression
    /// query at `time`: tagged as expression weights, with room for every
    /// weight and both confidence scores, and marked invalid.
    pub fn face_expression_weights_header(&self, time: Time) -> (r: FaceExpressionWeights2HeaderFB)
        ensures
            r == (FaceExpressionWeights2HeaderFB {
                ty: StructureType::FaceExpressionWeights2FB,
                weight_count: 70,
                confidence_count: 2,
                is_valid: false,
                is_eye_following_blendshapes_valid: false,
                data_source: FaceTrackingDataSource2FB { raw: 0 },
                time,
            }),
            r.weight_count == FACE_EXPRESSION2_COUNT,
            r.confidence_count == FACE_CONFIDENCE2_COUNT,
    {
        FaceExpressionWeights2HeaderFB {
            ty: StructureType::FaceExpressionWeights2FB,
            weight_count: 70,
            confidence_count: 2,
            is_valid: false,
            is_eye_following_blendshapes_valid: false,
            data_source: FaceTrackingDataSource2FB { raw: 0 },
            time,
        }
    }

    /// Shapes the reply to the expression query that was made for `time`.
    /// The validity flag is read before anything else of the reply is.
    pub fn face_expression_weights_received(
        &self,
        time: Time,
        code: Status,
        native: &FaceExpressionReply2FB,
    ) -> (r: Result<Option<FaceExpressionWeights2FB>, Status>)
        ensures
            r == face_weights2_spec(time, code, *native),
    {
        match cvt(code) {
            Err(e) => Err(e),
            Ok(_) => if native.is_valid {
                Ok(
                    Some(
                        FaceExpressionWeights2FB {
                            weights: native.weights,
                            lower_face_confidence: native.confidences[0],
                            upper_face_confidence: native.confidences[1],
                            is_eye_following_blendshapes_valid: native.is_eye_following_blendshapes_valid,
                            data_source: native.data_source,
                            time,
                        },
                    ),
                )
            } else {
                Ok(None)
            },
        }
    }
}

/// The data sources that are requested for a tracker: the visual one if
/// `visual` is set, then the audio one if `audio` is set.
pub open spec fn requested_sources_spec(visual: bool, audio: bool) -> Seq<FaceTrackingDataSource2FB> {
    let first = if visual {
        seq![FaceTrackingDataSource2FB { raw: FACE_TRACKING_DATA_SOURCE2_VISUAL }]
    } else {
        Seq::<FaceTrackingDataSource2FB>::empty()
    };
    if audio {
        first.push(FaceTrackingDataSource2FB { raw: FACE_TRACKING_DATA_SOURCE2_AUDIO })
    } else {
        first
    }
}

/// The tracker of the first version that a creation reply yields.
pub open spec fn face_tracker_created_spec(session: SessionInner, code: Status, out: Handle, r: Result<
    FaceTrackerFB,
    Status,
>) -> bool {
    match created_spec(session, Extension::FbFaceTracking, code, out) {
        Err(e) => r == Err::<FaceTrackerFB, Status>(e),
        Ok(handle) => r is Ok && r->Ok_0.session_spec() == session && r->Ok_0.handle_spec() == handle,
    }
}

/// The tracker of the second version that a creation reply yields.
pub open spec fn face_tracker2_created_spec(session: SessionInner, code: Status, out: Handle, r: Result<
    FaceTracker2FB,
    Status,
>) -> bool {
    match created_spec(session, Extension::FbFaceTracking2, code, out) {
        Err(e) => r == Err::<FaceTracker2FB, Status>(e),
        Ok(handle) => r is Ok && r->Ok_0.session_spec() == session && r->Ok_0.handle_spec() == handle,
    }
}

impl Session {
    /// Begins the creation of a face tracker of the first version: checks
    /// that the extension is enabled and fills the native creation
    /// structure. On an error no native call is to be made.
    pub fn create_face_tracker_fb(&self) -> (r: Result<FaceTrackerCreateInfoFB, Status>)
        ensures
            match lookup_spec(self.inner, Extension::FbFaceTracking) {
                Err(e) => r == Err::<FaceTrackerCreateInfoFB, Status>(e),
                Ok(_) => r == Ok::<FaceTrackerCreateInfoFB, Status>(
                    FaceTrackerCreateInfoFB {
                        ty: StructureType::FaceTrackerCreateInfoFB,
                        face_expression_set: FaceExpressionSetFB::Default,
                    },
                ),
            },
    {
        match self.require_extension(Extension::FbFaceTracking) {
            Err(e) => Err(e),
            Ok(_) => Ok(
                FaceTrackerCreateInfoFB {
                    ty: StructureType::FaceTrackerCreateInfoFB,
                    face_expression_set: FaceExpressionSetFB::Default,
                },
            ),
        }
    }

    /// Completes the creation of a face tracker of the first version from
    /// the reply of the native creation function.
    pub fn face_tracker_fb_created(&self, code: Status, out: Handle) -> (r: Result<FaceTrackerFB, Status>)
        ensures
            face_tracker_created_spec(self.inner, code, out, r),
    {
        match self.created_handle(Extension::FbFaceTracking, code, out) {
            Err(e) => Err(e),
            Ok(handle) => Ok(FaceTrackerFB { session: self.inner, handle }),
        }
    }

    /// Begins the creation of a face tracker of the second version: checks
    /// that the extension is enabled and fills the native creation
    /// structure with the requested data sources. On an error no native
    /// call is to be made.
    pub fn create_face_tracker2_fb(&self, visual: bool, audio: bool) -> (r: Result<
        FaceTrackerCreateInfo2FB,
        Status,
    >)
        ensures
            match lookup_spec(self.inner, Extension::FbFaceTracking2) {
                Err(e) => r == Err::<FaceTrackerCreateInfo2FB, Status>(e),
                Ok(_) => {
                    &&& r is Ok
                    &&& r->Ok_0.ty == StructureType::FaceTrackerCreateInfo2FB
                    &&& r->Ok_0.face_expression_set == FaceExpressionSet2FB::Default
                    &&& r->Ok_0.requested_data_sources@ == requested_sources_spec(visual, audio)
                },
            },
    {
        match self.require_extension(Extension::FbFaceTracking2) {
            Err(e) => Err(e),
            Ok(_) => {
                let mut requested_data_sources: Vec<FaceTrackingDataSource2FB> = Vec::new();
                if visual {
                    requested_data_sources.push(
                        FaceTrackingDataSource2FB { raw: FACE_TRACKING_DATA_SOURCE2_VISUAL },
                    );
                }
                if audio {
                    requested_data_sources.push(
                        FaceTrackingDataSource2FB { raw: FACE_TRACKING_DATA_SOURCE2_AUDIO },
                    );
                }
                proof {
                    assert(requested_data_sources@ =~= requested_sources_spec(visual, audio));
                }
                Ok(
                    FaceTrackerCreateInfo2FB {
                        ty: StructureType::FaceTrackerCreateInfo2FB,
                        face_expression_set: FaceExpressionSet2FB::Default,
                        requested_data_sources,
                    },
                )
            },
        }
    }

    /// Completes the creation of a face tracker of the second version from
    /// the reply of the native creation function.
    pub fn face_tracker2_fb_created(&self, code: Status, out: Handle) -> (r: Result<FaceTracker2FB, Status>)
        ensures
            face_tracker2_created_spec(self.inner, code, out, r),
    {
        match self.created_handle(Extension::FbFaceTracking2, code, out) {
            Err(e) => Err(e),
            Ok(handle) => Ok(FaceTracker2FB { session: self.inner, handle }),
        }
    }
}

/// One flag gates the whole result: a successful reply that is not valid
/// gives nothing, whatever its buffers hold, and a valid one gives every one
/// of the weights and both confidence scores unchanged.
pub proof fn lemma_face_weights_gated_as_a_whole(time: Time, code: Status, native: FaceExpressionReplyFB)
    requires
        !code.is_error(),
    ensures
        !native.is_valid ==> face_weights_spec(time, code, native) == Ok::<
            Option<FaceExpressionWeightsFB>,
            Status,
        >(None),
        native.is_valid ==> {
            let r = face_weights_spec(time, code, native);
            &&& r is Ok
            &&& r->Ok_0 is Some
            &&& r->Ok_0->Some_0.weights@.len() == FACE_EXPRESSION_COUNT
            &&& forall|i: int|
                0 <= i < FACE_EXPRESSION_COUNT ==> r->Ok_0->Some_0.weights[i] == native.weights[i]
            &&& r->Ok_0->Some_0.lower_face_confidence == native.confidences[0]
            &&& r->Ok_0->Some_0.upper_face_confidence == native.confidences[1]
        },
{
}

/// The same for the second version of the extension.
pub proof fn lemma_face_weights2_gated_as_a_whole(time: Time, code: Status, native: FaceExpressionReply2FB)
    requires
        !code.is_error(),
    ensures
        !native.is_valid ==> face_weights2_spec(time, code, native) == Ok::<
            Option<FaceExpressionWeights2FB>,
            Status,
        >(None),
        native.is_valid ==> {
            let r = face_weights2_spec(time, code, native);
            &&& r is Ok
            &&& r->Ok_0 is Some
            &&& r->Ok_0->Some_0.weights@.len() == FACE_EXPRESSION2_COUNT
            &&& forall|i: int|
                0 <= i < FACE_EXPRESSION2_COUNT ==> r->Ok_0->Some_0.weights[i] == native.weights[i]
            &&& r->Ok_0->Some_0.lower_face_confidence == native.confidences[0]
            &&& r->Ok_0->Some_0.upper_face_confidence == native.confidences[1]
        },
{
}

} // verus!
