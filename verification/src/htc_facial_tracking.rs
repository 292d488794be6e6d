//! Facial tracking with separate eye and lip trackers, whose reply length
//! is fixed when the tracker is created.

use vstd::prelude::*;
use crate::extensions::{Extension, FunctionTable};
use crate::ownership::ObjectKind;
use crate::session::{created_spec, lookup_spec, Session, SessionInner};
use crate::status::{cvt, cvt_spec, Status};
use crate::types::{Handle, Scalar, StructureType, Time};

verus! {

/// The number of expressions an eye tracker reports.
pub const FACIAL_EXPRESSION_EYE_COUNT_HTC: usize = 14;

/// The number of expressions a lip tracker reports.
pub const FACIAL_EXPRESSION_LIP_COUNT_HTC: usize = 37;

/// The region of the face a facial tracker follows.
#[derive(Clone, Copy, Debug, PartialEq, Eq, Structural)]
pub enum FacialTrackingTypeHTC {
    EyeDefault,
    LipDefault,
}

/// The native creation structure of a facial tracker. Its chain is empty.
#[derive(Clone, Copy, Debug, PartialEq, Eq, Structural)]
pub struct FacialTrackerCreateInfoHTC {
    pub ty: StructureType,
    pub facial_tracking_type: FacialTrackingTypeHTC,
}

/// What the reply structure of an expression query holds when it is handed
/// to the runtime: its tag, the activity flag unset, the sample time at the
/// origin of the clock, and the size of the buffer the runtime is to fill.
/// Its chain is empty. The query has no other request structure.
#[derive(Clone, Copy, Debug, PartialEq, Eq, Structural)]
pub struct FacialExpressionsHeaderHTC {
    pub ty: StructureType,
    pub is_active: bool,
    pub sample_time: Time,
    pub expression_count: u32,
}

/// What the runtime wrote in reply to an expression query. The weightings
/// mean nothing unless `is_active` is set.
#[derive(Debug)]
pub struct FacialExpressionsHTC {
    pub is_active: bool,
    pub sample_time: Time,
    pub expression_weightings: Vec<Scalar>,
}

/// The expression weights of one region of the face.
#[derive(Debug)]
pub struct FaceExpressionWeightsHTC {
    pub weights: Vec<Scalar>,
    pub sample_time: Time,
}

/// The number of expressions that a tracker of the given region reports.
pub open spec fn expression_count_spec(facial_tracking_type: FacialTrackingTypeHTC) -> usize {
    match facial_tracking_type {
        FacialTrackingTypeHTC::EyeDefault => FACIAL_EXPRESSION_EYE_COUNT_HTC,
        FacialTrackingTypeHTC::LipDefault => FACIAL_EXPRESSION_LIP_COUNT_HTC,
    }
}

/// The number of expressions that a tracker of the given region reports.
pub fn expression_count_for(facial_tracking_type: FacialTrackingTypeHTC) -> (r: usize)
    ensures
        r == expression_count_spec(facial_tracking_type),
{
    match facial_tracking_type {
        FacialTrackingTypeHTC::EyeDefault => FACIAL_EXPRESSION_EYE_COUNT_HTC,
        FacialTrackingTypeHTC::LipDefault => FACIAL_EXPRESSION_LIP_COUNT_HTC,
    }
}

/// What an expression reply is shaped into: the native code when the call
/// failed; nothing when the runtime marked the reply inactive; otherwise the
/// weightings and the sample time as the runtime wrote them.
pub open spec fn facial_expressions_spec(code: Status, native: FacialExpressionsHTC) -> Result<
    Option<FaceExpressionWeightsHTC>,
    Status,
> {
    match cvt_spec(code) {
        Err(e) => Err(e),
        Ok(_) => if native.is_active {
            Ok(
                Some(
                    FaceExpressionWeightsHTC {
                        weights: native.expression_weightings,
                        sample_time: native.sample_time,
                    },
                ),
            )
        } else {
            Ok(None)
        },
    }
}

/// A running facial tracker. It refers to the session it was created from,
/// owns its native handle, and remembers how many expressions its replies
/// hold.
#[derive(Debug)]
pub struct FacialTrackerHTC {
    session: SessionInner,
    handle: Handle,
    expression_count: usize,
}

impl FacialTrackerHTC {
    #[verifier::type_invariant]
    spec fn well_formed(self) -> bool {
        &&& self.session.table(Extension::HtcFacialTracking) is Some
        &&& self.expression_count <= u32::MAX
    }

    /// The session the tracker refers to.
    pub closed spec fn session_spec(self) -> SessionInner {
        self.session
    }

    /// The native handle the tracker owns.
    pub closed spec fn handle_spec(self) -> Handle {
        self.handle
    }

    /// The number of expressions in each reply to the tracker.
    pub closed spec fn expression_count_spec(self) -> usize {
        self.expression_count
    }

    /// The native handle of the tracker.
    pub fn as_raw(&self) -> (r: Handle)
        ensures
            r == self.handle_spec(),
    {
        self.handle
    }

    /// The kind under which an ownership graph knows the tracker.
    pub fn kind(&self) -> (r: ObjectKind)
        ensures
            r == ObjectKind::FacialTrackerHTC,
    {
        ObjectKind::FacialTrackerHTC
    }

    /// The session the tracker was created from.
    pub fn session(&self) -> (r: SessionInner)
        ensures
            r == self.session_spec(),
    {
        self.session
    }

    /// The number of expressions in each reply to the tracker.
    pub fn expression_count(&self) -> (r: usize)
        ensures
            r == self.expression_count_spec(),
            r <= u32::MAX,
    {
        proof {
            use_type_invariant(self);
        }
        self.expression_count
    }

    /// Takes ownership of an existing facial tracker whose replies hold
    /// `expression_count` expressions.
    ///
    /// `handle` must be a valid facial tracker handle of `session`, owned by
    /// nothing else; the facial tracking extension must be enabled; and the
    /// count must fit the native 32-bit count field.
    pub fn from_raw(session: &Session, handle: Handle, expression_count: usize) -> (r: FacialTrackerHTC)
        requires
            session.inner.table(Extension::HtcFacialTracking) is Some,
            expression_count <= u32::MAX,
        ensures
            r.session_spec() == session.inner,
            r.handle_spec() == handle,
            r.expression_count_spec() == expression_count,
    {
        FacialTrackerHTC { session: session.inner, handle, expression_count }
    }

    /// The function table the tracker's calls go through. It is there for
    /// as long as the tracker is.
    pub fn fp(&self) -> (r: FunctionTable)
        ensures
            self.session_spec().table(Extension::HtcFacialTracking) == Some(r),
            r.extension == Extension::HtcFacialTracking,
    {
        proof {
            use_type_invariant(self);
            crate::extensions::lemma_table_is_own(
                self.session.instance.extensions,
                Extension::HtcFacialTracking,
            );
        }
        match self.session.instance.extensions.htc_facial_tracking() {
            Some(table) => table,
            None => vstd::pervasive::unreached(),
        }
    }

    /// A buffer for the reply to an expression query: as many weightings
    /// as the tracker was created for, each with all bits zero.
    pub fn new_expression_buffer(&self) -> (r: Vec<Scalar>)
        ensures
            r@.len() == self.expression_count_spec(),
            forall|i: int| 0 <= i < r@.len() ==> r@[i] == (Scalar { bits: 0 }),
    {
        let mut buffer: Vec<Scalar> = Vec::new();
        let mut i: usize = 0;
        while i < self.expression_count
            invariant
                i <= self.expression_count,
                buffer@.len() == i,
                forall|j: int| 0 <= j < buffer@.len() ==> buffer@[j] == (Scalar { bits: 0 }),
            decreases self.expression_count - i,
        {
            buffer.push(Scalar { bits: 0 });
            i = i + 1;
        }
        buffer
    }

    /// The request of an expression query, which is the header of its reply
    /// structure: tagged as facial expressions, marked inactive, and with
    /// room for as many weightings as the tracker was created for.
    pub fn get_facial_expressions(&self) -> (r: FacialExpressionsHeaderHTC)
        ensures
            r.ty == StructureType::FacialExpressionsHTC,
            r.is_active == false,
            r.sample_time == (Time { nanos: 0 }),
            r.expression_count == self.expression_count_spec(),
    {
        proof {
            use_type_invariant(self);
        }
        FacialExpressionsHeaderHTC {
            ty: StructureType::FacialExpressionsHTC,
            is_active: false,
            sample_time: Time { nanos: 0 },
            expression_count: self.expression_count as u32,
        }
    }

    /// Shapes the reply to an expression query. The activity flag is read
    /// before the weightings are.
    ///
    /// The reply must hold the buffer that was requested: as many
    /// weightings as the tracker was created for.
    pub fn facial_expressions_received(&self, code: Status, native: FacialExpressionsHTC) -> (r: Result<
        Option<FaceExpressionWeightsHTC>,
        Status,
    >)
        requires
            native.expression_weightings@.len() == self.expression_count_spec(),
        ensures
            r == facial_expressions_spec(code, native),
            r is Ok && r->Ok_0 is Some ==> r->Ok_0->Some_0.weights@.len() == self.expression_count_spec(),
    {
        match cvt(code) {
            Err(e) => Err(e),
            Ok(_) => if native.is_active {
                Ok(
                    Some(
                        FaceExpressionWeightsHTC {
                            weights: native.expression_weightings,
                            sample_time: native.sample_time,
                        },
                    ),
                )
            } else {
                Ok(None)
            },
        }
    }
}

/// The tracker that a creation reply yields: it remembers the expression
/// count of the region it was requested for.
pub open spec fn facial_tracker_created_spec(
    session: SessionInner,
    facial_tracking_type: FacialTrackingTypeHTC,
    code: Status,
    out: Handle,
    r: Result<FacialTrackerHTC, Status>,
) -> bool {
    match created_spec(session, Extension::HtcFacialTracking, code, out) {
        Err(e) => r == Err::<FacialTrackerHTC, Status>(e),
        Ok(handle) => {
            &&& r is Ok
            &&& r->Ok_0.session_spec() == session
            &&& r->Ok_0.handle_spec() == handle
            &&& r->Ok_0.expression_count_spec() == expression_count_spec(facial_tracking_type)
        },
    }
}

impl Session {
    /// Begins the creation of a facial tracker for the given region: checks
    /// that the extension is enabled and fills the native creation
    /// structure. On an error no native call is to be made.
    pub fn create_facial_tracker_htc(&self, facial_tracking_type: FacialTrackingTypeHTC) -> (r: Result<
        FacialTrackerCreateInfoHTC,
        Status,
    >)
        ensures
            match lookup_spec(self.inner, Extension::HtcFacialTracking) {
                Err(e) => r == Err::<FacialTrackerCreateInfoHTC, Status>(e),
                Ok(_) => r == Ok::<FacialTrackerCreateInfoHTC, Status>(
                    FacialTrackerCreateInfoHTC {
                        ty: StructureType::FacialTrackerCreateInfoHTC,
                        facial_tracking_type,
                    },
                ),
            },
    {
        match self.require_extension(Extension::HtcFacialTracking) {
            Err(e) => Err(e),
            Ok(_) => Ok(
                FacialTrackerCreateInfoHTC {
                    ty: StructureType::FacialTrackerCreateInfoHTC,
                    facial_tracking_type,
                },
            ),
        }
    }

    /// Completes the creation of a facial tracker that was requested for
    /// the given region, from the reply of the native creation function.
    /// The expression count of the region is fixed in the tracker here.
    pub fn facial_tracker_htc_created(
        &self,
        facial_tracking_type: FacialTrackingTypeHTC,
        code: Status,
        out: Handle,
    ) -> (r: Result<FacialTrackerHTC, Status>)
        ensures
            facial_tracker_created_spec(self.inner, facial_tracking_type, code, out, r),
    {
        match self.created_handle(Extension::HtcFacialTracking, code, out) {
            Err(e) => Err(e),
            Ok(handle) => {
                let expression_count = expression_count_for(facial_tracking_type);
                Ok(FacialTrackerHTC { session: self.inner, handle, expression_count })
            },
        }
    }
}

/// A tracker keeps the expression count of the region it was created for:
/// every active reply to a lip tracker holds the lip count of weights and
/// every active reply to an eye tracker the eye count, whichever of the two
/// counts is larger.
pub proof fn lemma_reply_length_follows_region(
    session: SessionInner,
    facial_tracking_type: FacialTrackingTypeHTC,
    created: Result<FacialTrackerHTC, Status>,
    create_code: Status,
    out: Handle,
    code: Status,
    native: FacialExpressionsHTC,
)
    requires
        facial_tracker_created_spec(session, facial_tracking_type, create_code, out, created),
        created is Ok,
        native.expression_weightings@.len() == created->Ok_0.expression_count_spec(),
        !code.is_error(),
        native.is_active,
    ensures
        facial_expressions_spec(code, native) is Ok,
        facial_expressions_spec(code, native)->Ok_0 is Some,
        facial_tracking_type == FacialTrackingTypeHTC::LipDefault ==> facial_expressions_spec(
            code,
            native,
        )->Ok_0->Some_0.weights@.len() == FACIAL_EXPRESSION_LIP_COUNT_HTC,
        facial_tracking_type == FacialTrackingTypeHTC::EyeDefault ==> facial_expressions_spec(
            code,
            native,
        )->Ok_0->Some_0.weights@.len() == FACIAL_EXPRESSION_EYE_COUNT_HTC,
{
}

} // verus!
