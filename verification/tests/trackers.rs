use openxr::body_tracking_fb::{
    BodyJointLocationFB, BodyJointLocationsFB, BodyJointLocationsHeaderFB, BodyJointSetFB, BodyTrackerFB,
    BODY_JOINT_COUNT_FB,
};
use openxr::body_tracking_full_body_meta::{
    joint_count, BodyJointSetFullBodyMETA, BodyTrackerFullBodyMETA, BODY_JOINT_COUNT_META,
    BODY_JOINT_FULL_BODY_COUNT_META,
};
use openxr::extensions::{Extension, ExtensionSet, FunctionTable, InstanceExtensions};
use openxr::eye_tracking_social::{
    shape_eye_gaze, EyeGaze, EyeGazeFB, EyeGazesFB, EyeGazesHeaderFB, EyeTrackerSocial,
};
use openxr::face_tracking_fb::{
    FaceExpressionReply2FB, FaceExpressionReplyFB, FaceExpressionSet2FB, FaceExpressionSetFB,
    FaceExpressionWeights2HeaderFB, FaceExpressionWeightsHeaderFB, FaceTracker2FB, FaceTrackerFB,
    FaceTrackingDataSource2FB,
};
use openxr::htc_facial_tracking::{
    expression_count_for, FacialExpressionsHTC, FacialExpressionsHeaderHTC, FacialTrackerHTC,
    FacialTrackingTypeHTC,
    FACIAL_EXPRESSION_EYE_COUNT_HTC, FACIAL_EXPRESSION_LIP_COUNT_HTC,
};
use openxr::ownership::ObjectKind;
use openxr::session::{Instance, Session, Space};
use openxr::status::Status;
use openxr::types::{Handle, Posef, Quaternionf, Scalar, StructureType, Time, Vector3f};

const NOT_PRESENT: Status = Status { raw: -9 };

fn session_with(list: &[&str]) -> Session {
    let names: Vec<String> = list.iter().map(|s| s.to_string()).collect();
    let exts = InstanceExtensions::load(&ExtensionSet::from_names(&names));
    Session::from_raw(Instance::from_raw(Handle::from_raw(1), exts), Handle::from_raw(2))
}

fn scalar(x: f32) -> Scalar {
    Scalar::from_bits(x.to_bits())
}

fn pose(seed: f32) -> Posef {
    Posef {
        orientation: Quaternionf { x: scalar(seed), y: scalar(0.0), z: scalar(-seed), w: scalar(1.0) },
        position: Vector3f { x: scalar(seed + 1.0), y: scalar(seed + 2.0), z: scalar(seed + 3.0) },
    }
}

#[test]
fn creation_without_extension_is_refused_for_every_kind() {
    let session = session_with(&[]);
    assert_eq!(session.create_body_tracker_fb().err(), Some(NOT_PRESENT));
    assert_eq!(session.create_body_tracker_full_body_meta(true).err(), Some(NOT_PRESENT));
    assert_eq!(session.create_eye_tracker_social().err(), Some(NOT_PRESENT));
    assert_eq!(session.create_face_tracker_fb().err(), Some(NOT_PRESENT));
    assert_eq!(session.create_face_tracker2_fb(true, true).err(), Some(NOT_PRESENT));
    assert_eq!(session.create_facial_tracker_htc(FacialTrackingTypeHTC::LipDefault).err(), Some(NOT_PRESENT));
    assert_eq!(session.create_foveation_profile(None).err(), Some(NOT_PRESENT));
}

#[test]
fn creation_reply_without_extension_is_refused() {
    let session = session_with(&["XR_FB_face_tracking2"]);
    let ok = Status::success();
    let out = Handle::from_raw(77);
    assert_eq!(session.body_tracker_fb_created(ok, out).err(), Some(NOT_PRESENT));
    assert_eq!(session.body_tracker_full_body_meta_created(ok, out).err(), Some(NOT_PRESENT));
    assert_eq!(session.eye_tracker_social_created(ok, out).err(), Some(NOT_PRESENT));
    assert_eq!(session.face_tracker_fb_created(ok, out).err(), Some(NOT_PRESENT));
    assert_eq!(
        session.facial_tracker_htc_created(FacialTrackingTypeHTC::EyeDefault, ok, out).err(),
        Some(NOT_PRESENT)
    );
    assert_eq!(session.foveation_profile_created(ok, out).err(), Some(NOT_PRESENT));
    assert!(session.face_tracker2_fb_created(ok, out).is_ok());
}

#[test]
fn require_extension_gates_on_the_table() {
    let session = session_with(&["XR_FB_body_tracking"]);
    assert_eq!(
        session.require_extension(Extension::FbBodyTracking),
        Ok(FunctionTable { extension: Extension::FbBodyTracking })
    );
    assert_eq!(session.require_extension(Extension::FbFaceTracking), Err(NOT_PRESENT));
    assert_eq!(
        session.created_handle(Extension::FbBodyTracking, Status::from_raw(0), Handle::from_raw(9)),
        Ok(Handle { raw: 9 })
    );
    assert_eq!(
        session.created_handle(Extension::FbBodyTracking, Status::from_raw(-2), Handle::from_raw(9)),
        Err(Status { raw: -2 })
    );
    assert_eq!(
        session.created_handle(Extension::FbFaceTracking, Status::from_raw(-2), Handle::from_raw(9)),
        Err(NOT_PRESENT)
    );
}

#[test]
fn body_tracker_is_created_from_the_reply() {
    let session = session_with(&["XR_FB_body_tracking"]);
    let info = session.create_body_tracker_fb().unwrap();
    assert_eq!(info.ty, StructureType::BodyTrackerCreateInfoFB);
    assert_eq!(info.body_joint_set, BodyJointSetFB::Default);
    let tracker = session.body_tracker_fb_created(Status::success(), Handle::from_raw(40)).unwrap();
    assert_eq!(tracker.as_raw(), Handle { raw: 40 });
    assert_eq!(tracker.session(), session.inner);
    assert_eq!(tracker.fp(), FunctionTable { extension: Extension::FbBodyTracking });
}

#[test]
fn failed_creation_returns_the_native_code() {
    let session = session_with(&[
        "XR_FB_body_tracking",
        "XR_META_body_tracking_full_body",
        "XR_FB_eye_tracking_social",
        "XR_FB_face_tracking",
        "XR_FB_face_tracking2",
        "XR_HTC_facial_tracking",
        "XR_FB_foveation",
    ]);
    let code = Status::from_raw(-2);
    let out = Handle::from_raw(5);
    assert_eq!(session.body_tracker_fb_created(code, out).err(), Some(code));
    assert_eq!(session.body_tracker_full_body_meta_created(code, out).err(), Some(code));
    assert_eq!(session.eye_tracker_social_created(code, out).err(), Some(code));
    assert_eq!(session.face_tracker_fb_created(code, out).err(), Some(code));
    assert_eq!(session.face_tracker2_fb_created(code, out).err(), Some(code));
    assert_eq!(session.facial_tracker_htc_created(FacialTrackingTypeHTC::LipDefault, code, out).err(), Some(code));
    assert_eq!(session.foveation_profile_created(code, out).err(), Some(code));
    assert_eq!(session.swapchain_with_foveation_created(code, out).err(), Some(code));
}

#[test]
fn from_raw_adopts_the_handle() {
    let session = session_with(&[
        "XR_FB_body_tracking",
        "XR_META_body_tracking_full_body",
        "XR_FB_eye_tracking_social",
        "XR_FB_face_tracking",
        "XR_FB_face_tracking2",
        "XR_HTC_facial_tracking",
    ]);
    let h = Handle::from_raw(123);
    assert_eq!(BodyTrackerFB::from_raw(&session, h).as_raw(), h);
    assert_eq!(BodyTrackerFullBodyMETA::from_raw(&session, h).as_raw(), h);
    assert_eq!(EyeTrackerSocial::from_raw(&session, h).as_raw(), h);
    assert_eq!(FaceTrackerFB::from_raw(&session, h).as_raw(), h);
    assert_eq!(FaceTracker2FB::from_raw(&session, h).as_raw(), h);
    assert_eq!(BodyTrackerFB::from_raw(&session, h).kind(), ObjectKind::BodyTrackerFB);
    assert_eq!(BodyTrackerFullBodyMETA::from_raw(&session, h).kind(), ObjectKind::BodyTrackerFullBodyMETA);
    assert_eq!(EyeTrackerSocial::from_raw(&session, h).kind(), ObjectKind::EyeTrackerSocial);
    assert_eq!(FaceTrackerFB::from_raw(&session, h).kind(), ObjectKind::FaceTrackerFB);
    assert_eq!(FaceTracker2FB::from_raw(&session, h).kind(), ObjectKind::FaceTracker2FB);
    assert_eq!(Space::from_raw(&session, h).kind(), ObjectKind::Space);
    let facial = FacialTrackerHTC::from_raw(&session, h, 5);
    assert_eq!(facial.kind(), ObjectKind::FacialTrackerHTC);
    assert_eq!(facial.as_raw(), h);
    assert_eq!(facial.expression_count(), 5);
    assert_eq!(facial.session(), session.inner);
}

#[test]
fn full_body_tracker_requests_the_joint_set() {
    let session = session_with(&["XR_META_body_tracking_full_body"]);
    let full = session.create_body_tracker_full_body_meta(true).unwrap();
    assert_eq!(full.ty, StructureType::BodyTrackerFullBodyCreateInfoMETA);
    assert_eq!(full.body_joint_set, BodyJointSetFullBodyMETA::FullBody);
    let upper = session.create_body_tracker_full_body_meta(false).unwrap();
    assert_eq!(upper.body_joint_set, BodyJointSetFullBodyMETA::Default);
    assert_eq!(joint_count(BodyJointSetFullBodyMETA::FullBody), 84);
    assert_eq!(joint_count(BodyJointSetFullBodyMETA::Default), 70);
    assert_eq!(BODY_JOINT_COUNT_META, 70);
    assert_eq!(BODY_JOINT_FULL_BODY_COUNT_META, 84);
    let tracker = session.body_tracker_full_body_meta_created(Status::success(), Handle::from_raw(8)).unwrap();
    assert_eq!(tracker.as_raw(), Handle { raw: 8 });
    assert_eq!(tracker.fp().extension, Extension::MetaBodyTrackingFullBody);
}

fn body_reply(count: u32) -> BodyJointLocationsFB {
    let mut joints = [BodyJointLocationFB { location_flags: 0, pose: pose(0.0) }; 70];
    for (i, joint) in joints.iter_mut().enumerate() {
        joint.location_flags = i as u64;
        joint.pose = pose(i as f32);
    }
    BodyJointLocationsFB {
        is_active: false,
        confidence: scalar(0.5),
        joint_locations: joints,
        skeleton_changed_count: count,
        time: Time::from_nanos(900),
    }
}

#[test]
fn body_joints_are_returned_as_written() {
    let session = session_with(&["XR_FB_body_tracking"]);
    let tracker = session.body_tracker_fb_created(Status::success(), Handle::from_raw(40)).unwrap();
    let base = Space::from_raw(&session, Handle::from_raw(6));
    let info = tracker.locate_body_joints(&base, Time::from_nanos(900));
    assert_eq!(info.ty, StructureType::BodyJointsLocateInfoFB);
    assert_eq!(info.base_space, Handle { raw: 6 });
    assert_eq!(info.time, Time { nanos: 900 });
    assert_eq!(
        tracker.body_joint_locations_header(),
        BodyJointLocationsHeaderFB { ty: StructureType::BodyJointLocationsFB, is_active: false, joint_count: 70 }
    );
    let native = body_reply(4);
    let located = tracker.body_joints_located(Status::success(), &native).unwrap();
    assert_eq!(located.joints.len(), BODY_JOINT_COUNT_FB);
    assert_eq!(located.joints, native.joint_locations);
    assert_eq!(located.joints[69].pose, pose(69.0));
    assert_eq!(located.confidence, scalar(0.5));
    assert_eq!(located.skeleton_changed_count, 4);
    assert_eq!(located.time, Time { nanos: 900 });
    assert_eq!(tracker.body_joints_located(Status::from_raw(-2), &native).err(), Some(Status { raw: -2 }));
}

#[test]
fn skeleton_counter_follows_the_runtime() {
    let session = session_with(&["XR_FB_body_tracking"]);
    let tracker = session.body_tracker_fb_created(Status::success(), Handle::from_raw(40)).unwrap();
    let mut seen: Vec<u32> = Vec::new();
    for count in [7u32, 7, 7, 8, 8] {
        let located = tracker.body_joints_located(Status::success(), &body_reply(count)).unwrap();
        seen.push(located.skeleton_changed_count);
    }
    assert_eq!(seen, vec![7, 7, 7, 8, 8]);
    assert!(seen.windows(2).all(|w| w[0] <= w[1]));
    assert_eq!(seen.windows(2).filter(|w| w[1] == w[0] + 1).count(), 1);
}

#[test]
fn eye_gazes_are_gated_per_eye() {
    let session = session_with(&["XR_FB_eye_tracking_social"]);
    let info = session.create_eye_tracker_social().unwrap();
    assert_eq!(info.ty, StructureType::EyeTrackerCreateInfoFB);
    let tracker = session.eye_tracker_social_created(Status::success(), Handle::from_raw(11)).unwrap();
    let base = Space::from_raw(&session, Handle::from_raw(6));
    let request = tracker.get_eye_gazes(&base, Time::from_nanos(55));
    assert_eq!(request.ty, StructureType::EyeGazesInfoFB);
    assert_eq!(request.base_space, Handle { raw: 6 });
    assert_eq!(request.time, Time { nanos: 55 });
    assert_eq!(tracker.eye_gazes_header(), EyeGazesHeaderFB { ty: StructureType::EyeGazesFB });
    let native = EyeGazesFB {
        gaze: [
            EyeGazeFB { is_valid: false, gaze_pose: pose(3.0), gaze_confidence: scalar(0.9) },
            EyeGazeFB { is_valid: true, gaze_pose: pose(4.0), gaze_confidence: scalar(0.25) },
        ],
        time: Time::from_nanos(56),
    };
    let gazes = tracker.eye_gazes_received(Status::success(), &native).unwrap();
    assert_eq!(gazes.gaze, [None, Some(EyeGaze { pose: pose(4.0), confidence: scalar(0.25) })]);
    assert_eq!(gazes.time, Time { nanos: 56 });
}

#[test]
fn eye_gazes_both_or_neither() {
    let session = session_with(&["XR_FB_eye_tracking_social"]);
    let tracker = session.eye_tracker_social_created(Status::success(), Handle::from_raw(11)).unwrap();
    let eye = |valid: bool, seed: f32| EyeGazeFB { is_valid: valid, gaze_pose: pose(seed), gaze_confidence: scalar(seed) };
    let both = EyeGazesFB { gaze: [eye(true, 1.0), eye(true, 2.0)], time: Time::from_nanos(1) };
    let gazes = tracker.eye_gazes_received(Status::success(), &both).unwrap();
    assert_eq!(gazes.gaze[0], Some(EyeGaze { pose: pose(1.0), confidence: scalar(1.0) }));
    assert_eq!(gazes.gaze[1], Some(EyeGaze { pose: pose(2.0), confidence: scalar(2.0) }));
    let neither = EyeGazesFB { gaze: [eye(false, 1.0), eye(false, 2.0)], time: Time::from_nanos(1) };
    let gazes = tracker.eye_gazes_received(Status::success(), &neither).unwrap();
    assert_eq!(gazes.gaze, [None, None]);
    assert_eq!(tracker.eye_gazes_received(Status::from_raw(-12), &both).err(), Some(Status { raw: -12 }));
    assert_eq!(shape_eye_gaze(&eye(false, 5.0)), None);
}

fn face_reply(valid: bool) -> FaceExpressionReplyFB {
    let mut weights = [scalar(0.0); 63];
    for (i, w) in weights.iter_mut().enumerate() {
        *w = scalar(i as f32 / 63.0);
    }
    FaceExpressionReplyFB {
        weights,
        confidences: [scalar(0.125), scalar(0.875)],
        is_valid: valid,
        is_eye_following_blendshapes_valid: true,
        time: Time::from_nanos(1),
    }
}

#[test]
fn face_weights_are_gated_as_a_whole() {
    let session = session_with(&["XR_FB_face_tracking"]);
    let info = session.create_face_tracker_fb().unwrap();
    assert_eq!(info.ty, StructureType::FaceTrackerCreateInfoFB);
    assert_eq!(info.face_expression_set, FaceExpressionSetFB::Default);
    let tracker = session.face_tracker_fb_created(Status::success(), Handle::from_raw(3)).unwrap();
    let time = Time::from_nanos(700);
    let request = tracker.get_face_expression_weights(time);
    assert_eq!(request.ty, StructureType::FaceExpressionInfoFB);
    assert_eq!(request.time, time);
    assert_eq!(
        tracker.face_expression_weights_header(time),
        FaceExpressionWeightsHeaderFB {
            ty: StructureType::FaceExpressionWeightsFB,
            weight_count: 63,
            confidence_count: 2,
            is_valid: false,
            is_eye_following_blendshapes_valid: false,
            time,
        }
    );

    let invalid = face_reply(false);
    assert!(tracker.face_expression_weights_received(time, Status::success(), &invalid).unwrap().is_none());

    let valid = face_reply(true);
    let weights = tracker.face_expression_weights_received(time, Status::success(), &valid).unwrap().unwrap();
    assert_eq!(weights.weights.len(), 63);
    assert_eq!(weights.weights, valid.weights);
    assert_eq!(weights.weights[62], scalar(62.0 / 63.0));
    assert_eq!(weights.lower_face_confidence, scalar(0.125));
    assert_eq!(weights.upper_face_confidence, scalar(0.875));
    assert!(weights.is_eye_following_blendshapes_valid);
    assert_eq!(weights.time, time);

    assert_eq!(
        tracker.face_expression_weights_received(time, Status::from_raw(-1), &valid).err(),
        Some(Status { raw: -1 })
    );
}

#[test]
fn face_tracker2_requests_data_sources_in_order() {
    let session = session_with(&["XR_FB_face_tracking2"]);
    let visual = FaceTrackingDataSource2FB { raw: 0 };
    let audio = FaceTrackingDataSource2FB { raw: 1 };
    let info = session.create_face_tracker2_fb(true, true).unwrap();
    assert_eq!(info.ty, StructureType::FaceTrackerCreateInfo2FB);
    assert_eq!(info.face_expression_set, FaceExpressionSet2FB::Default);
    assert_eq!(info.requested_data_sources, vec![visual, audio]);
    assert_eq!(session.create_face_tracker2_fb(true, false).unwrap().requested_data_sources, vec![visual]);
    assert_eq!(session.create_face_tracker2_fb(false, true).unwrap().requested_data_sources, vec![audio]);
    assert!(session.create_face_tracker2_fb(false, false).unwrap().requested_data_sources.is_empty());
}

#[test]
fn face_weights2_are_gated_as_a_whole() {
    let session = session_with(&["XR_FB_face_tracking2"]);
    let tracker = session.face_tracker2_fb_created(Status::success(), Handle::from_raw(3)).unwrap();
    assert_eq!(tracker.fp().extension, Extension::FbFaceTracking2);
    let time = Time::from_nanos(700);
    let request = tracker.get_face_expression_weights(time);
    assert_eq!(request.ty, StructureType::FaceExpressionInfo2FB);
    assert_eq!(request.time, time);
    assert_eq!(
        tracker.face_expression_weights_header(time),
        FaceExpressionWeights2HeaderFB {
            ty: StructureType::FaceExpressionWeights2FB,
            weight_count: 70,
            confidence_count: 2,
            is_valid: false,
            is_eye_following_blendshapes_valid: false,
            data_source: FaceTrackingDataSource2FB { raw: 0 },
            time,
        }
    );
    let mut weights = [scalar(0.0); 70];
    for (i, w) in weights.iter_mut().enumerate() {
        *w = scalar(1.0 + i as f32);
    }
    let mut native = FaceExpressionReply2FB {
        weights,
        confidences: [scalar(0.5), scalar(0.75)],
        is_valid: true,
        is_eye_following_blendshapes_valid: false,
        data_source: FaceTrackingDataSource2FB { raw: 1 },
        time: Time::from_nanos(9),
    };
    let shaped = tracker.face_expression_weights_received(time, Status::success(), &native).unwrap().unwrap();
    assert_eq!(shaped.weights, weights);
    assert_eq!(shaped.lower_face_confidence, scalar(0.5));
    assert_eq!(shaped.upper_face_confidence, scalar(0.75));
    assert!(!shaped.is_eye_following_blendshapes_valid);
    assert_eq!(shaped.data_source, FaceTrackingDataSource2FB { raw: 1 });
    assert_eq!(shaped.time, time);
    native.is_valid = false;
    native.is_eye_following_blendshapes_valid = true;
    assert!(tracker.face_expression_weights_received(time, Status::success(), &native).unwrap().is_none());
}

#[test]
fn lip_tracker_replies_hold_the_lip_count() {
    let session = session_with(&["XR_HTC_facial_tracking"]);
    let info = session.create_facial_tracker_htc(FacialTrackingTypeHTC::LipDefault).unwrap();
    assert_eq!(info.ty, StructureType::FacialTrackerCreateInfoHTC);
    assert_eq!(info.facial_tracking_type, FacialTrackingTypeHTC::LipDefault);
    let tracker = session
        .facial_tracker_htc_created(FacialTrackingTypeHTC::LipDefault, Status::success(), Handle::from_raw(21))
        .unwrap();
    assert_eq!(tracker.expression_count(), FACIAL_EXPRESSION_LIP_COUNT_HTC);
    assert_eq!(tracker.expression_count(), 37);
    let request = tracker.get_facial_expressions();
    assert_eq!(
        request,
        FacialExpressionsHeaderHTC {
            ty: StructureType::FacialExpressionsHTC,
            is_active: false,
            sample_time: Time { nanos: 0 },
            expression_count: 37,
        }
    );
    let mut buffer = tracker.new_expression_buffer();
    assert_eq!(buffer, vec![Scalar { bits: 0 }; 37]);
    for (i, w) in buffer.iter_mut().enumerate() {
        *w = scalar(i as f32);
    }
    let native = FacialExpressionsHTC {
        is_active: true,
        sample_time: Time::from_nanos(31),
        expression_weightings: buffer.clone(),
    };
    let weights = tracker.facial_expressions_received(Status::success(), native).unwrap().unwrap();
    assert_eq!(weights.weights.len(), 37);
    assert_ne!(weights.weights.len(), FACIAL_EXPRESSION_EYE_COUNT_HTC);
    assert_eq!(weights.weights, buffer);
    assert_eq!(weights.sample_time, Time { nanos: 31 });
}

#[test]
fn eye_tracker_replies_hold_the_eye_count() {
    let session = session_with(&["XR_HTC_facial_tracking"]);
    let tracker = session
        .facial_tracker_htc_created(FacialTrackingTypeHTC::EyeDefault, Status::success(), Handle::from_raw(22))
        .unwrap();
    assert_eq!(tracker.expression_count(), 14);
    assert_eq!(expression_count_for(FacialTrackingTypeHTC::EyeDefault), 14);
    assert_eq!(expression_count_for(FacialTrackingTypeHTC::LipDefault), 37);
    assert_eq!(tracker.get_facial_expressions().expression_count, 14);
    let inactive = FacialExpressionsHTC {
        is_active: false,
        sample_time: Time::from_nanos(0),
        expression_weightings: tracker.new_expression_buffer(),
    };
    assert!(tracker.facial_expressions_received(Status::success(), inactive).unwrap().is_none());
    let failed = FacialExpressionsHTC {
        is_active: true,
        sample_time: Time::from_nanos(0),
        expression_weightings: tracker.new_expression_buffer(),
    };
    assert_eq!(
        tracker.facial_expressions_received(Status::from_raw(-2), failed).err(),
        Some(Status { raw: -2 })
    );
}
