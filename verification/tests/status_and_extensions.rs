use openxr::extensions::{Extension, ExtensionSet, FunctionTable, InstanceExtensions};
use openxr::status::{classify, cvt, ErrorKind, Status, ERROR_EXTENSION_NOT_PRESENT, SUCCESS};

fn names(list: &[&str]) -> Vec<String> {
    list.iter().map(|s| s.to_string()).collect()
}

#[test]
fn cvt_keeps_success() {
    assert_eq!(cvt(Status::from_raw(0)), Ok(Status { raw: 0 }));
    assert_eq!(cvt(Status::success()), Ok(Status { raw: SUCCESS }));
}

#[test]
fn cvt_keeps_qualified_success() {
    assert_eq!(cvt(Status::from_raw(3)), Ok(Status { raw: 3 }));
    assert_eq!(cvt(Status::from_raw(i32::MAX)), Ok(Status { raw: i32::MAX }));
}

#[test]
fn cvt_returns_failure_code() {
    assert_eq!(cvt(Status::from_raw(-1)), Err(Status { raw: -1 }));
    assert_eq!(cvt(Status::from_raw(-12)), Err(Status { raw: -12 }));
    assert_eq!(cvt(Status::from_raw(i32::MIN)), Err(Status { raw: i32::MIN }));
}

#[test]
fn extension_not_present_code() {
    assert_eq!(Status::extension_not_present().into_raw(), -9);
    assert_eq!(ERROR_EXTENSION_NOT_PRESENT, -9);
    assert_eq!(cvt(Status::extension_not_present()), Err(Status { raw: -9 }));
}

#[test]
fn extension_names() {
    assert_eq!(Extension::FbBodyTracking.name(), "XR_FB_body_tracking");
    assert_eq!(Extension::MetaBodyTrackingFullBody.name(), "XR_META_body_tracking_full_body");
    assert_eq!(Extension::FbEyeTrackingSocial.name(), "XR_FB_eye_tracking_social");
    assert_eq!(Extension::FbFaceTracking.name(), "XR_FB_face_tracking");
    assert_eq!(Extension::FbFaceTracking2.name(), "XR_FB_face_tracking2");
    assert_eq!(Extension::FbFoveation.name(), "XR_FB_foveation");
    assert_eq!(Extension::FbSwapchainUpdateState.name(), "XR_FB_swapchain_update_state");
    assert_eq!(Extension::HtcFacialTracking.name(), "XR_HTC_facial_tracking");
}

#[test]
fn is_named_compares_whole_name() {
    assert!(Extension::FbFaceTracking.is_named(&"XR_FB_face_tracking".to_string()));
    assert!(!Extension::FbFaceTracking.is_named(&"XR_FB_face_tracking2".to_string()));
    assert!(!Extension::FbFaceTracking2.is_named(&"XR_FB_face_tracking".to_string()));
    assert!(!Extension::FbFaceTracking.is_named(&"".to_string()));
}

#[test]
fn empty_set_holds_nothing() {
    let set = ExtensionSet::empty();
    assert!(!set.is_enabled(Extension::FbBodyTracking));
    assert!(!set.is_enabled(Extension::HtcFacialTracking));
    assert_eq!(set, ExtensionSet::from_names(&Vec::new()));
}

#[test]
fn from_names_enables_named_extensions_only() {
    let set = ExtensionSet::from_names(&names(&[
        "XR_FB_eye_tracking_social",
        "XR_KHR_vulkan_enable2",
        "XR_FB_face_tracking2",
        "XR_FB_eye_tracking_social",
    ]));
    assert!(set.is_enabled(Extension::FbEyeTrackingSocial));
    assert!(set.is_enabled(Extension::FbFaceTracking2));
    assert!(!set.is_enabled(Extension::FbFaceTracking));
    assert!(!set.is_enabled(Extension::FbBodyTracking));
    assert!(!set.is_enabled(Extension::MetaBodyTrackingFullBody));
    assert!(!set.is_enabled(Extension::FbFoveation));
    assert!(!set.is_enabled(Extension::FbSwapchainUpdateState));
    assert!(!set.is_enabled(Extension::HtcFacialTracking));
}

#[test]
fn from_names_is_case_sensitive() {
    let set = ExtensionSet::from_names(&names(&["xr_fb_body_tracking", "XR_FB_body_tracking "]));
    assert_eq!(set, ExtensionSet::empty());
}

#[test]
fn enable_adds_one_extension() {
    let mut set = ExtensionSet::empty();
    set.enable(Extension::FbFoveation);
    assert!(set.is_enabled(Extension::FbFoveation));
    assert!(!set.is_enabled(Extension::FbSwapchainUpdateState));
    set.enable(Extension::FbFoveation);
    assert!(set.fb_foveation);
}

#[test]
fn table_holds_enabled_extensions_only() {
    let set = ExtensionSet::from_names(&names(&["XR_FB_body_tracking", "XR_HTC_facial_tracking"]));
    let exts = InstanceExtensions::load(&set);
    assert_eq!(exts.fb_body_tracking(), Some(FunctionTable { extension: Extension::FbBodyTracking }));
    assert_eq!(exts.htc_facial_tracking(), Some(FunctionTable { extension: Extension::HtcFacialTracking }));
    assert_eq!(exts.meta_body_tracking_full_body(), None);
    assert_eq!(exts.fb_eye_tracking_social(), None);
    assert_eq!(exts.fb_face_tracking(), None);
    assert_eq!(exts.fb_face_tracking2(), None);
    assert_eq!(exts.fb_foveation(), None);
    assert_eq!(exts.fb_swapchain_update_state(), None);
    assert_eq!(exts.get(Extension::FbBodyTracking), exts.fb_body_tracking());
}

#[test]
fn all_extensions_lists_each_once() {
    let all = openxr::extensions::all_extensions();
    assert_eq!(all.len(), 8);
    assert_eq!(all[0], Extension::FbBodyTracking);
    assert_eq!(all[7], Extension::HtcFacialTracking);
    for (i, a) in all.iter().enumerate() {
        for b in all.iter().skip(i + 1) {
            assert_ne!(a, b);
            assert_ne!(a.name(), b.name());
        }
    }
    let every: Vec<String> = all.iter().map(|e| e.name()).collect();
    let set = ExtensionSet::from_names(&every);
    assert!(all.iter().all(|e| set.is_enabled(*e)));
}

#[test]
fn classify_tells_the_classes_apart() {
    assert_eq!(classify(Status::from_raw(0)), None);
    assert_eq!(classify(Status::from_raw(8)), None);
    assert_eq!(classify(Status::from_raw(-9)), Some(ErrorKind::ExtensionNotPresent));
    assert_eq!(classify(Status::from_raw(-1)), Some(ErrorKind::NativeFailure));
    assert_eq!(classify(Status::from_raw(-10)), Some(ErrorKind::NativeFailure));
    assert_eq!(classify(Status::from_raw(i32::MIN)), Some(ErrorKind::NativeFailure));
}
