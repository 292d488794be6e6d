use openxr::extensions::{Extension, ExtensionSet, FunctionTable, InstanceExtensions};
use openxr::foveation_fb::{
    FoveationDynamicFB, FoveationLevelFB, FoveationLevelProfile, FoveationLevelProfileCreateInfoFB,
    FoveationProfileFB, Swapchain, SwapchainCreateFoveationFlagsFB, SwapchainCreateInfo,
    SwapchainCreateInfoFoveationFB, SwapchainStateFoveationFlagsFB,
};
use openxr::session::{Instance, Session};
use openxr::status::Status;
use openxr::types::{Handle, Scalar, StructureType};

fn session_with(list: &[&str]) -> Session {
    let names: Vec<String> = list.iter().map(|s| s.to_string()).collect();
    let exts = InstanceExtensions::load(&ExtensionSet::from_names(&names));
    Session::from_raw(Instance::from_raw(Handle::from_raw(1), exts), Handle::from_raw(2))
}

#[test]
fn profile_without_level_has_an_empty_chain() {
    let session = session_with(&["XR_FB_foveation"]);
    let info = session.create_foveation_profile(None).unwrap();
    assert_eq!(info.ty, StructureType::FoveationProfileCreateInfoFB);
    assert_eq!(info.next, None);
}

#[test]
fn profile_with_level_chains_the_level_structure() {
    let session = session_with(&["XR_FB_foveation"]);
    let offset = Scalar::from_bits((-0.25f32).to_bits());
    let info = session
        .create_foveation_profile(Some(FoveationLevelProfile {
            level: FoveationLevelFB::High,
            vertical_offset: offset,
            dynamic: FoveationDynamicFB::LevelEnabled,
        }))
        .unwrap();
    assert_eq!(
        info.next,
        Some(FoveationLevelProfileCreateInfoFB {
            ty: StructureType::FoveationLevelProfileCreateInfoFB,
            vertical_offset: offset,
            level: FoveationLevelFB::High,
            dynamic: FoveationDynamicFB::LevelEnabled,
        })
    );
}

#[test]
fn profile_refers_to_the_instance() {
    let session = session_with(&["XR_FB_foveation"]);
    let profile = session.foveation_profile_created(Status::success(), Handle::from_raw(30)).unwrap();
    assert_eq!(profile.as_raw(), Handle { raw: 30 });
    assert_eq!(profile.inner.instance, *session.instance());
    assert_eq!(profile.fp(), Some(FunctionTable { extension: Extension::FbFoveation }));
    assert_eq!(profile, FoveationProfileFB::from_raw(*session.instance(), Handle::from_raw(30)));
    let bare = session_with(&[]);
    assert_eq!(FoveationProfileFB::from_raw(*bare.instance(), Handle::from_raw(30)).fp(), None);
}

#[test]
fn swapchain_request_chains_the_foveation_flags() {
    let session = session_with(&["XR_FB_foveation"]);
    let info = SwapchainCreateInfo {
        create_flags: 1,
        usage_flags: 0x21,
        format: 43,
        sample_count: 1,
        width: 1440,
        height: 1584,
        face_count: 1,
        array_size: 2,
        mip_count: 1,
    };
    let flags = SwapchainCreateFoveationFlagsFB { bits: 3 };
    let native = session.create_swapchain_with_foveation(&info, flags).unwrap();
    assert_eq!(native.ty, StructureType::SwapchainCreateInfo);
    assert_eq!(
        native.next,
        Some(SwapchainCreateInfoFoveationFB { ty: StructureType::SwapchainCreateInfoFoveationFB, flags })
    );
    assert_eq!(native.create_flags, 1);
    assert_eq!(native.usage_flags, 0x21);
    assert_eq!(native.format, 43);
    assert_eq!(native.sample_count, 1);
    assert_eq!(native.width, 1440);
    assert_eq!(native.height, 1584);
    assert_eq!(native.face_count, 1);
    assert_eq!(native.array_size, 2);
    assert_eq!(native.mip_count, 1);
    let swapchain = session.swapchain_with_foveation_created(Status::success(), Handle::from_raw(50)).unwrap();
    assert_eq!(swapchain, Swapchain::from_raw(&session, Handle::from_raw(50)));
    assert_eq!(swapchain.as_raw(), Handle { raw: 50 });
    assert_eq!(swapchain.kind(), openxr::ownership::ObjectKind::Swapchain);
    assert_eq!(swapchain.instance(), session.instance());
}

#[test]
fn swapchain_with_foveation_needs_the_foveation_extension() {
    let info = SwapchainCreateInfo {
        create_flags: 0,
        usage_flags: 1,
        format: 43,
        sample_count: 1,
        width: 16,
        height: 16,
        face_count: 1,
        array_size: 1,
        mip_count: 1,
    };
    let flags = SwapchainCreateFoveationFlagsFB { bits: 1 };
    for session in [session_with(&[]), session_with(&["XR_FB_swapchain_update_state"])] {
        assert_eq!(session.create_swapchain_with_foveation(&info, flags), Err(Status { raw: -9 }));
        assert_eq!(
            session.swapchain_with_foveation_created(Status::success(), Handle::from_raw(50)),
            Err(Status { raw: -9 })
        );
        assert_eq!(
            session.swapchain_with_foveation_created(Status::from_raw(-2), Handle::from_raw(50)),
            Err(Status { raw: -9 })
        );
    }
    let session = session_with(&["XR_FB_foveation"]);
    assert!(session.create_swapchain_with_foveation(&info, flags).is_ok());
    assert_eq!(
        session.swapchain_with_foveation_created(Status::from_raw(-2), Handle::from_raw(50)),
        Err(Status { raw: -2 })
    );
}

#[test]
fn update_foveation_is_gated_by_the_state_update_extension() {
    let with = session_with(&["XR_FB_swapchain_update_state", "XR_FB_foveation"]);
    let without = session_with(&["XR_FB_foveation"]);
    let profile = with.foveation_profile_created(Status::success(), Handle::from_raw(30)).unwrap();
    let swapchain = Swapchain::from_raw(&with, Handle::from_raw(50));
    let state = swapchain.update_foveation(&profile).unwrap();
    assert_eq!(state.ty, StructureType::SwapchainStateFoveationFB);
    assert_eq!(state.flags, SwapchainStateFoveationFlagsFB { bits: 0 });
    assert_eq!(state.profile, Handle { raw: 30 });
    assert_eq!(swapchain.foveation_updated(Status::success()), Ok(()));
    assert_eq!(swapchain.foveation_updated(Status::from_raw(-12)), Err(Status { raw: -12 }));
    let bare = Swapchain::from_raw(&without, Handle::from_raw(50));
    assert_eq!(bare.update_foveation(&profile), Err(Status { raw: -9 }));
    assert_eq!(bare.foveation_updated(Status::success()), Err(Status { raw: -9 }));
    assert_eq!(bare.foveation_updated(Status::from_raw(-12)), Err(Status { raw: -9 }));
}
