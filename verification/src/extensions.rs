//! The optional extensions and the per-instance table of their functions.

use vstd::prelude::*;

verus! {

/// An optional capability of the runtime, enabled by name when the instance
/// is created.
#[derive(Clone, Copy, Debug, PartialEq, Eq, Structural)]
pub enum Extension {
    FbBodyTracking,
    MetaBodyTrackingFullBody,
    FbEyeTrackingSocial,
    FbFaceTracking,
    FbFaceTracking2,
    FbFoveation,
    FbSwapchainUpdateState,
    HtcFacialTracking,
}

impl Extension {
    /// The name by which the extension is enabled.
    pub open spec fn name_spec(self) -> Seq<char> {
        match self {
            Extension::FbBodyTracking => "XR_FB_body_tracking"@,
            Extension::MetaBodyTrackingFullBody => "XR_META_body_tracking_full_body"@,
            Extension::FbEyeTrackingSocial => "XR_FB_eye_tracking_social"@,
            Extension::FbFaceTracking => "XR_FB_face_tracking"@,
            Extension::FbFaceTracking2 => "XR_FB_face_tracking2"@,
            Extension::FbFoveation => "XR_FB_foveation"@,
            Extension::FbSwapchainUpdateState => "XR_FB_swapchain_update_state"@,
            Extension::HtcFacialTracking => "XR_HTC_facial_tracking"@,
        }
    }

    /// The name by which the extension is enabled.
    pub fn name(self) -> (r: String)
        ensures
            r@ == self.name_spec(),
    {
        match self {
            Extension::FbBodyTracking => "XR_FB_body_tracking".to_owned(),
            Extension::MetaBodyTrackingFullBody => "XR_META_body_tracking_full_body".to_owned(),
            Extension::FbEyeTrackingSocial => "XR_FB_eye_tracking_social".to_owned(),
            Extension::FbFaceTracking => "XR_FB_face_tracking".to_owned(),
            Extension::FbFaceTracking2 => "XR_FB_face_tracking2".to_owned(),
            Extension::FbFoveation => "XR_FB_foveation".to_owned(),
            Extension::FbSwapchainUpdateState => "XR_FB_swapchain_update_state".to_owned(),
            Extension::HtcFacialTracking => "XR_HTC_facial_tracking".to_owned(),
        }
    }

    /// Whether `name` is the name of this extension.
    pub fn is_named(self, name: &String) -> (r: bool)
        ensures
            r == (name@ == self.name_spec()),
    {
        let own = self.name();
        *name == own
    }
}

/// The extensions in the order in which the library lists them.
pub open spec fn all_extensions_spec() -> Seq<Extension> {
    seq![
        Extension::FbBodyTracking,
        Extension::MetaBodyTrackingFullBody,
        Extension::FbEyeTrackingSocial,
        Extension::FbFaceTracking,
        Extension::FbFaceTracking2,
        Extension::FbFoveation,
        Extension::FbSwapchainUpdateState,
        Extension::HtcFacialTracking,
    ]
}

/// Every extension the library knows, each once.
pub fn all_extensions() -> (r: Vec<Extension>)
    ensures
        r@ == all_extensions_spec(),
        r@.no_duplicates(),
        forall|ext: Extension| r@.contains(ext),
{
    let all = vec![
        Extension::FbBodyTracking,
        Extension::MetaBodyTrackingFullBody,
        Extension::FbEyeTrackingSocial,
        Extension::FbFaceTracking,
        Extension::FbFaceTracking2,
        Extension::FbFoveation,
        Extension::FbSwapchainUpdateState,
        Extension::HtcFacialTracking,
    ];
    proof {
        assert(all@ =~= all_extensions_spec());
        assert forall|ext: Extension| all@.contains(ext) by {
            match ext {
                Extension::FbBodyTracking => assert(all@[0] == ext),
                Extension::MetaBodyTrackingFullBody => assert(all@[1] == ext),
                Extension::FbEyeTrackingSocial => assert(all@[2] == ext),
                Extension::FbFaceTracking => assert(all@[3] == ext),
                Extension::FbFaceTracking2 => assert(all@[4] == ext),
                Extension::FbFoveation => assert(all@[5] == ext),
                Extension::FbSwapchainUpdateState => assert(all@[6] == ext),
                Extension::HtcFacialTracking => assert(all@[7] == ext),
            }
        }
    }
    all
}

/// Whether some entry of `names` is the name of `ext`.
pub open spec fn names_include(names: Seq<String>, ext: Extension) -> bool {
    exists|i: int| 0 <= i < names.len() && (#[trigger] names[i])@ == ext.name_spec()
}

/// The set of extensions a caller asked to enable.
#[derive(Clone, Copy, Debug, PartialEq, Eq, Structural)]
pub struct ExtensionSet {
    pub fb_body_tracking: bool,
    pub meta_body_tracking_full_body: bool,
    pub fb_eye_tracking_social: bool,
    pub fb_face_tracking: bool,
    pub fb_face_tracking2: bool,
    pub fb_foveation: bool,
    pub fb_swapchain_update_state: bool,
    pub htc_facial_tracking: bool,
}

impl ExtensionSet {
    /// Whether `ext` is in the set.
    pub open spec fn contains(self, ext: Extension) -> bool {
        match ext {
            Extension::FbBodyTracking => self.fb_body_tracking,
            Extension::MetaBodyTrackingFullBody => self.meta_body_tracking_full_body,
            Extension::FbEyeTrackingSocial => self.fb_eye_tracking_social,
            Extension::FbFaceTracking => self.fb_face_tracking,
            Extension::FbFaceTracking2 => self.fb_face_tracking2,
            Extension::FbFoveation => self.fb_foveation,
            Extension::FbSwapchainUpdateState => self.fb_swapchain_update_state,
            Extension::HtcFacialTracking => self.htc_facial_tracking,
        }
    }

    /// The set with no extension in it.
    pub fn empty() -> (r: ExtensionSet)
        ensures
            forall|ext: Extension| !r.contains(ext),
    {
        ExtensionSet {
            fb_body_tracking: false,
            meta_body_tracking_full_body: false,
            fb_eye_tracking_social: false,
            fb_face_tracking: false,
            fb_face_tracking2: false,
            fb_foveation: false,
            fb_swapchain_update_state: false,
            htc_facial_tracking: false,
        }
    }

    /// Whether `ext` is in the set.
    pub fn is_enabled(&self, ext: Extension) -> (r: bool)
        ensures
            r == self.contains(ext),
    {
        match ext {
            Extension::FbBodyTracking => self.fb_body_tracking,
            Extension::MetaBodyTrackingFullBody => self.meta_body_tracking_full_body,
            Extension::FbEyeTrackingSocial => self.fb_eye_tracking_social,
            Extension::FbFaceTracking => self.fb_face_tracking,
            Extension::FbFaceTracking2 => self.fb_face_tracking2,
            Extension::FbFoveation => self.fb_foveation,
            Extension::FbSwapchainUpdateState => self.fb_swapchain_update_state,
            Extension::HtcFacialTracking => self.htc_facial_tracking,
        }
    }

    /// Adds `ext` to the set and leaves every other extension as it was.
    pub fn enable(&mut self, ext: Extension)
        ensures
            final(self).contains(ext),
            forall|other: Extension| other != ext ==> final(self).contains(other) == old(self).contains(other),
    {
        match ext {
            Extension::FbBodyTracking => { self.fb_body_tracking = true; },
            Extension::MetaBodyTrackingFullBody => { self.meta_body_tracking_full_body = true; },
            Extension::FbEyeTrackingSocial => { self.fb_eye_tracking_social = true; },
            Extension::FbFaceTracking => { self.fb_face_tracking = true; },
            Extension::FbFaceTracking2 => { self.fb_face_tracking2 = true; },
            Extension::FbFoveation => { self.fb_foveation = true; },
            Extension::FbSwapchainUpdateState => { self.fb_swapchain_update_state = true; },
            Extension::HtcFacialTracking => { self.htc_facial_tracking = true; },
        }
    }

    /// The set of the extensions that `names` names. Names of no known
    /// extension are passed over.
    pub fn from_names(names: &Vec<String>) -> (r: ExtensionSet)
        ensures
            forall|ext: Extension| r.contains(ext) == names_include(names@, ext),
    {
        let mut set = ExtensionSet::empty();
        let mut i: usize = 0;
        while i < names.len()
            invariant
                i <= names.len(),
                forall|ext: Extension| set.contains(ext) == names_include(names@.take(i as int), ext),
            decreases names.len() - i,
        {
            let name = &names[i];
            let ghost before = names@.take(i as int);
            let ghost after = names@.take(i + 1);
            let prev = set;
            set = ExtensionSet {
                fb_body_tracking: prev.fb_body_tracking || Extension::FbBodyTracking.is_named(name),
                meta_body_tracking_full_body: prev.meta_body_tracking_full_body
                    || Extension::MetaBodyTrackingFullBody.is_named(name),
                fb_eye_tracking_social: prev.fb_eye_tracking_social
                    || Extension::FbEyeTrackingSocial.is_named(name),
                fb_face_tracking: prev.fb_face_tracking || Extension::FbFaceTracking.is_named(name),
                fb_face_tracking2: prev.fb_face_tracking2 || Extension::FbFaceTracking2.is_named(name),
                fb_foveation: prev.fb_foveation || Extension::FbFoveation.is_named(name),
                fb_swapchain_update_state: prev.fb_swapchain_update_state
                    || Extension::FbSwapchainUpdateState.is_named(name),
                htc_facial_tracking: prev.htc_facial_tracking
                    || Extension::HtcFacialTracking.is_named(name),
            };
            proof {
                assert forall|ext: Extension| set.contains(ext) == names_include(after, ext) by {
                    assert(set.contains(ext) == (prev.contains(ext) || name@ == ext.name_spec()));
                    if names_include(after, ext) {
                        let j = choose|j: int| 0 <= j < after.len() && (#[trigger] after[j])@ == ext.name_spec();
                        if j < i {
                            assert(before[j] == after[j]);
                        }
                    }
                    if names_include(before, ext) {
                        let j = choose|j: int| 0 <= j < before.len() && (#[trigger] before[j])@ == ext.name_spec();
                        assert(after[j] == before[j]);
                    }
                    if name@ == ext.name_spec() {
                        assert(after[i as int] == *name);
                    }
                }
            }
            i = i + 1;
        }
        proof {
            assert(names@.take(i as int) =~= names@);
        }
        set
    }
}

/// The resolved block of native functions of one extension.
///
/// The value stands for the function pointers, which the caller keeps; it
/// only exists for an extension that was enabled.
#[derive(Clone, Copy, Debug, PartialEq, Eq, Structural)]
pub struct FunctionTable {
    pub extension: Extension,
}

/// The function tables of an instance, one for each enabled extension.
///
/// The table is filled once, when the instance is created, and never changes.
#[derive(Clone, Copy, Debug, PartialEq, Eq, Structural)]
pub struct InstanceExtensions {
    enabled: ExtensionSet,
}

impl InstanceExtensions {
    /// The function table of `ext`, if the extension was enabled.
    pub closed spec fn table(self, ext: Extension) -> Option<FunctionTable> {
        if self.enabled.contains(ext) {
            Some(FunctionTable { extension: ext })
        } else {
            None
        }
    }

    /// The table with the functions of exactly the extensions in `set`.
    pub fn load(set: &ExtensionSet) -> (r: InstanceExtensions)
        ensures
            forall|ext: Extension| #[trigger] r.table(ext) == if set.contains(ext) {
                Some(FunctionTable { extension: ext })
            } else {
                None::<FunctionTable>
            },
    {
        InstanceExtensions { enabled: *set }
    }

    /// The function table of `ext`, or `None` when the extension was not
    /// enabled.
    pub fn get(&self, ext: Extension) -> (r: Option<FunctionTable>)
        ensures
            r == self.table(ext),
    {
        if self.enabled.is_enabled(ext) {
            Some(FunctionTable { extension: ext })
        } else {
            None
        }
    }

    /// The functions of the body tracking extension.
    pub fn fb_body_tracking(&self) -> (r: Option<FunctionTable>)
        ensures
            r == self.table(Extension::FbBodyTracking),
    {
        self.get(Extension::FbBodyTracking)
    }

    /// The functions of the full-body tracking extension.
    pub fn meta_body_tracking_full_body(&self) -> (r: Option<FunctionTable>)
        ensures
            r == self.table(Extension::MetaBodyTrackingFullBody),
    {
        self.get(Extension::MetaBodyTrackingFullBody)
    }

    /// The functions of the social eye tracking extension.
    pub fn fb_eye_tracking_social(&self) -> (r: Option<FunctionTable>)
        ensures
            r == self.table(Extension::FbEyeTrackingSocial),
    {
        self.get(Extension::FbEyeTrackingSocial)
    }

    /// The functions of the first face tracking extension.
    pub fn fb_face_tracking(&self) -> (r: Option<FunctionTable>)
        ensures
            r == self.table(Extension::FbFaceTracking),
    {
        self.get(Extension::FbFaceTracking)
    }

    /// The functions of the second face tracking extension.
    pub fn fb_face_tracking2(&self) -> (r: Option<FunctionTable>)
        ensures
            r == self.table(Extension::FbFaceTracking2),
    {
        self.get(Extension::FbFaceTracking2)
    }

    /// The functions of the foveation extension.
    pub fn fb_foveation(&self) -> (r: Option<FunctionTable>)
        ensures
            r == self.table(Extension::FbFoveation),
    {
        self.get(Extension::FbFoveation)
    }

    /// The functions of the swapchain state update extension.
    pub fn fb_swapchain_update_state(&self) -> (r: Option<FunctionTable>)
        ensures
            r == self.table(Extension::FbSwapchainUpdateState),
    {
        self.get(Extension::FbSwapchainUpdateState)
    }

    /// The functions of the facial tracking extension.
    pub fn htc_facial_tracking(&self) -> (r: Option<FunctionTable>)
        ensures
            r == self.table(Extension::HtcFacialTracking),
    {
        self.get(Extension::HtcFacialTracking)
    }
}

/// No two extensions share a name, so a name enables one extension at most.
pub proof fn lemma_names_are_distinct(a: Extension, b: Extension)
    requires
        a != b,
    ensures
        a.name_spec() != b.name_spec(),
{
    reveal_strlit("XR_FB_body_tracking");
    reveal_strlit("XR_META_body_tracking_full_body");
    reveal_strlit("XR_FB_eye_tracking_social");
    reveal_strlit("XR_FB_face_tracking");
    reveal_strlit("XR_FB_face_tracking2");
    reveal_strlit("XR_FB_foveation");
    reveal_strlit("XR_FB_swapchain_update_state");
    reveal_strlit("XR_HTC_facial_tracking");
    if a.name_spec().len() == b.name_spec().len() {
        assert(a.name_spec()[6] != b.name_spec()[6]);
    }
}

/// A table holds a function block for an extension exactly when the
/// extension is enabled, and the block is that extension's own.
pub proof fn lemma_table_is_own(exts: InstanceExtensions, ext: Extension)
    ensures
        exts.table(ext) is Some ==> exts.table(ext) == Some(FunctionTable { extension: ext }),
{
}

} // verus!
