//! The ownership graph of one instance: which objects hold which, counted
//! by strong references, and what is destroyed when a reference is given up.
//!
//! An instance is held by its owners, by its sessions and by its foveation
//! profiles. A session is held by its owners and by every object created
//! from it. Nothing is destroyed while something holds it, and everything is
//! destroyed as soon as nothing does.

use vstd::prelude::*;
use crate::counting::{
    count_where,
    lemma_count_positive,
    lemma_count_push,
    lemma_count_update,
    lemma_count_update_unrelated,
};
use crate::extensions::Extension;
use crate::lifecycle::{step, Lifecycle, LifecycleEvent};
use crate::session::{Instance, Session};
use crate::types::Handle;

verus! {

/// The kinds of objects that are created from a session and hold it.
#[derive(Clone, Copy, Debug, PartialEq, Eq, Structural)]
pub enum ObjectKind {
    BodyTrackerFB,
    BodyTrackerFullBodyMETA,
    EyeTrackerSocial,
    FaceTrackerFB,
    FaceTracker2FB,
    FacialTrackerHTC,
    Space,
    Swapchain,
}

/// The extension whose functions create and destroy objects of a kind, or
/// `None` for the kinds of the core interface.
pub open spec fn extension_of_spec(kind: ObjectKind) -> Option<Extension> {
    match kind {
        ObjectKind::BodyTrackerFB => Some(Extension::FbBodyTracking),
        ObjectKind::BodyTrackerFullBodyMETA => Some(Extension::MetaBodyTrackingFullBody),
        ObjectKind::EyeTrackerSocial => Some(Extension::FbEyeTrackingSocial),
        ObjectKind::FaceTrackerFB => Some(Extension::FbFaceTracking),
        ObjectKind::FaceTracker2FB => Some(Extension::FbFaceTracking2),
        ObjectKind::FacialTrackerHTC => Some(Extension::HtcFacialTracking),
        ObjectKind::Space => None,
        ObjectKind::Swapchain => None,
    }
}

/// The extension whose functions create and destroy objects of a kind, or
/// `None` for the kinds of the core interface.
pub fn extension_of(kind: ObjectKind) -> (r: Option<Extension>)
    ensures
        r == extension_of_spec(kind),
{
    match kind {
        ObjectKind::BodyTrackerFB => Some(Extension::FbBodyTracking),
        ObjectKind::BodyTrackerFullBodyMETA => Some(Extension::MetaBodyTrackingFullBody),
        ObjectKind::EyeTrackerSocial => Some(Extension::FbEyeTrackingSocial),
        ObjectKind::FaceTrackerFB => Some(Extension::FbFaceTracking),
        ObjectKind::FaceTracker2FB => Some(Extension::FbFaceTracking2),
        ObjectKind::FacialTrackerHTC => Some(Extension::HtcFacialTracking),
        ObjectKind::Space => None,
        ObjectKind::Swapchain => None,
    }
}

/// A native destroy call that is to be issued.
#[derive(Clone, Copy, Debug, PartialEq, Eq, Structural)]
pub enum DestroyCall {
    Object { kind: ObjectKind, handle: Handle },
    FoveationProfile { handle: Handle },
    Session { handle: Handle },
    Instance { handle: Handle },
}

/// A session in the graph.
#[derive(Clone, Copy, Debug, PartialEq, Eq, Structural)]
pub struct SessionRecord {
    pub handle: Handle,
    /// The session values that callers hold.
    pub holders: usize,
    /// The live objects that were created from the session.
    pub dependents: usize,
    pub state: Lifecycle,
}

/// An object in the graph.
#[derive(Clone, Copy, Debug, PartialEq, Eq, Structural)]
pub struct ObjectRecord {
    pub kind: ObjectKind,
    pub handle: Handle,
    /// The index of the session that the object holds.
    pub session: usize,
    pub state: Lifecycle,
}

/// A foveation profile in the graph.
#[derive(Clone, Copy, Debug, PartialEq, Eq, Structural)]
pub struct ProfileRecord {
    pub handle: Handle,
    /// The profile values that callers hold.
    pub holders: usize,
    pub state: Lifecycle,
}

/// Whether a session is live.
pub open spec fn session_is_live() -> spec_fn(SessionRecord) -> bool {
    |r: SessionRecord| r.state == Lifecycle::Live
}

/// Whether a profile is live.
pub open spec fn profile_is_live() -> spec_fn(ProfileRecord) -> bool {
    |r: ProfileRecord| r.state == Lifecycle::Live
}

/// Whether an object is live and holds the session with index `s`.
pub open spec fn object_holds(s: int) -> spec_fn(ObjectRecord) -> bool {
    |r: ObjectRecord| r.session == s && r.state == Lifecycle::Live
}

/// The ownership graph of one instance.
#[derive(Debug)]
pub struct Ledger {
    pub instance: Instance,
    /// The instance values that callers hold.
    pub instance_holders: usize,
    /// The live sessions and profiles, each of which holds the instance.
    pub instance_dependents: usize,
    pub instance_state: Lifecycle,
    pub sessions: Vec<SessionRecord>,
    pub objects: Vec<ObjectRecord>,
    pub profiles: Vec<ProfileRecord>,
}

impl Ledger {
    /// The number of live sessions.
    pub open spec fn live_sessions(self) -> nat {
        count_where(self.sessions@, session_is_live())
    }

    /// The number of live profiles.
    pub open spec fn live_profiles(self) -> nat {
        count_where(self.profiles@, profile_is_live())
    }

    /// The number of live objects that hold the session with index `s`.
    pub open spec fn live_objects_on(self, s: int) -> nat {
        count_where(self.objects@, object_holds(s))
    }

    /// Whether the functions that destroy an object of `kind` are in the
    /// extension table of the instance.
    pub open spec fn can_destroy(self, kind: ObjectKind) -> bool {
        match extension_of_spec(kind) {
            Some(ext) => self.instance.extensions.table(ext) is Some,
            None => true,
        }
    }

    /// Whether the record of a session agrees with the graph: the session
    /// is destroyed exactly when nothing holds it, and its dependents are
    /// the live objects that were created from it.
    pub open spec fn session_ok(self, s: int) -> bool {
        let r = self.sessions@[s];
        &&& r.state != Lifecycle::Created
        &&& (r.state == Lifecycle::Destroyed <==> r.holders == 0 && r.dependents == 0)
        &&& r.dependents == self.live_objects_on(s)
    }

    /// Whether the record of an object agrees with the graph: its session
    /// exists, and the functions that destroy it are in the table.
    pub open spec fn object_ok(self, o: int) -> bool {
        let r = self.objects@[o];
        &&& r.session < self.sessions@.len()
        &&& r.state != Lifecycle::Created
        &&& self.can_destroy(r.kind)
    }

    /// Whether the record of a profile agrees with the graph: the profile
    /// is destroyed exactly when nothing holds it.
    pub open spec fn profile_ok(self, p: int) -> bool {
        let r = self.profiles@[p];
        &&& r.state != Lifecycle::Created
        &&& (r.state == Lifecycle::Destroyed <==> r.holders == 0)
    }

    /// The invariant of the graph: every count is the number of references
    /// it stands for, and an object is destroyed exactly when its count is
    /// zero.
    pub open spec fn wf(self) -> bool {
        &&& self.instance_state != Lifecycle::Created
        &&& (self.instance_state == Lifecycle::Destroyed <==> self.instance_holders == 0
            && self.instance_dependents == 0)
        &&& self.instance_dependents == self.live_sessions() + self.live_profiles()
        &&& forall|s: int| 0 <= s < self.sessions@.len() ==> #[trigger] self.session_ok(s)
        &&& forall|o: int| 0 <= o < self.objects@.len() ==> #[trigger] self.object_ok(o)
        &&& forall|p: int| 0 <= p < self.profiles@.len() ==> #[trigger] self.profile_ok(p)
        &&& self.sessions_distinct()
        &&& self.objects_distinct()
        &&& self.profiles_distinct()
    }

    /// Whether a live session owns the native handle `handle`.
    pub open spec fn session_claimed(self, handle: Handle) -> bool {
        exists|s: int|
            0 <= s < self.sessions@.len() && (#[trigger] self.sessions@[s]).handle == handle
                && self.sessions@[s].state == Lifecycle::Live
    }

    /// Whether a live object of `kind` owns the native handle `handle`.
    pub open spec fn object_claimed(self, kind: ObjectKind, handle: Handle) -> bool {
        exists|o: int|
            0 <= o < self.objects@.len() && (#[trigger] self.objects@[o]).handle == handle
                && self.objects@[o].kind == kind && self.objects@[o].state == Lifecycle::Live
    }

    /// Whether a live profile owns the native handle `handle`.
    pub open spec fn profile_claimed(self, handle: Handle) -> bool {
        exists|p: int|
            0 <= p < self.profiles@.len() && (#[trigger] self.profiles@[p]).handle == handle
                && self.profiles@[p].state == Lifecycle::Live
    }

    /// No two live sessions own the same native handle.
    pub open spec fn sessions_distinct(self) -> bool {
        forall|a: int, b: int|
            #![trigger self.sessions@[a], self.sessions@[b]]
            0 <= a < b < self.sessions@.len() && self.sessions@[a].state == Lifecycle::Live
                && self.sessions@[b].state == Lifecycle::Live ==> self.sessions@[a].handle
                != self.sessions@[b].handle
    }

    /// No two live objects of one kind own the same native handle.
    pub open spec fn objects_distinct(self) -> bool {
        forall|a: int, b: int|
            #![trigger self.objects@[a], self.objects@[b]]
            0 <= a < b < self.objects@.len() && self.objects@[a].state == Lifecycle::Live
                && self.objects@[b].state == Lifecycle::Live && self.objects@[a].kind
                == self.objects@[b].kind ==> self.objects@[a].handle != self.objects@[b].handle
    }

    /// No two live profiles own the same native handle.
    pub open spec fn profiles_distinct(self) -> bool {
        forall|a: int, b: int|
            #![trigger self.profiles@[a], self.profiles@[b]]
            0 <= a < b < self.profiles@.len() && self.profiles@[a].state == Lifecycle::Live
                && self.profiles@[b].state == Lifecycle::Live ==> self.profiles@[a].handle
                != self.profiles@[b].handle
    }

    /// The destroy calls that follow when the instance is left with the
    /// given counts: its own, if nothing holds it any more.
    pub open spec fn instance_calls(self, holders: int, dependents: int) -> Seq<DestroyCall> {
        if holders == 0 && dependents == 0 {
            seq![DestroyCall::Instance { handle: self.instance.handle }]
        } else {
            Seq::<DestroyCall>::empty()
        }
    }

    /// The destroy calls that follow when the session with index `s` is
    /// left with the given counts: its own, if nothing holds it any more,
    /// and then those of the instance, which loses a dependent.
    pub open spec fn session_calls(self, s: int, holders: int, dependents: int) -> Seq<DestroyCall> {
        if holders == 0 && dependents == 0 {
            seq![DestroyCall::Session { handle: self.sessions@[s].handle }] + self.instance_calls(
                self.instance_holders as int,
                self.instance_dependents - 1,
            )
        } else {
            Seq::<DestroyCall>::empty()
        }
    }

    /// The destroy calls that follow when the object with index `o` is
    /// given up: its own, and then those of its session, which loses a
    /// dependent.
    pub open spec fn object_calls(self, o: int) -> Seq<DestroyCall> {
        let r = self.objects@[o];
        seq![DestroyCall::Object { kind: r.kind, handle: r.handle }] + self.session_calls(
            r.session as int,
            self.session_of(o).holders as int,
            self.session_of(o).dependents - 1,
        )
    }

    /// The destroy calls that follow when one reference to the profile with
    /// index `p` is given up: none while another reference is left;
    /// otherwise its own, if the foveation functions are in the table, and
    /// then those of the instance, which loses a dependent.
    pub open spec fn profile_calls(self, p: int) -> Seq<DestroyCall> {
        let r = self.profiles@[p];
        if r.holders == 1 {
            let own = if self.instance.extensions.table(Extension::FbFoveation) is Some {
                seq![DestroyCall::FoveationProfile { handle: r.handle }]
            } else {
                Seq::<DestroyCall>::empty()
            };
            own + self.instance_calls(self.instance_holders as int, self.instance_dependents - 1)
        } else {
            Seq::<DestroyCall>::empty()
        }
    }

    /// How many dependents the instance loses when one of them is left
    /// with the given counts: one if nothing holds it any more, else none.
    pub open spec fn fallen(holders: int, dependents: int) -> int {
        if holders == 0 && dependents == 0 {
            1
        } else {
            0
        }
    }

    /// The record of the session that the object with index `o` holds.
    pub open spec fn session_of(self, o: int) -> SessionRecord {
        self.sessions@[self.objects@[o].session as int]
    }

    /// The record of the session with index `s` once it is left with the
    /// given counts.
    pub open spec fn session_left_with(self, s: int, holders: int, dependents: int) -> SessionRecord {
        SessionRecord {
            handle: self.sessions@[s].handle,
            holders: holders as usize,
            dependents: dependents as usize,
            state: Self::state_for(holders, dependents),
        }
    }

    /// The state of an object that is left with the given counts.
    pub open spec fn state_for(holders: int, dependents: int) -> Lifecycle {
        if holders == 0 && dependents == 0 {
            Lifecycle::Destroyed
        } else {
            Lifecycle::Live
        }
    }

    /// The graph of a new instance, held by one owner.
    pub fn new(instance: Instance) -> (r: Ledger)
        ensures
            r.wf(),
            r.instance == instance,
            r.instance_holders == 1,
            r.instance_dependents == 0,
            r.instance_state == Lifecycle::Live,
            r.sessions@.len() == 0,
            r.objects@.len() == 0,
            r.profiles@.len() == 0,
    {
        Ledger {
            instance,
            instance_holders: 1,
            instance_dependents: 0,
            instance_state: Lifecycle::Live,
            sessions: Vec::new(),
            objects: Vec::new(),
            profiles: Vec::new(),
        }
    }
    /// The session value of the session with index `s`: the instance of
    /// the graph and the native handle of the session.
    pub fn session(&self, s: usize) -> (r: Session)
        requires
            s < self.sessions@.len(),
        ensures
            r.inner.instance == self.instance,
            r.inner.handle == self.sessions@[s as int].handle,
    {
        Session::from_raw(self.instance, self.sessions[s].handle)
    }

    /// Whether a live session owns the native handle `handle`.
    pub fn is_session_claimed(&self, handle: Handle) -> (r: bool)
        ensures
            r == self.session_claimed(handle),
    {
        let mut i: usize = 0;
        while i < self.sessions.len()
            invariant
                i <= self.sessions@.len(),
                forall|s: int|
                    0 <= s < i ==> !((#[trigger] self.sessions@[s]).handle == handle
                        && self.sessions@[s].state == Lifecycle::Live),
            decreases self.sessions@.len() - i,
        {
            let record = self.sessions[i];
            if record.handle == handle && record.state == Lifecycle::Live {
                return true;
            }
            i = i + 1;
        }
        false
    }

    /// Whether a live object of `kind` owns the native handle `handle`.
    pub fn is_object_claimed(&self, kind: ObjectKind, handle: Handle) -> (r: bool)
        ensures
            r == self.object_claimed(kind, handle),
    {
        let mut i: usize = 0;
        while i < self.objects.len()
            invariant
                i <= self.objects@.len(),
                forall|o: int|
                    0 <= o < i ==> !((#[trigger] self.objects@[o]).handle == handle && self.objects@[o].kind
                        == kind && self.objects@[o].state == Lifecycle::Live),
            decreases self.objects@.len() - i,
        {
            let record = self.objects[i];
            if record.handle == handle && record.kind == kind && record.state == Lifecycle::Live {
                return true;
            }
            i = i + 1;
        }
        false
    }

    /// Whether a live profile owns the native handle `handle`.
    pub fn is_profile_claimed(&self, handle: Handle) -> (r: bool)
        ensures
            r == self.profile_claimed(handle),
    {
        let mut i: usize = 0;
        while i < self.profiles.len()
            invariant
                i <= self.profiles@.len(),
                forall|p: int|
                    0 <= p < i ==> !((#[trigger] self.profiles@[p]).handle == handle
                        && self.profiles@[p].state == Lifecycle::Live),
            decreases self.profiles@.len() - i,
        {
            let record = self.profiles[i];
            if record.handle == handle && record.state == Lifecycle::Live {
                return true;
            }
            i = i + 1;
        }
        false
    }

    /// Destroys the instance if nothing holds it any more.
    fn settle_instance(&mut self, calls: &mut Vec<DestroyCall>)
        requires
            old(self).instance_state == Lifecycle::Live,
        ensures
            final(self).instance == old(self).instance,
            final(self).instance_holders == old(self).instance_holders,
            final(self).instance_dependents == old(self).instance_dependents,
            final(self).sessions == old(self).sessions,
            final(self).objects == old(self).objects,
            final(self).profiles == old(self).profiles,
            final(self).instance_state == Self::state_for(
                old(self).instance_holders as int,
                old(self).instance_dependents as int,
            ),
            final(calls)@ == old(calls)@ + old(self).instance_calls(
                old(self).instance_holders as int,
                old(self).instance_dependents as int,
            ),
    {
        if self.instance_holders == 0 && self.instance_dependents == 0 {
            self.instance_state = Lifecycle::Destroyed;
            calls.push(DestroyCall::Instance { handle: self.instance.handle });
            proof {
                assert(final(calls)@ =~= old(calls)@ + old(self).instance_calls(
                    old(self).instance_holders as int,
                    old(self).instance_dependents as int,
                ));
            }
        } else {
            proof {
                assert(calls@ =~= old(calls)@ + old(self).instance_calls(
                    old(self).instance_holders as int,
                    old(self).instance_dependents as int,
                ));
            }
        }
    }

    /// Writes the new counts of a session and destroys it, and then
    /// perhaps the instance, if nothing holds it any more.
    fn settle_session(&mut self, s: usize, holders: usize, dependents: usize, calls: &mut Vec<DestroyCall>)
        requires
            s < old(self).sessions@.len(),
            old(self).instance_state == Lifecycle::Live,
            old(self).instance_dependents >= 1,
        ensures
            final(self).instance == old(self).instance,
            final(self).instance_holders == old(self).instance_holders,
            final(self).objects == old(self).objects,
            final(self).profiles == old(self).profiles,
            final(self).sessions@ == old(self).sessions@.update(
                s as int,
                SessionRecord {
                    handle: old(self).sessions@[s as int].handle,
                    holders,
                    dependents,
                    state: Self::state_for(holders as int, dependents as int),
                },
            ),
            holders == 0 && dependents == 0 ==> final(self).instance_dependents == old(self).instance_dependents
                - 1,
            !(holders == 0 && dependents == 0) ==> final(self).instance_dependents == old(
                self,
            ).instance_dependents,
            final(self).instance_state == if holders == 0 && dependents == 0 {
                Self::state_for(old(self).instance_holders as int, old(self).instance_dependents - 1)
            } else {
                Lifecycle::Live
            },
            final(calls)@ == old(calls)@ + old(self).session_calls(s as int, holders as int, dependents as int),
    {
        let handle = self.sessions[s].handle;
        if holders == 0 && dependents == 0 {
            self.sessions.set(s, SessionRecord { handle, holders, dependents, state: Lifecycle::Destroyed });
            calls.push(DestroyCall::Session { handle });
            self.instance_dependents = self.instance_dependents - 1;
            self.settle_instance(calls);
            proof {
                assert(final(calls)@ =~= old(calls)@ + old(self).session_calls(
                    s as int,
                    holders as int,
                    dependents as int,
                ));
            }
        } else {
            self.sessions.set(s, SessionRecord { handle, holders, dependents, state: Lifecycle::Live });
            proof {
                assert(calls@ =~= old(calls)@ + old(self).session_calls(
                    s as int,
                    holders as int,
                    dependents as int,
                ));
            }
        }
    }

    /// Takes another reference to the live instance, as a copy of an
    /// instance value does, or a session that hands out its instance.
    /// Returns whether the reference could be counted.
    pub fn retain_instance(&mut self) -> (r: bool)
        requires
            old(self).wf(),
            old(self).instance_state == Lifecycle::Live,
        ensures
            final(self).wf(),
            r == (old(self).instance_holders < usize::MAX),
            final(self).instance_holders == if r {
                old(self).instance_holders + 1
            } else {
                old(self).instance_holders as int
            },
            final(self).instance == old(self).instance,
            final(self).instance_dependents == old(self).instance_dependents,
            final(self).instance_state == old(self).instance_state,
            final(self).sessions == old(self).sessions,
            final(self).objects == old(self).objects,
            final(self).profiles == old(self).profiles,
    {
        if self.instance_holders == usize::MAX {
            return false;
        }
        self.instance_holders = self.instance_holders + 1;
        proof {
            lemma_frame(*old(self), *self);
        }
        true
    }

    /// Gives up one reference to the instance, as an instance value that
    /// goes out of scope does. The instance is destroyed if nothing else
    /// holds it, and only then.
    pub fn release_instance(&mut self) -> (calls: Vec<DestroyCall>)
        requires
            old(self).wf(),
            old(self).instance_holders > 0,
        ensures
            final(self).wf(),
            calls@ == old(self).instance_calls(
                old(self).instance_holders - 1,
                old(self).instance_dependents as int,
            ),
            final(self).instance_holders == old(self).instance_holders - 1,
            final(self).instance_state == Self::state_for(
                old(self).instance_holders - 1,
                old(self).instance_dependents as int,
            ),
            final(self).instance == old(self).instance,
            final(self).instance_dependents == old(self).instance_dependents,
            final(self).sessions == old(self).sessions,
            final(self).objects == old(self).objects,
            final(self).profiles == old(self).profiles,
    {
        let mut calls: Vec<DestroyCall> = Vec::new();
        self.instance_holders = self.instance_holders - 1;
        self.settle_instance(&mut calls);
        proof {
            lemma_frame(*old(self), *self);
        }
        calls
    }

    /// Enters a new session of the instance, held by one owner. Returns its
    /// index, or `None` if the instance cannot count another dependent.
    ///
    /// The instance must be live, and no live session may own `handle`.
    pub fn open_session(&mut self, handle: Handle) -> (r: Option<usize>)
        requires
            old(self).wf(),
            old(self).instance_state == Lifecycle::Live,
            !old(self).session_claimed(handle),
        ensures
            final(self).wf(),
            r is Some <==> old(self).instance_dependents < usize::MAX,
            r is None ==> *final(self) == *old(self),
            r is Some ==> {
                &&& r->Some_0 == old(self).sessions@.len()
                &&& final(self).sessions@ == old(self).sessions@.push(
                    SessionRecord { handle, holders: 1, dependents: 0, state: Lifecycle::Live },
                )
                &&& final(self).instance_dependents == old(self).instance_dependents + 1
                &&& final(self).instance == old(self).instance
                &&& final(self).instance_holders == old(self).instance_holders
                &&& final(self).instance_state == Lifecycle::Live
                &&& final(self).objects == old(self).objects
                &&& final(self).profiles == old(self).profiles
            },
    {
        if self.instance_dependents == usize::MAX {
            return None;
        }
        let index = self.sessions.len();
        let record = SessionRecord { handle, holders: 1, dependents: 0, state: Lifecycle::Live };
        self.sessions.push(record);
        self.instance_dependents = self.instance_dependents + 1;
        proof {
            let before = *old(self);
            let after = *self;
            lemma_count_push(before.sessions@, record, session_is_live());
            assert forall|s: int| 0 <= s < after.sessions@.len() implies #[trigger] after.session_ok(s) by {
                if s < before.sessions@.len() {
                    assert(before.session_ok(s));
                } else {
                    assert forall|o: int| 0 <= o < before.objects@.len() implies !object_holds(s)(
                        #[trigger] before.objects@[o],
                    ) by {
                        assert(before.object_ok(o));
                    }
                    crate::counting::lemma_count_none(before.objects@, object_holds(s));
                }
            }
            assert forall|o: int| 0 <= o < after.objects@.len() implies #[trigger] after.object_ok(o) by {
                assert(before.object_ok(o));
            }
            assert forall|p: int| 0 <= p < after.profiles@.len() implies #[trigger] after.profile_ok(p) by {
                assert(before.profile_ok(p));
            }
        }
        Some(index)
    }

    /// Takes another reference to a live session, as a copy of a session
    /// value does. Returns whether the reference could be counted.
    pub fn retain_session(&mut self, s: usize) -> (r: bool)
        requires
            old(self).wf(),
            s < old(self).sessions@.len(),
            old(self).sessions@[s as int].state == Lifecycle::Live,
        ensures
            final(self).wf(),
            r == (old(self).sessions@[s as int].holders < usize::MAX),
            !r ==> *final(self) == *old(self),
            r ==> {
                &&& final(self).sessions@ == old(self).sessions@.update(
                    s as int,
                    SessionRecord {
                        holders: (old(self).sessions@[s as int].holders + 1) as usize,
                        ..old(self).sessions@[s as int]
                    },
                )
                &&& final(self).instance == old(self).instance
                &&& final(self).instance_holders == old(self).instance_holders
                &&& final(self).instance_dependents == old(self).instance_dependents
                &&& final(self).instance_state == old(self).instance_state
                &&& final(self).objects == old(self).objects
                &&& final(self).profiles == old(self).profiles
            },
    {
        let record = self.sessions[s];
        if record.holders == usize::MAX {
            return false;
        }
        let next = SessionRecord { holders: record.holders + 1, ..record };
        self.sessions.set(s, next);
        proof {
            let before = *old(self);
            let after = *self;
            assert(before.session_ok(s as int));
            lemma_count_update_unrelated(before.sessions@, s as int, next, session_is_live());
            assert forall|t: int| 0 <= t < after.sessions@.len() implies #[trigger] after.session_ok(t) by {
                assert(before.session_ok(t));
            }
            assert forall|o: int| 0 <= o < after.objects@.len() implies #[trigger] after.object_ok(o) by {
                assert(before.object_ok(o));
            }
            assert forall|p: int| 0 <= p < after.profiles@.len() implies #[trigger] after.profile_ok(p) by {
                assert(before.profile_ok(p));
            }
        }
        true
    }

    /// Gives up one reference to a session, as a session value that goes
    /// out of scope does. The session is destroyed if nothing else holds
    /// it, and then the instance if nothing else holds that.
    pub fn release_session(&mut self, s: usize) -> (calls: Vec<DestroyCall>)
        requires
            old(self).wf(),
            s < old(self).sessions@.len(),
            old(self).sessions@[s as int].holders > 0,
        ensures
            final(self).wf(),
            calls@ == old(self).session_calls(
                s as int,
                old(self).sessions@[s as int].holders - 1,
                old(self).sessions@[s as int].dependents as int,
            ),
            final(self).sessions@ == old(self).sessions@.update(
                s as int,
                old(self).session_left_with(
                    s as int,
                    old(self).sessions@[s as int].holders - 1,
                    old(self).sessions@[s as int].dependents as int,
                ),
            ),
            final(self).instance_dependents == old(self).instance_dependents - Self::fallen(
                old(self).sessions@[s as int].holders - 1,
                old(self).sessions@[s as int].dependents as int,
            ),
            final(self).instance_state == Self::state_for(
                old(self).instance_holders as int,
                final(self).instance_dependents as int,
            ),
            final(self).instance == old(self).instance,
            final(self).instance_holders == old(self).instance_holders,
            final(self).objects == old(self).objects,
            final(self).profiles == old(self).profiles,
    {
        let mut calls: Vec<DestroyCall> = Vec::new();
        let record = self.sessions[s];
        proof {
            assert(old(self).session_ok(s as int));
            lemma_count_positive(old(self).sessions@, s as int, session_is_live());
        }
        self.settle_session(s, record.holders - 1, record.dependents, &mut calls);
        proof {
            let before = *old(self);
            let after = *self;
            lemma_count_update(before.sessions@, s as int, after.sessions@[s as int], session_is_live());
            assert forall|t: int| 0 <= t < after.sessions@.len() implies #[trigger] after.session_ok(t) by {
                assert(before.session_ok(t));
            }
            assert forall|o: int| 0 <= o < after.objects@.len() implies #[trigger] after.object_ok(o) by {
                assert(before.object_ok(o));
            }
            assert forall|p: int| 0 <= p < after.profiles@.len() implies #[trigger] after.profile_ok(p) by {
                assert(before.profile_ok(p));
            }
        }
        calls
    }

    /// Enters a new object of `kind` that was created from the session
    /// with index `s` and holds it. Returns the index of the object, or
    /// `None` if the session cannot count another dependent.
    ///
    /// The session must be live, the functions that will destroy the
    /// object must be in the extension table, and no live object of the
    /// kind may own `handle`.
    pub fn adopt_object(&mut self, s: usize, kind: ObjectKind, handle: Handle) -> (r: Option<usize>)
        requires
            old(self).wf(),
            s < old(self).sessions@.len(),
            old(self).sessions@[s as int].state == Lifecycle::Live,
            old(self).can_destroy(kind),
            !old(self).object_claimed(kind, handle),
        ensures
            final(self).wf(),
            r is Some <==> old(self).sessions@[s as int].dependents < usize::MAX,
            r is None ==> *final(self) == *old(self),
            r is Some ==> {
                &&& r->Some_0 == old(self).objects@.len()
                &&& final(self).objects@ == old(self).objects@.push(
                    ObjectRecord { kind, handle, session: s, state: Lifecycle::Live },
                )
                &&& final(self).sessions@ == old(self).sessions@.update(
                    s as int,
                    SessionRecord {
                        dependents: (old(self).sessions@[s as int].dependents + 1) as usize,
                        ..old(self).sessions@[s as int]
                    },
                )
                &&& final(self).instance == old(self).instance
                &&& final(self).instance_holders == old(self).instance_holders
                &&& final(self).instance_dependents == old(self).instance_dependents
                &&& final(self).instance_state == old(self).instance_state
                &&& final(self).profiles == old(self).profiles
            },
    {
        let session = self.sessions[s];
        if session.dependents == usize::MAX {
            return None;
        }
        let index = self.objects.len();
        let (state, _) = step(Lifecycle::Created, LifecycleEvent::Wrapped);
        let record = ObjectRecord { kind, handle, session: s, state };
        let next = SessionRecord { dependents: session.dependents + 1, ..session };
        self.objects.push(record);
        self.sessions.set(s, next);
        proof {
            let before = *old(self);
            let after = *self;
            assert(before.session_ok(s as int));
            lemma_count_update_unrelated(before.sessions@, s as int, next, session_is_live());
            assert forall|t: int| 0 <= t < after.sessions@.len() implies #[trigger] after.session_ok(t) by {
                assert(before.session_ok(t));
                lemma_count_push(before.objects@, record, object_holds(t));
            }
            assert forall|o: int| 0 <= o < after.objects@.len() implies #[trigger] after.object_ok(o) by {
                if o < before.objects@.len() {
                    assert(before.object_ok(o));
                }
            }
            assert forall|p: int| 0 <= p < after.profiles@.len() implies #[trigger] after.profile_ok(p) by {
                assert(before.profile_ok(p));
            }
        }
        Some(index)
    }

    /// Gives up a live object, as a wrapper that goes out of scope does.
    /// The object is destroyed by exactly one native call, the first of
    /// those returned; then its session is destroyed if nothing else holds
    /// it, and then the instance if nothing else holds that.
    pub fn release_object(&mut self, o: usize) -> (calls: Vec<DestroyCall>)
        requires
            old(self).wf(),
            o < old(self).objects@.len(),
            old(self).objects@[o as int].state == Lifecycle::Live,
        ensures
            final(self).wf(),
            calls@ == old(self).object_calls(o as int),
            final(self).objects@ == old(self).objects@.update(
                o as int,
                ObjectRecord { state: Lifecycle::Destroyed, ..old(self).objects@[o as int] },
            ),
            final(self).sessions@ == old(self).sessions@.update(
                old(self).objects@[o as int].session as int,
                old(self).session_left_with(
                    old(self).objects@[o as int].session as int,
                    old(self).session_of(o as int).holders as int,
                    old(self).session_of(o as int).dependents - 1,
                ),
            ),
            final(self).instance_dependents == old(self).instance_dependents - Self::fallen(
                old(self).session_of(o as int).holders as int,
                old(self).session_of(o as int).dependents - 1,
            ),
            final(self).instance_state == Self::state_for(
                old(self).instance_holders as int,
                final(self).instance_dependents as int,
            ),
            final(self).instance == old(self).instance,
            final(self).instance_holders == old(self).instance_holders,
            final(self).profiles == old(self).profiles,
    {
        let mut calls: Vec<DestroyCall> = Vec::new();
        let record = self.objects[o];
        let s = record.session;
        proof {
            let before = *old(self);
            assert(before.object_ok(o as int));
            assert(before.session_ok(s as int));
            lemma_count_positive(before.objects@, o as int, object_holds(s as int));
            lemma_count_positive(before.sessions@, s as int, session_is_live());
        }
        let session = self.sessions[s];
        let (state, destroy) = step(record.state, LifecycleEvent::Dropped);
        let gone = ObjectRecord { state, ..record };
        self.objects.set(o, gone);
        if destroy {
            calls.push(DestroyCall::Object { kind: record.kind, handle: record.handle });
        }
        self.settle_session(s, session.holders, session.dependents - 1, &mut calls);
        proof {
            let before = *old(self);
            let after = *self;
            assert(calls@ =~= before.object_calls(o as int));
            lemma_count_update(before.sessions@, s as int, after.sessions@[s as int], session_is_live());
            assert forall|t: int| 0 <= t < after.sessions@.len() implies #[trigger] after.session_ok(t) by {
                assert(before.session_ok(t));
                lemma_count_update(before.objects@, o as int, gone, object_holds(t));
            }
            assert forall|i: int| 0 <= i < after.objects@.len() implies #[trigger] after.object_ok(i) by {
                assert(before.object_ok(i));
            }
            assert forall|p: int| 0 <= p < after.profiles@.len() implies #[trigger] after.profile_ok(p) by {
                assert(before.profile_ok(p));
            }
        }
        calls
    }

    /// Enters a new foveation profile of the instance, held by one owner.
    /// Returns its index, or `None` if the instance cannot count another
    /// dependent.
    ///
    /// The instance must be live, and no live profile may own `handle`.
    pub fn adopt_profile(&mut self, handle: Handle) -> (r: Option<usize>)
        requires
            old(self).wf(),
            old(self).instance_state == Lifecycle::Live,
            !old(self).profile_claimed(handle),
        ensures
            final(self).wf(),
            r is Some <==> old(self).instance_dependents < usize::MAX,
            r is None ==> *final(self) == *old(self),
            r is Some ==> {
                &&& r->Some_0 == old(self).profiles@.len()
                &&& final(self).profiles@ == old(self).profiles@.push(
                    ProfileRecord { handle, holders: 1, state: Lifecycle::Live },
                )
                &&& final(self).instance_dependents == old(self).instance_dependents + 1
                &&& final(self).instance == old(self).instance
                &&& final(self).instance_holders == old(self).instance_holders
                &&& final(self).instance_state == Lifecycle::Live
                &&& final(self).sessions == old(self).sessions
                &&& final(self).objects == old(self).objects
            },
    {
        if self.instance_dependents == usize::MAX {
            return None;
        }
        let index = self.profiles.len();
        let record = ProfileRecord { handle, holders: 1, state: Lifecycle::Live };
        self.profiles.push(record);
        self.instance_dependents = self.instance_dependents + 1;
        proof {
            let before = *old(self);
            let after = *self;
            lemma_count_push(before.profiles@, record, profile_is_live());
            assert forall|s: int| 0 <= s < after.sessions@.len() implies #[trigger] after.session_ok(s) by {
                assert(before.session_ok(s));
            }
            assert forall|o: int| 0 <= o < after.objects@.len() implies #[trigger] after.object_ok(o) by {
                assert(before.object_ok(o));
            }
            assert forall|p: int| 0 <= p < after.profiles@.len() implies #[trigger] after.profile_ok(p) by {
                if p < before.profiles@.len() {
                    assert(before.profile_ok(p));
                }
            }
        }
        Some(index)
    }

    /// Takes another reference to a live profile, as a copy of a profile
    /// value does. Returns whether the reference could be counted.
    pub fn retain_profile(&mut self, p: usize) -> (r: bool)
        requires
            old(self).wf(),
            p < old(self).profiles@.len(),
            old(self).profiles@[p as int].state == Lifecycle::Live,
        ensures
            final(self).wf(),
            r == (old(self).profiles@[p as int].holders < usize::MAX),
            !r ==> *final(self) == *old(self),
            r ==> {
                &&& final(self).profiles@ == old(self).profiles@.update(
                    p as int,
                    ProfileRecord {
                        holders: (old(self).profiles@[p as int].holders + 1) as usize,
                        ..old(self).profiles@[p as int]
                    },
                )
                &&& final(self).instance == old(self).instance
                &&& final(self).instance_holders == old(self).instance_holders
                &&& final(self).instance_dependents == old(self).instance_dependents
                &&& final(self).instance_state == old(self).instance_state
                &&& final(self).sessions == old(self).sessions
                &&& final(self).objects == old(self).objects
            },
    {
        let record = self.profiles[p];
        if record.holders == usize::MAX {
            return false;
        }
        let next = ProfileRecord { holders: record.holders + 1, ..record };
        self.profiles.set(p, next);
        proof {
            let before = *old(self);
            let after = *self;
            assert(before.profile_ok(p as int));
            lemma_count_update_unrelated(before.profiles@, p as int, next, profile_is_live());
            assert forall|s: int| 0 <= s < after.sessions@.len() implies #[trigger] after.session_ok(s) by {
                assert(before.session_ok(s));
            }
            assert forall|o: int| 0 <= o < after.objects@.len() implies #[trigger] after.object_ok(o) by {
                assert(before.object_ok(o));
            }
            assert forall|q: int| 0 <= q < after.profiles@.len() implies #[trigger] after.profile_ok(q) by {
                assert(before.profile_ok(q));
            }
        }
        true
    }

    /// Gives up one reference to a profile, as a profile value that goes
    /// out of scope does. With the last reference the profile is destroyed,
    /// by a native call if the foveation functions are in the table, and
    /// then the instance if nothing else holds that.
    pub fn release_profile(&mut self, p: usize) -> (calls: Vec<DestroyCall>)
        requires
            old(self).wf(),
            p < old(self).profiles@.len(),
            old(self).profiles@[p as int].holders > 0,
        ensures
            final(self).wf(),
            calls@ == old(self).profile_calls(p as int),
            final(self).profiles@ == old(self).profiles@.update(
                p as int,
                ProfileRecord {
                    handle: old(self).profiles@[p as int].handle,
                    holders: (old(self).profiles@[p as int].holders - 1) as usize,
                    state: Self::state_for(old(self).profiles@[p as int].holders - 1, 0),
                },
            ),
            final(self).instance_dependents == old(self).instance_dependents - Self::fallen(
                old(self).profiles@[p as int].holders - 1,
                0,
            ),
            final(self).instance_state == Self::state_for(
                old(self).instance_holders as int,
                final(self).instance_dependents as int,
            ),
            final(self).instance == old(self).instance,
            final(self).instance_holders == old(self).instance_holders,
            final(self).sessions == old(self).sessions,
            final(self).objects == old(self).objects,
    {
        let mut calls: Vec<DestroyCall> = Vec::new();
        let record = self.profiles[p];
        proof {
            assert(old(self).profile_ok(p as int));
            lemma_count_positive(old(self).profiles@, p as int, profile_is_live());
        }
        let holders = record.holders - 1;
        if holders == 0 {
            self.profiles.set(
                p,
                ProfileRecord { handle: record.handle, holders, state: Lifecycle::Destroyed },
            );
            if self.instance.extensions.fb_foveation().is_some() {
                calls.push(DestroyCall::FoveationProfile { handle: record.handle });
            }
            self.instance_dependents = self.instance_dependents - 1;
            self.settle_instance(&mut calls);
        } else {
            self.profiles.set(p, ProfileRecord { handle: record.handle, holders, state: Lifecycle::Live });
        }
        proof {
            let before = *old(self);
            let after = *self;
            assert(calls@ =~= before.profile_calls(p as int));
            lemma_count_update(before.profiles@, p as int, after.profiles@[p as int], profile_is_live());
            assert forall|s: int| 0 <= s < after.sessions@.len() implies #[trigger] after.session_ok(s) by {
                assert(before.session_ok(s));
            }
            assert forall|o: int| 0 <= o < after.objects@.len() implies #[trigger] after.object_ok(o) by {
                assert(before.object_ok(o));
            }
            assert forall|q: int| 0 <= q < after.profiles@.len() implies #[trigger] after.profile_ok(q) by {
                assert(before.profile_ok(q));
            }
        }
        calls
    }
}

/// A graph whose records are those of a well-formed graph, and whose
/// instance counts agree with them, is well-formed as far as its sessions,
/// objects and profiles go.
proof fn lemma_frame(before: Ledger, after: Ledger)
    requires
        before.wf(),
        after.sessions@ == before.sessions@,
        after.objects@ == before.objects@,
        after.profiles@ == before.profiles@,
        after.instance == before.instance,
        after.instance_dependents == before.instance_dependents,
        after.instance_state != Lifecycle::Created,
        after.instance_state == Lifecycle::Destroyed <==> after.instance_holders == 0
            && after.instance_dependents == 0,
    ensures
        after.wf(),
{
    assert forall|s: int| 0 <= s < after.sessions@.len() implies #[trigger] after.session_ok(s) by {
        assert(before.session_ok(s));
    }
    assert forall|o: int| 0 <= o < after.objects@.len() implies #[trigger] after.object_ok(o) by {
        assert(before.object_ok(o));
    }
    assert forall|p: int| 0 <= p < after.profiles@.len() implies #[trigger] after.profile_ok(p) by {
        assert(before.profile_ok(p));
    }
}

/// A live object keeps its session and its instance alive: in a well-formed
/// graph the session of a live object is live, the instance is live, and the
/// functions that will destroy the object are in the extension table.
pub proof fn lemma_live_object_holds_its_owners(ledger: Ledger, o: int)
    requires
        ledger.wf(),
        0 <= o < ledger.objects@.len(),
        ledger.objects@[o].state == Lifecycle::Live,
    ensures
        ledger.objects@[o].session < ledger.sessions@.len(),
        ledger.sessions@[ledger.objects@[o].session as int].state == Lifecycle::Live,
        ledger.sessions@[ledger.objects@[o].session as int].dependents >= 1,
        ledger.instance_state == Lifecycle::Live,
        ledger.instance_dependents >= 1,
        ledger.can_destroy(ledger.objects@[o].kind),
{
    let s = ledger.objects@[o].session as int;
    assert(ledger.object_ok(o));
    assert(ledger.session_ok(s));
    lemma_count_positive(ledger.objects@, o, object_holds(s));
    lemma_count_positive(ledger.sessions@, s, session_is_live());
}

/// A live session or profile keeps the instance alive.
pub proof fn lemma_live_dependent_holds_instance(ledger: Ledger)
    requires
        ledger.wf(),
        (exists|s: int| 0 <= s < ledger.sessions@.len() && (#[trigger] ledger.sessions@[s]).state == Lifecycle::Live)
            || (exists|p: int|
            0 <= p < ledger.profiles@.len() && (#[trigger] ledger.profiles@[p]).state == Lifecycle::Live),
    ensures
        ledger.instance_state == Lifecycle::Live,
        ledger.instance_dependents >= 1,
{
    if exists|s: int| 0 <= s < ledger.sessions@.len() && (#[trigger] ledger.sessions@[s]).state == Lifecycle::Live {
        let s = choose|s: int|
            0 <= s < ledger.sessions@.len() && (#[trigger] ledger.sessions@[s]).state == Lifecycle::Live;
        lemma_count_positive(ledger.sessions@, s, session_is_live());
    } else {
        let p = choose|p: int|
            0 <= p < ledger.profiles@.len() && (#[trigger] ledger.profiles@[p]).state == Lifecycle::Live;
        lemma_count_positive(ledger.profiles@, p, profile_is_live());
    }
}

/// Giving up the instance while a tracker is still held destroys nothing:
/// no destroy call is issued, the instance stays live, and the functions
/// that will destroy the tracker are still in its table.
pub proof fn lemma_instance_outlives_objects(ledger: Ledger, o: int)
    requires
        ledger.wf(),
        ledger.instance_holders > 0,
        0 <= o < ledger.objects@.len(),
        ledger.objects@[o].state == Lifecycle::Live,
    ensures
        ledger.instance_calls(ledger.instance_holders - 1, ledger.instance_dependents as int)
            == Seq::<DestroyCall>::empty(),
        Ledger::state_for(ledger.instance_holders - 1, ledger.instance_dependents as int) == Lifecycle::Live,
        ledger.can_destroy(ledger.objects@[o].kind),
{
    lemma_live_object_holds_its_owners(ledger, o);
}

/// No two wrappers own one native handle: two live objects of one kind have
/// different handles, and so have two live sessions and two live profiles.
pub proof fn lemma_handles_have_one_owner(ledger: Ledger, a: int, b: int)
    requires
        ledger.wf(),
        a != b,
    ensures
        0 <= a < ledger.objects@.len() && 0 <= b < ledger.objects@.len() && ledger.objects@[a].state
            == Lifecycle::Live && ledger.objects@[b].state == Lifecycle::Live && ledger.objects@[a].kind
            == ledger.objects@[b].kind ==> ledger.objects@[a].handle != ledger.objects@[b].handle,
        0 <= a < ledger.sessions@.len() && 0 <= b < ledger.sessions@.len() && ledger.sessions@[a].state
            == Lifecycle::Live && ledger.sessions@[b].state == Lifecycle::Live ==> ledger.sessions@[a].handle
            != ledger.sessions@[b].handle,
        0 <= a < ledger.profiles@.len() && 0 <= b < ledger.profiles@.len() && ledger.profiles@[a].state
            == Lifecycle::Live && ledger.profiles@[b].state == Lifecycle::Live ==> ledger.profiles@[a].handle
            != ledger.profiles@[b].handle,
{
}

/// Giving up a live object issues exactly one destroy call for an object,
/// the one for its own handle, and it comes first; every call after it
/// destroys a session or the instance.
pub proof fn lemma_object_destroyed_by_one_call(ledger: Ledger, o: int)
    requires
        ledger.wf(),
        0 <= o < ledger.objects@.len(),
        ledger.objects@[o].state == Lifecycle::Live,
    ensures
        ledger.object_calls(o).len() >= 1,
        ledger.object_calls(o)[0] == (DestroyCall::Object {
            kind: ledger.objects@[o].kind,
            handle: ledger.objects@[o].handle,
        }),
        forall|i: int| 1 <= i < ledger.object_calls(o).len() ==> !(#[trigger] ledger.object_calls(o)[i] is Object),
        ledger.object_calls(o).len() <= 3,
{
}

} // verus!
