//! Verified core of a safe wrapper layer over an extensible native XR runtime.
//!
//! The library holds the decisions of the wrapper layer: which extension a
//! call needs, what the native request structures contain, how a native
//! reply is shaped into a typed result, and when each native object is
//! destroyed. The native calls themselves are made by the caller, who hands
//! the replies back as plain values.
//!
//! Every operation on the runtime is therefore a pair of functions: one
//! that checks the extension and fills the request, and one that takes the
//! status code and what the runtime wrote and returns the result. A query
//! has a third, which gives what the reply structure holds when it is handed
//! to the runtime: its tag, its flags unset, and the sizes of its buffers.

pub mod status;
pub mod types;
pub mod extensions;
pub mod session;
pub mod lifecycle;
pub mod counting;
pub mod ownership;
pub mod body_tracking_fb;
pub mod body_tracking_full_body_meta;
pub mod eye_tracking_social;
pub mod face_tracking_fb;
pub mod foveation_fb;
pub mod htc_facial_tracking;
