//! Verified core of the Tako desktop launcher: the decisions of installing
//! Bun, choosing the bundles, starting and supervising the Hub server, and
//! keeping navigation inside the window.
use vstd::prelude::*;

pub mod text;
pub mod version;
pub mod region;
pub mod paths;
pub mod progress;
pub mod navigation;
pub mod hub_manager;
pub mod supervisor;
pub mod bun_manager;
pub mod bundle_resolver;
pub mod archive;

verus! {

#[verifier::external_type_specification]
#[verifier::external_body]
#[verifier::reject_recursive_types(T)]
pub struct ExMutex<T: ?Sized>(std::sync::Mutex<T>);

/// The process id of the running Hub, shared between the Hub loop, which
/// sets it whenever the Hub starts, and the window's close handler, which
/// takes it to stop the Hub when the application quits.
pub struct HubPidState(pub std::sync::Mutex<Option<u32>>);

} // verus!
