//! A diagnostic engine for network reachability and throughput.
//!
//! Given a domain or an address, it says for each candidate DNS resolver
//! whether the target can be reached through it and how fast content comes
//! through it; given an image reference, it says how fast a layer of that
//! image comes from each registry mirror.
//!
//! The crate holds the decisions and none of the I/O. Each probe is a state
//! machine: the caller performs what the machine asks for (a resolution, a
//! request, a read), reports what happened together with the time on the
//! probe's clock, and gets the next thing to do or the result. The same holds
//! for the batches: the caller runs the tasks, and asks the registry whether
//! a result may still be delivered.
//!
//! * [`dns`]: the reachability probe and the speed probe through a pinned
//!   resolver.
//! * [`docker`]: the registry blob probe; [`docker::get_manifest`] holds the
//!   manifests and the choice of the layer.
//! * [`transfer`]: the time-bounded download that both speed probes share.
//! * [`commands`]: the batches, their sessions and their cancellation.
//! * [`utils`]: turning a target into an address.
//! * [`config`]: the published lists of candidates.
//! * [`text`]: the text primitives the others are stated in.

pub mod commands;
pub mod config;
pub mod dns;
pub mod docker;
pub mod text;
pub mod transfer;
pub mod utils;
