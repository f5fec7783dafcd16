//! Signal a process when its parent terminates, then run a target program
//! in its place.
//!
//! A process whose parent exits is re-parented and keeps running. To keep a
//! child from outliving its supervisor, the operating system can instead be
//! asked to deliver a chosen signal to the process the moment its parent
//! terminates; the process then replaces its own image with the target
//! program, which inherits that disposition. The disposition applies to the
//! process itself only, not to processes it later creates, and the kernel
//! clears it when the replacement image elevates privileges
//! (set-user-id, set-group-id, or attached capabilities); for ordinary
//! executables it survives the replacement.
//!
//! The control calls themselves are platform system calls and stand outside
//! this crate. What stands here, verified, is everything the calls are fed
//! and everything made of what they return: the argument vector with its
//! marshaling conditions ([`Argv`]), the reading of a registration's raw
//! outcome ([`registration_outcome`], [`unsupported_registration`]), and
//! the decision that orders the two calls and fixes the exit status
//! ([`after_registration`]).

mod argv;
mod flow;
mod registrar;

pub use argv::Argv;
pub use argv::ArgvError;
pub use argv::argv_well_formed;
pub use argv::lemma_nul_terminated_shape;
pub use argv::nul_free;
pub use flow::NextStep;
pub use flow::after_registration;
pub use registrar::registration_outcome;
pub use registrar::unsupported_registration;
