//! Node-local state machine of a PBFT consensus engine: message kinds, the
//! working block, the liveness timeout, and the phase / mode / role state of a
//! node together with its static membership.

pub mod block;
pub mod bytes;
pub mod error;
pub mod membership;
pub mod message_type;
pub mod state;
pub mod text;
pub mod timing;

pub use block::{PbftBlock, WorkingBlockOption};
pub use error::PbftError;
pub use membership::Membership;
pub use message_type::PbftMessageType;
pub use state::{PbftConfig, PbftMode, PbftNodeRole, PbftPhase, PbftState};
pub use timing::{Timeout, TimeoutState};
