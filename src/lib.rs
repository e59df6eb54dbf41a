//! A minimal in-process actor runtime: lifecycle states, the clonable handle
//! that enqueues messages, the per-actor dispatch state machine and the
//! driver that registers actors.
pub mod dispatch;
pub mod driver;
pub mod handle;
pub mod lifecycle;
pub mod result;
pub mod utils;

pub use dispatch::{Dispatcher, LoopEvent, LoopModel, Phase};
pub use driver::TokioActorDriver;
pub use handle::ActorRef;
pub use lifecycle::ActorState;
pub use result::{ActorErr, ActorOk, ActorResult};
pub use utils::SnowflakeProducer;
