//! Verified core of an actor runtime: message envelopes, change records,
//! actor identities and the decision logic of mailboxes, handlers,
//! subscriber sets, reference-counted processes and the system registry.

pub mod aid;
pub mod builder;
pub mod change;
pub mod executor;
pub mod fanout;
pub mod mailbox;
pub mod manager;
pub mod process;
pub mod receiver;
pub mod run;
pub mod sender;
pub mod system;
pub mod table;
pub mod text;
pub mod uuid_text;

pub use aid::{Aid, AidKey};
pub use builder::ActorBuilder;
pub use change::{Change, ChangeDB, ChangeUpdater, Changed};
pub use executor::ExecutorState;
pub use fanout::{FanoutHandler, FanoutMessage};
pub use manager::ActorManager;
pub use process::ProcessCounts;
pub use receiver::{ReceiverState, SingleReceiverState};
pub use run::{RunHandler, RunHandlerError};
pub use system::{ActorSystemConfig, AidError, Callback, Message, Status, SystemMsg};
pub use table::AidTable;
