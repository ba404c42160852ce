//! A message-processing engine meant to sit behind an opaque handle: a queue
//! drained by one worker, a table that matches asynchronous completions to
//! their continuations, and result envelopes whose message buffer is released
//! exactly once by the receiver.

pub mod boundary;
pub mod callbacks;
pub mod logic;
pub mod network;
pub mod queue;
pub mod response;

pub use boundary::{free_response, logic_processor_free, logic_processor_new, logic_processor_process,
    logic_processor_queue};
pub use callbacks::CallbackTable;
pub use logic::{finish_process, LogicProcessor, Outbound, WorkerAction};
pub use network::{outcome_of, Network, SendPlan};
pub use queue::QueuedMessage;
pub use response::Response;
