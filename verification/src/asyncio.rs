//! Asynchronous I/O: the decisions taken when an operation is started and
//! when NNG reports that it completed.  Each context below is a state
//! machine; its methods say what the caller must do next with the native
//! aio handle.

pub mod pull;
pub mod pull_stream;
pub mod push;
pub mod queue;
pub mod reply;
pub mod request;
pub mod simple;
