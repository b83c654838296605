//! The verified core of an actor runtime: a typed work item that carries a
//! message and its reply slot, the send protocol of an address, and the
//! decisions of the dispatch loop that runs one handler at a time.

mod channel;
pub mod addr;
pub mod context;
pub mod dispatch;
pub mod task;
