//! A minimal host for one stateful component: a bounded mailbox, an idle
//! timeout, and the decisions of the run loop that serves both.

pub mod laws;
pub mod mailbox;
pub mod run_loop;
