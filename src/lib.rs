//! A fixed-size worker pool, modelled as a verified state machine, the request
//! handling its jobs do for a small web server, and a blog-post publishing
//! workflow.
//!
//! The pool's decisions (which job goes to which worker, when a worker stops,
//! what a submission after shutdown does) live here with their contracts; the
//! threads, locks and condition variables that drive them live with the caller.

pub mod error;
pub mod queue;
pub mod pool;
pub mod trace;
pub mod post;
pub mod http;
