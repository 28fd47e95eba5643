//! A minimal concurrent TCP responder: every connection is answered with one
//! fixed HTTP response, and connections are dispatched either to a thread of
//! their own or to a worker pool of fixed size.

pub mod acceptor;
pub mod dispatch;
pub mod handler;
pub mod pool;
pub mod response;
