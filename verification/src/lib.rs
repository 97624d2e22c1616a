//! Printer-transport dispatch: decides, step by step, how a raw byte payload
//! reaches a printer over a TCP socket, a device node or a spooler queue, and
//! turns every outcome into a uniform response.
//!
//! The crate performs no I/O. A driver executes each [`dispatch::Action`] and
//! reports what happened as an [`dispatch::Event`].

pub mod text;
pub mod model;
pub mod message;
pub mod dispatch;
pub mod run;
pub mod enumerate;
pub mod boundary;
