//! The core of an HTTP proxy session: which side to read, which side to
//! write, when to connect, when to answer by itself and when to close.

pub mod address;
pub mod back_read;
pub mod back_write;
pub mod buffer;
pub mod elapsed;
pub mod forward;
pub mod frame;
pub mod front_read;
pub mod front_write;
pub mod hex;
pub mod laws;
pub mod laws_back;
pub mod laws_front;
pub mod laws_report;
pub mod laws_session;
pub mod outcome;
pub mod readiness;
pub mod report;
pub mod request_id;
pub mod session;
pub mod state;
pub mod text;
