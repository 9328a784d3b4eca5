//! Clipboard access and persistent storage behind one API, with a verified
//! model of the host's values and the conversions to and from them.

pub mod flate;
pub mod js_convert;
pub mod js_value;
pub mod storage;
pub mod waiter;
pub mod wrappers;
