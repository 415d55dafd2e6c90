//! Clipboard text transfer with verified line-ending normalization.
//!
//! The crate holds the pure logic of a clipboard bridge utility: the
//! line-ending normalizer that converts between CRLF and lone-LF
//! conventions, and the model of the clipboard session discipline
//! (bounded-retry acquisition, text transfer, error reporting).

pub mod clip;
pub mod norm;
