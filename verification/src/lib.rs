//! Verified core of the voucher saver: cookie parsing, decimal numbers,
//! clock arithmetic, response scanning and the request retry rules.

pub mod cookie;
pub mod decimal;
pub mod json;
pub mod request;
pub mod clock;
pub mod session;
pub mod text;
pub mod voucher;
