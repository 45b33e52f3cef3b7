//! A D-Bus client binding core: the translation of the native library's error
//! reports and status codes into checked values, the connection teardown
//! protocol, and a model of interface descriptors.

pub mod dispatch_status;
pub mod handler_result;
pub mod timeout;
pub mod interface;
pub mod error;
pub mod connection;
pub mod session;
