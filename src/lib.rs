//! Host side of a device search for vanity keys: the pattern that a key must
//! match, and the protocol by which a session hands rounds to the device and
//! consumes their results.
pub mod gpu;
pub mod matcher;
pub mod rounds;
