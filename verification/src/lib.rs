//! USB control-request and descriptor logic, port-I/O cursor bookkeeping and
//! page geometry of a small hobby kernel, with their contracts proved by Verus.
pub mod memory;
pub mod portio;
pub mod requests;
