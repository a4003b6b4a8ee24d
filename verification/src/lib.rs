//! Byte-sink adapters: a uniform "write bytes to a destination" layer over
//! USB bulk endpoints and anything that implements the standard write
//! capability (files, in-memory buffers). Each adapter forwards whole byte
//! buffers to its underlying transport and reports success or a typed error;
//! a successful write always covers the entire buffer.

pub mod device;
pub mod usb;
