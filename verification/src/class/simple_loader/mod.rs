//! Decoder for one class file, and a loader that keeps what it has decoded.

pub mod attribute_info;
pub mod class_reader;
pub mod class_writer;
pub mod constant_pool;
pub mod mutf8;
pub mod round_trip;

pub mod simple_loader;
