//! Physical and logical devices and their queues.
pub mod physical_device;
pub mod queue;
