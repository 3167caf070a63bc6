//! Instance creation: extensions, validation layers and debug messages.
pub mod debug_callback;
pub mod extensions;
pub mod layers;
