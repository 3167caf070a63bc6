pub mod command_buffer_builder;
