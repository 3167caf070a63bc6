//! Crystal VK: the decision layer of an idiomatic Vulkan wrapper, with its
//! behaviour stated as contracts and proved.

pub mod acceleration;
pub mod buffer;
pub mod command;
pub mod deferred;
pub mod device;
pub mod image;
pub mod instance;
pub mod pipeline;
pub mod render;
pub mod seqs;
pub mod sync;
pub mod traits;
pub mod vkraw;
