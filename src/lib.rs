pub mod channel;
pub mod counter;
pub mod errors;
pub mod gfx;
pub mod handler;
pub mod ids;
pub mod once;
pub mod pipe;
pub mod resource;
pub mod set_get;
pub mod settings;
pub mod tasks;
pub mod watches;
