//! Core logic of an interactive terminal chat front-end: the mode state
//! machine, a cursor-addressed Unicode input buffer, the conversation log,
//! and the event dispatch that ties them together.

pub mod app;
pub mod chat;
pub mod input;
pub mod mode;

pub use app::App;
pub use app::Command;
pub use app::Key;
pub use chat::MessageSender;
pub use input::Input;
pub use mode::AppMode;
