//! Actors of the message-passing runtime: their state, without the runtime.
pub mod ctrl_logic;
pub mod database;
pub mod input_controller;
pub mod output_controller;

pub use ctrl_logic::CtrlLogic;
pub use input_controller::InputController;
pub use output_controller::OutputController;
