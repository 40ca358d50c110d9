pub mod action_message;
pub mod action_type;
pub mod home_assistant;
pub mod publish_state;
