pub mod message_error;
pub mod message_type;
pub mod one_time;

pub use message_error::MessageError;
pub use message_type::{MessageType, MessageTypeError};
pub use one_time::OneTime;
