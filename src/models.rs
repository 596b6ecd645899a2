pub mod messages;
pub mod value;

pub use messages::{BaseMessage, MessageView};
pub use value::{Number, Value};
