pub mod command;
pub mod kaisanee;
pub mod message;
pub mod number;
pub mod reminder;
pub mod time;
pub mod zone;
