//! Discord's REST objects and the requests that read and change them.
pub mod snowflake;
pub mod request;
pub mod user;
pub mod emoji;
pub mod guild;
pub mod message;
