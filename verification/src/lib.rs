pub mod body;
pub mod error;
pub mod header;
pub mod method;
pub mod request;
pub mod text;
