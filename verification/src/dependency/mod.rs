pub mod http;
pub mod kafka;
pub mod localstack;
pub mod oracle;
pub mod postgres;
pub mod smtp;
pub mod tree;
