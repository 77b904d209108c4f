pub mod containerized;
pub mod executable;
pub mod tree;
