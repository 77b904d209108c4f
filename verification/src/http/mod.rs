pub mod json;
pub mod mapping;
pub mod playbook;
pub mod startup;
