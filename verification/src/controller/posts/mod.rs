pub mod delete;
