pub mod data_access;
pub mod tags;
