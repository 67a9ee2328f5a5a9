pub mod connect;
pub mod driver;
pub mod errors;
pub mod operations;
pub mod retry;
pub mod registry;
pub mod text;
pub mod wrapper;
