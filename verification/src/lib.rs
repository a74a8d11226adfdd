pub mod errors;
pub mod gesture;
pub mod session;
