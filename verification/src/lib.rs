pub mod access;
pub mod de;
pub mod encoding;
pub mod error;
pub mod laws;
pub mod read_laws;
pub mod route;
pub mod rules;
pub mod value;
