//! Interface definitions of the GSP firmware releases.
pub mod r570_133_07;
