//! Comment annotations in script files, and the command model they describe.

pub mod builder;
pub mod dispatch;
pub mod model;
pub mod parse;
pub mod text;
pub mod transform;
pub mod utils;
