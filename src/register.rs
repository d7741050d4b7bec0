//! Register codes and names.

pub mod byte;
pub mod util;
pub mod word;
