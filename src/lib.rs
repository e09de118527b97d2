//! Synthetic keyboard and pointer input for a graphical session: the decisions
//! that sit between a caller and the compositor or desktop-portal backends.

pub mod backend;
pub mod error;
pub mod input;
pub mod keyboard;
pub mod output;
pub mod session;
pub mod stream;
pub mod token;
