//! The decision logic of the Winvestour desktop shell: which product a build
//! is, which address and user agent its window opens with, how its windows are
//! laid out, and when the hidden main window is revealed.

pub mod text;
pub mod brand;
pub mod launch;
pub mod latch;
pub mod window_state;
