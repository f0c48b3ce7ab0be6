//! Fund discovery against an upstream whose only primitive is
//! "consume `amount` if available".
//!
//! [`wire`] classifies single replies, [`probe`] is the retry loop of one
//! worker, [`extract`] the fan-out of workers over one denomination and
//! [`discover`] the walk down the denominations. [`upstream`] is a model of
//! the other side, to state what the loop achieves against it.

pub mod discover;
pub mod extract;
pub mod probe;
pub mod upstream;
pub mod wire;
