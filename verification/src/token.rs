//! A shared cancellation token.

use std::sync::atomic::AtomicBool;
use std::sync::atomic::Ordering;
use std::sync::Arc;

use vstd::prelude::*;

verus! {

/// A flag shared between clones, set once to signal shutdown.
#[derive(Clone)]
pub struct Token {
    data: Arc<AtomicBool>,
}

impl Token {
    /// Create a new token, not set.
    pub fn new() -> Self {
        Self { data: Arc::new(AtomicBool::new(false)) }
    }

    /// Test if the token is set. Other clones of the token may set it at any
    /// time, so nothing is known of the result.
    pub fn is_set(&self) -> bool {
        self.data.load(Ordering::Acquire)
    }

    /// Set the token.
    pub fn set(&self) {
        self.data.store(true, Ordering::Release);
    }
}

} // verus!
