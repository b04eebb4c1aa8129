//! Cancellation for one in-flight track: a shared, level-triggered flag.
//! Dropping a handle is itself the cancellation signal — when the player
//! replaces its retained handle with a fresh track's, the old handle drops
//! and the old track's periodic step sees the flag and stops it.

use vstd::prelude::*;

use std::sync::atomic::{AtomicBool, Ordering};
use std::sync::Arc;

use crate::transport;

verus! {

/// Relies on core::sync::atomic::AtomicBool::store: raises the shared
/// flag; never blocks, never unwinds.
#[verifier::external_body]
fn raise_flag(flag: &AtomicBool)
    opens_invariants none
    no_unwind
{
    flag.store(true, Ordering::Relaxed);
}

/// Aborts the source this is connected to when it is dropped.
pub struct AbortHandle {
    flag: Arc<AtomicBool>,
}

impl AbortHandle {
    pub fn new() -> AbortHandle {
        AbortHandle { flag: Arc::new(AtomicBool::new(false)) }
    }

    /// Another handle to the same flag; the flag rises when either drops.
    pub fn share(&self) -> AbortHandle {
        AbortHandle { flag: transport::arc_clone(&self.flag) }
    }

    /// Whether some handle to this flag has been dropped. Once true it
    /// stays true: the flag is only ever raised.
    pub fn should_abort(&self) -> bool {
        self.flag.load(Ordering::Relaxed)
    }
}

impl Clone for AbortHandle {
    /// As `share`: both handles refer to one flag.
    fn clone(&self) -> AbortHandle {
        self.share()
    }
}

impl Drop for AbortHandle {
    fn drop(&mut self)
        opens_invariants none
        no_unwind
    {
        raise_flag(&self.flag);
    }
}

} // verus!
