//! Stored playlists as the engine sees them: a name and, in the layers
//! above, a list of paths. Reading playlist files from disk belongs to
//! the daemon around the engine.

use vstd::prelude::*;

verus! {

/// A stored playlist's name: the file name it was loaded from.
#[derive(Debug, Clone, PartialEq, Eq, Hash, Default)]
pub struct PlaylistName(pub String);

} // verus!
