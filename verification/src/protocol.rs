//! The value types of the daemon's control plane: what the wire-protocol
//! layer hands the engine and reports back. The wire encoding itself
//! lives with the protocol layer; here stand the plain values and the
//! few rules they carry, such as the volume range.

use vstd::prelude::*;

verus! {

/// The event classes a client can wait on.
#[derive(Debug, Clone, Copy, PartialEq, Eq, Hash, Structural)]
pub enum SubSystem {
    /// the song database has been modified after update
    Database,
    /// a database update has started or finished
    Update,
    /// a stored playlist has been modified, renamed, created or deleted
    StoredPlaylist,
    /// the queue (i.e. the current playlist) has been modified
    Playlist,
    /// the player has been started, stopped or seeked
    Player,
    /// the volume has been changed
    Mixer,
    /// an audio output has been added, removed or modified
    Output,
    /// options like repeat, random, crossfade, replay gain
    Options,
    /// a partition was added, removed or changed
    Partition,
    /// the sticker database has been modified
    Sticker,
    /// a client has subscribed or unsubscribed to a channel
    Subscription,
    /// a message was received on a channel this client is subscribed to
    Message,
    /// a neighbor was found or lost
    Neighbor,
    /// the mount list has changed
    Mount,
}

/// The one-line notification sent to an idling client when a subsystem
/// changed, ready to write to the wire.
pub open spec fn spec_subsystem_line(s: SubSystem) -> Seq<char> {
    match s {
        SubSystem::Database => "changed: database\nOK\n"@,
        SubSystem::Update => "changed: update\nOK\n"@,
        SubSystem::StoredPlaylist => "changed: stored_playlist\nOK\n"@,
        SubSystem::Playlist => "changed: playlist\nOK\n"@,
        SubSystem::Player => "changed: player\nOK\n"@,
        SubSystem::Mixer => "changed: mixer\nOK\n"@,
        SubSystem::Output => "changed: output\nOK\n"@,
        SubSystem::Options => "changed: options\nOK\n"@,
        SubSystem::Partition => "changed: partition\nOK\n"@,
        SubSystem::Sticker => "changed: sticker\nOK\n"@,
        SubSystem::Subscription => "changed: subscription\nOK\n"@,
        SubSystem::Message => "changed: message\nOK\n"@,
        SubSystem::Neighbor => "changed: neighbor\nOK\n"@,
        SubSystem::Mount => "changed: mount\nOK\n"@,
    }
}

/// Formats the changed-subsystem notification for an idling client.
pub fn subsystem(s: SubSystem) -> (r: String)
    ensures
        r@ == spec_subsystem_line(s),
{
    let line: &str = match s {
        SubSystem::Database => "changed: database\nOK\n",
        SubSystem::Update => "changed: update\nOK\n",
        SubSystem::StoredPlaylist => "changed: stored_playlist\nOK\n",
        SubSystem::Playlist => "changed: playlist\nOK\n",
        SubSystem::Player => "changed: player\nOK\n",
        SubSystem::Mixer => "changed: mixer\nOK\n",
        SubSystem::Output => "changed: output\nOK\n",
        SubSystem::Options => "changed: options\nOK\n",
        SubSystem::Partition => "changed: partition\nOK\n",
        SubSystem::Sticker => "changed: sticker\nOK\n",
        SubSystem::Subscription => "changed: subscription\nOK\n",
        SubSystem::Message => "changed: message\nOK\n",
        SubSystem::Neighbor => "changed: neighbor\nOK\n",
        SubSystem::Mount => "changed: mount\nOK\n",
    };
    line.to_owned()
}

/// The tags a song can carry.
#[derive(Debug, Clone, Copy, PartialEq, Eq, Hash, Structural)]
pub enum Tag {
    Artist,
    ArtistSort,
    Album,
    AlbumSort,
    AlbumArtist,
    AlbumArtistSort,
    Title,
    TitleSort,
    Track,
    Name,
    Genre,
    Mood,
    Date,
    OriginalDate,
    Composer,
    ComposerSort,
    Performer,
    Conductor,
    Work,
    Ensemble,
    Movement,
    MovementNumber,
    ShowMovement,
    Location,
    Grouping,
    Comment,
    Disc,
    Label,
    MusicbrainzArtistId,
    MusicbrainzAlbumId,
    MusicbrainzAlbumArtistId,
    MusicbrainzTrackId,
    MusicbrainzReleasegroupId,
    MusicbrainzReleaseTrackId,
    MusicbrainzWorkId,
}

impl Default for Tag {
    fn default() -> (r: Tag)
        ensures
            r == Tag::Artist,
    {
        Tag::Artist
    }
}

#[derive(Debug, Clone, Copy, PartialEq, Eq, Structural)]
pub struct PlaylistId(pub u32);

/// A relative volume adjustment in percent points.
#[derive(Debug, Clone, Copy, PartialEq, Eq, Structural)]
pub struct VolumeChange(pub i8);

/// A volume in percent: always between 0 and 100.
#[derive(Debug, Clone, Copy, PartialEq, Eq, Structural)]
pub struct Volume(u8);

impl Volume {
    #[verifier::type_invariant]
    spec fn in_range(self) -> bool {
        self.0 <= 100
    }

    pub closed spec fn spec_get(self) -> u8 {
        self.0
    }

    /// Builds a volume; values over 100 are out of the protocol's range.
    pub fn new(val: u8) -> (r: Volume)
        requires
            val <= 100,
        ensures
            r.spec_get() == val,
    {
        Volume(val)
    }

    pub fn get(&self) -> (r: u8)
        ensures
            r == self.spec_get(),
            r <= 100,
    {
        proof {
            use_type_invariant(self);
        }
        self.0
    }
}

#[derive(Debug, Clone, Copy, PartialEq, Eq, Structural)]
pub struct SongId(pub u32);

#[derive(Debug, Clone, Copy, PartialEq, Eq, Structural)]
pub struct SongNumber(pub u32);

#[derive(Debug, Clone, Copy, PartialEq, Eq, Structural)]
pub struct PosInPlaylist(pub u32);

#[derive(Debug, Clone, Copy, PartialEq, Eq, Structural)]
pub enum PlaybackState {
    Play,
    Pause,
    Stop,
}

impl Default for PlaybackState {
    fn default() -> (r: PlaybackState)
        ensures
            r == PlaybackState::Stop,
    {
        PlaybackState::Stop
    }
}

#[derive(Debug, Clone, Copy, PartialEq, Eq, Structural)]
pub enum ReplayGainMode {
    Off,
    Track,
    Album,
    Auto,
}

impl Default for ReplayGainMode {
    fn default() -> (r: ReplayGainMode)
        ensures
            r == ReplayGainMode::Off,
    {
        ReplayGainMode::Off
    }
}

#[derive(Debug, Clone, Copy, PartialEq, Eq, Structural)]
pub enum ConsumeState {
    Off,
    On,
    Oneshot,
}

impl Default for ConsumeState {
    fn default() -> (r: ConsumeState)
        ensures
            r == ConsumeState::Off,
    {
        ConsumeState::Off
    }
}

/// A place in the play queue: absolute, or relative to the current song.
#[derive(Debug, Clone, Copy, PartialEq, Eq, Structural)]
pub enum Position {
    Absolute(u32),
    Relative(i32),
}

impl Default for Position {
    fn default() -> (r: Position)
        ensures
            r == Position::Absolute(0u32),
    {
        Position::Absolute(0)
    }
}

/// A span of queue positions; an open end runs to the end of the queue.
#[derive(Debug, Clone, Copy, PartialEq, Eq, Structural)]
pub struct Range {
    pub start: u32,
    pub end: Option<u32>,
}

impl Default for Range {
    fn default() -> (r: Range)
        ensures
            r == (Range { start: 0u32, end: Option::<u32>::None }),
    {
        Range { start: 0, end: None }
    }
}

#[derive(Debug, Clone, Copy, PartialEq, Eq, Structural)]
pub enum PosOrRange {
    Position(Position),
    Range(Range),
}

impl Default for PosOrRange {
    fn default() -> (r: PosOrRange)
        ensures
            r == PosOrRange::Range(Range { start: 0u32, end: Option::<u32>::None }),
    {
        PosOrRange::Range(Range { start: 0, end: None })
    }
}

#[derive(Debug, Clone, Copy, PartialEq, Eq, Structural)]
pub enum PlaylistSaveMode {
    Create,
    Append,
    Replace,
}

impl Default for PlaylistSaveMode {
    fn default() -> (r: PlaylistSaveMode)
        ensures
            r == PlaylistSaveMode::Create,
    {
        PlaylistSaveMode::Create
    }
}

#[derive(Debug, Clone, Copy, PartialEq, Eq, Structural)]
pub enum SortType {
    Tag(Tag),
    Mtime,
    Prio,
}

/// How a result list is ordered.
#[derive(Debug, Clone, Copy, PartialEq, Eq, Structural)]
pub struct Sort {
    pub reverse: bool,
    pub kind: SortType,
}

/// A client-to-client message channel's name.
#[derive(Debug, Clone, PartialEq, Eq, Hash, Default)]
pub struct ChannelName(pub String);

/// How a sticker value is compared in a sticker search.
#[derive(Debug, Clone, Copy, PartialEq, Eq, Structural)]
pub enum Operator {
    Equal,
    LessThan,
    GreaterThan,
    Eq,
    Lt,
    Gt,
    StartsWith,
    Contains,
}

impl Default for Operator {
    fn default() -> (r: Operator)
        ensures
            r == Operator::Equal,
    {
        Operator::Equal
    }
}

/// Per-connection protocol state: which tag types the client asked for.
pub struct ClientState {
    pub tag_types: Vec<Tag>,
}

impl ClientState {
    /// A fresh connection reports every tag.
    pub fn new(all_tags: Vec<Tag>) -> (r: ClientState)
        ensures
            r.tag_types@ == all_tags@,
    {
        ClientState { tag_types: all_tags }
    }
}

} // verus!
