//! The messages that the parts of the program exchange over their channel.

use vstd::prelude::*;
use crate::error::TransferError;
use crate::types::{Anime, Episode};

verus! {

/// The number of messages that the channel holds before a sender has to
/// wait: a slow reader holds the senders back, and nothing is dropped.
pub const CHANNEL_CAPACITY: usize = 50;

/// Lifecycle and progress of the active transfer.
#[derive(Debug, Clone, Copy, PartialEq, Eq, Structural)]
pub enum DownloadMessage {
    /// Bytes on disk so far, and the expected size of the whole file; where
    /// the size is unknown, the second number repeats the first.
    Progress(u64, u64),
    /// The body was consumed to its end.
    Finished,
    /// The response arrived; no byte has been written yet.
    Starting,
    /// The transfer was aborted; the partial file stays in place.
    Failed(TransferError),
}

/// A line for the notification area.
#[derive(Debug, PartialEq, Eq)]
pub enum Notice {
    /// The server did not say how large the file is.
    UnknownSize,
    /// A transfer is starting.
    Starting,
    /// A transfer has finished.
    Finished,
    /// A transfer has failed.
    Failed(TransferError),
    /// A collection was selected.
    Selected(Anime),
}

impl Clone for Notice {
    fn clone(&self) -> (r: Self)
        ensures
            r == *self,
    {
        match self {
            Notice::UnknownSize => Notice::UnknownSize,
            Notice::Starting => Notice::Starting,
            Notice::Finished => Notice::Finished,
            Notice::Failed(e) => Notice::Failed(*e),
            Notice::Selected(anime) => Notice::Selected(anime.clone()),
        }
    }
}

/// A key of the keyboard.
#[derive(Debug, Clone, Copy, PartialEq, Eq, Structural)]
pub enum Key {
    Backspace,
    Enter,
    Left,
    Right,
    Up,
    Down,
    Home,
    End,
    PageUp,
    PageDown,
    Tab,
    BackTab,
    Delete,
    Insert,
    F(u8),
    Char(char),
    Null,
    Esc,
}

/// Everything that can arrive on the program's channel.
#[derive(Debug, PartialEq, Eq)]
pub enum Message {
    KeyboardInput(Key),
    AnimeSelected(Anime),
    EpisodeSelected(Episode),
    Download(DownloadMessage),
    Notification(Notice),
}

impl Clone for Message {
    fn clone(&self) -> (r: Self)
        ensures
            r == *self,
    {
        match self {
            Message::KeyboardInput(key) => Message::KeyboardInput(*key),
            Message::AnimeSelected(anime) => Message::AnimeSelected(anime.clone()),
            Message::EpisodeSelected(episode) => Message::EpisodeSelected(episode.clone()),
            Message::Download(msg) => Message::Download(*msg),
            Message::Notification(notice) => Message::Notification(notice.clone()),
        }
    }
}

} // verus!
