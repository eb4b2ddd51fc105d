//! The media source: which one the settings select, and how it reads the
//! shared play list.
//!
//! The list and its cursor are shared with a watcher that may change the list
//! between two reads. A source therefore works on a snapshot: it is handed
//! the list as it is now and the cursor as it was left, picks a position
//! inside the list whatever the cursor says, and reports where the cursor
//! goes next.

use vstd::prelude::*;
use crate::utils::{ConfigView, GlobalConfig, Media};

verus! {

/// A source of an unending sequence of items, chosen once at startup.
#[derive(Debug)]
pub enum MediaSource {
    /// Plays the files of a directory, which a watcher keeps in step with
    /// the file system.
    Folder { path: String },
    /// Plays a programmed rotation.
    Playlist,
}

/// What a `MediaSource` stands for.
pub enum SourceView {
    Folder { path: Seq<char> },
    Playlist,
}

impl View for MediaSource {
    type V = SourceView;

    open spec fn view(&self) -> SourceView {
        match self {
            MediaSource::Folder { path } => SourceView::Folder { path: path@ },
            MediaSource::Playlist => SourceView::Playlist,
        }
    }
}

/// Why no source could be built.
#[derive(Debug)]
pub enum SourceError {
    /// The settings name a mode that does not exist.
    UnknownMode { mode: String },
}

/// Whether `mode` names one of the two sources.
pub open spec fn valid_mode(mode: Seq<char>) -> bool {
    mode == "folder"@ || mode == "playlist"@
}

/// The source that the settings select, or the mode that selects none.
pub open spec fn selected_source(config: ConfigView) -> Result<SourceView, Seq<char>> {
    if config.mode == "folder"@ {
        Ok(SourceView::Folder { path: config.path })
    } else if config.mode == "playlist"@ {
        Ok(SourceView::Playlist)
    } else {
        Err(config.mode)
    }
}

/// The position that a read uses in a list of `len > 0` items when the cursor
/// stands at `index`: the cursor where it points into the list, the first
/// item where the list has shrunk below it or the last round is over.
pub open spec fn read_position(len: nat, index: nat) -> nat {
    if index < len {
        index
    } else {
        0
    }
}

/// What one request for the next item comes to.
#[derive(Debug)]
pub enum Step {
    /// The item to play, and where the cursor goes.
    Yield { media: Media, next_index: usize },
    /// The list is empty for now and the watcher will fill it: ask again.
    Wait,
    /// Termination was requested: the sequence ends here.
    Stop,
    /// The list is empty and nothing will fill it.
    Fail,
}

impl SourceError {
    /// The status with which the process ends on this error.
    pub fn exit_code(&self) -> (code: i32)
        ensures
            code == 1,
    {
        1
    }
}

/// Creates the source that `processing.mode` selects: the folder source for
/// `"folder"`, bound to `storage.path`, the playlist program for
/// `"playlist"`. Any other mode is an error that carries the mode.
pub fn source_generator(config: &GlobalConfig) -> (source: Result<MediaSource, SourceError>)
    ensures
        source.is_ok() == valid_mode(config@.mode),
        match source {
            Ok(built) => selected_source(config@) == Ok::<SourceView, Seq<char>>(built@),
            Err(SourceError::UnknownMode { mode }) => selected_source(config@) == Err::<
                SourceView,
                Seq<char>,
            >(mode@),
        },
{
    if config.processing.mode == String::from_str("folder") {
        Ok(MediaSource::Folder { path: config.storage.path.clone() })
    } else if config.processing.mode == String::from_str("playlist") {
        Ok(MediaSource::Playlist)
    } else {
        Err(SourceError::UnknownMode { mode: config.processing.mode.clone() })
    }
}

/// The position at which a list of `len` items is read with the cursor at
/// `index`; none in an empty list.
pub fn position(len: usize, index: usize) -> (at: Option<usize>)
    ensures
        at.is_some() == (len > 0),
        at matches Some(p) ==> p < len && p == read_position(len as nat, index as nat),
{
    if len == 0 {
        None
    } else if index < len {
        Some(index)
    } else {
        Some(0)
    }
}

impl MediaSource {
    /// Whether this source needs a watcher running beside it.
    pub fn starts_watcher(&self) -> (wanted: bool)
        ensures
            wanted == (self@ is Folder),
    {
        match self {
            MediaSource::Folder { .. } => true,
            MediaSource::Playlist => false,
        }
    }

    /// Produces the next item from a snapshot of the shared state.
    ///
    /// The playlist program ends when termination was requested. On an empty
    /// list the folder source waits for its watcher and the playlist program
    /// fails. Otherwise the item at `read_position` is handed out, a position
    /// inside the list for every cursor, and the cursor moves behind it.
    pub fn next(&self, current_list: &Vec<Media>, index: usize, is_terminated: bool) -> (step: Step)
        ensures
            step is Yield <==> current_list@.len() > 0 && !(self@ is Playlist && is_terminated),
            match step {
                Step::Stop => self@ is Playlist && is_terminated,
                Step::Wait => self@ is Folder && current_list@.len() == 0,
                Step::Fail => self@ is Playlist && !is_terminated && current_list@.len() == 0,
                Step::Yield { media, next_index } => {
                    let at = read_position(current_list@.len(), index as nat);
                    &&& !(self@ is Playlist && is_terminated)
                    &&& at < current_list@.len()
                    &&& media@ == current_list@[at as int]@
                    &&& next_index == at + 1
                },
            },
    {
        let folder = self.starts_watcher();
        if !folder && is_terminated {
            return Step::Stop;
        }
        match position(current_list.len(), index) {
            None => if folder {
                Step::Wait
            } else {
                Step::Fail
            },
            Some(at) => Step::Yield { media: current_list[at].clone(), next_index: at + 1 },
        }
    }
}

/// The mode decides alone: exactly the two known modes select a source, the
/// folder source exactly for `"folder"`, and with it the directory to watch.
pub proof fn lemma_mode_selects(config: ConfigView)
    ensures
        selected_source(config).is_ok() <==> valid_mode(config.mode),
        selected_source(config) == Ok::<SourceView, Seq<char>>(
            SourceView::Folder { path: config.path },
        ) <==> config.mode == "folder"@,
        selected_source(config) == Ok::<SourceView, Seq<char>>(SourceView::Playlist)
            <==> config.mode == "playlist"@,
        !valid_mode(config.mode) ==> selected_source(config) == Err::<SourceView, Seq<char>>(
            config.mode,
        ),
{
    reveal_strlit("folder");
    reveal_strlit("playlist");
    assert("folder"@.len() != "playlist"@.len());
}

/// No read leaves the list: for every cursor, also one that a shrinking list
/// left behind, the position read lies inside a list that is not empty, and
/// the cursor that follows is at most the list's length.
pub proof fn lemma_read_in_bounds(len: nat, index: nat)
    requires
        len > 0,
    ensures
        0 <= read_position(len, index) < len,
        read_position(len, index) + 1 <= len,
        index < len ==> read_position(len, index) == index,
{
}

} // verus!
