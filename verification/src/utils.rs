//! Value types shared by the source and the encoder side: one playable item,
//! and the settings that both sides read.

use vstd::prelude::*;

verus! {

/// One playable unit of the play list.
#[derive(Debug)]
pub struct Media {
    /// Position of the item in the list that owns it.
    pub index: usize,
    /// Where the item is found; empty for a placeholder.
    pub source: String,
    /// Whether the item was scheduled before.
    pub duplicate: bool,
}

/// What a `Media` stands for.
pub struct MediaView {
    pub index: nat,
    pub source: Seq<char>,
    pub duplicate: bool,
}

impl View for Media {
    type V = MediaView;

    open spec fn view(&self) -> MediaView {
        MediaView { index: self.index as nat, source: self.source@, duplicate: self.duplicate }
    }
}

impl Media {
    /// An item with the given position, path and marker. With position 0, an
    /// empty path and no marker it is the placeholder that stands in where
    /// only filters are generated and nothing is played.
    pub fn new(index: usize, source: String, duplicate: bool) -> (media: Media)
        ensures
            media@ == (MediaView { index: index as nat, source: source@, duplicate }),
    {
        Media { index, source, duplicate }
    }
}

impl Clone for Media {
    fn clone(&self) -> (copy: Media)
        ensures
            copy@ == self@,
    {
        Media { index: self.index, source: self.source.clone(), duplicate: self.duplicate }
    }
}

/// The views of a list of strings, in order.
pub open spec fn args(list: Seq<String>) -> Seq<Seq<char>> {
    Seq::new(list.len(), |i: int| list[i]@)
}

/// Appends one argument.
pub(crate) fn push_arg(cmd: &mut Vec<String>, arg: &str)
    ensures
        args(final(cmd)@) == args(old(cmd)@).push(arg@),
{
    cmd.push(String::from_str(arg));
    assert(args(cmd@) =~= args(old(cmd)@).push(arg@));
}

/// Appends a copy of each argument of `more`, in order.
pub(crate) fn extend_args(cmd: &mut Vec<String>, more: &Vec<String>)
    ensures
        args(final(cmd)@) == args(old(cmd)@) + args(more@),
{
    let mut i: usize = 0;
    while i < more.len()
        invariant
            i <= more@.len(),
            args(cmd@) == args(old(cmd)@) + args(more@).take(i as int),
        decreases more@.len() - i,
    {
        let ghost before = cmd@;
        cmd.push(more[i].clone());
        assert(args(cmd@) =~= args(before).push(more@[i as int]@));
        assert(args(more@).take(i + 1) =~= args(more@).take(i as int).push(more@[i as int]@));
        i = i + 1;
    }
    assert(args(more@).take(i as int) =~= args(more@));
}

/// How the engine finds its media.
#[derive(Debug)]
pub struct Processing {
    /// `"folder"` or `"playlist"`.
    pub mode: String,
}

/// Where the media lie.
#[derive(Debug)]
pub struct Storage {
    /// The directory that folder mode plays and watches.
    pub path: String,
}

/// The text overlay.
#[derive(Debug)]
pub struct Text {
    /// Whether a text overlay is wanted at all.
    pub add_text: bool,
    /// Whether the overlay was already drawn before the encoder sees the frames.
    pub over_pre: bool,
    /// Where the overlay listens for new text.
    pub bind_address: String,
}

/// The encoder's output.
#[derive(Debug)]
pub struct Out {
    /// Whether a second, preview output is wanted.
    pub preview: bool,
    /// The caller's arguments for the preview output.
    pub preview_cmd: Vec<String>,
    /// The caller's arguments for the main output.
    pub output_cmd: Vec<String>,
}

/// All settings that the core reads; it never changes them.
#[derive(Debug)]
pub struct GlobalConfig {
    pub processing: Processing,
    pub storage: Storage,
    pub text: Text,
    pub out: Out,
}

/// What a `GlobalConfig` stands for.
pub struct ConfigView {
    pub mode: Seq<char>,
    pub path: Seq<char>,
    pub add_text: bool,
    pub over_pre: bool,
    pub bind_address: Seq<char>,
    pub preview: bool,
    pub preview_cmd: Seq<Seq<char>>,
    pub output_cmd: Seq<Seq<char>>,
}

impl View for GlobalConfig {
    type V = ConfigView;

    open spec fn view(&self) -> ConfigView {
        ConfigView {
            mode: self.processing.mode@,
            path: self.storage.path@,
            add_text: self.text.add_text,
            over_pre: self.text.over_pre,
            bind_address: self.text.bind_address@,
            preview: self.out.preview,
            preview_cmd: args(self.out.preview_cmd@),
            output_cmd: args(self.out.output_cmd@),
        }
    }
}

impl Clone for Processing {
    fn clone(&self) -> (copy: Processing)
        ensures
            copy.mode@ == self.mode@,
    {
        Processing { mode: self.mode.clone() }
    }
}

impl Clone for Storage {
    fn clone(&self) -> (copy: Storage)
        ensures
            copy.path@ == self.path@,
    {
        Storage { path: self.path.clone() }
    }
}

impl Clone for Text {
    fn clone(&self) -> (copy: Text)
        ensures
            copy.add_text == self.add_text,
            copy.over_pre == self.over_pre,
            copy.bind_address@ == self.bind_address@,
    {
        Text {
            add_text: self.add_text,
            over_pre: self.over_pre,
            bind_address: self.bind_address.clone(),
        }
    }
}

impl Clone for Out {
    fn clone(&self) -> (copy: Out)
        ensures
            copy.preview == self.preview,
            args(copy.preview_cmd@) == args(self.preview_cmd@),
            args(copy.output_cmd@) == args(self.output_cmd@),
    {
        let mut preview_cmd: Vec<String> = Vec::new();
        let mut output_cmd: Vec<String> = Vec::new();
        assert(args(preview_cmd@) =~= Seq::empty());
        assert(args(output_cmd@) =~= Seq::empty());
        extend_args(&mut preview_cmd, &self.preview_cmd);
        extend_args(&mut output_cmd, &self.output_cmd);
        Out { preview: self.preview, preview_cmd, output_cmd }
    }
}

impl Clone for GlobalConfig {
    /// A snapshot of the settings, as handed to a watcher.
    fn clone(&self) -> (copy: GlobalConfig)
        ensures
            copy@ == self@,
    {
        GlobalConfig {
            processing: self.processing.clone(),
            storage: self.storage.clone(),
            text: self.text.clone(),
            out: self.out.clone(),
        }
    }
}

} // verus!
