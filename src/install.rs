//! How downloaded dependencies are installed: which extraction a file needs,
//! and the layout fixes that lift a nested `bin` directory into place.

use vstd::prelude::*;
use crate::release::Component;
use crate::text::{chars_of, contains_chars, ends_with_chars, has_infix, has_suffix, lower_of, lowercase};

verus! {

/// How an archive is unpacked.
#[derive(Clone, Copy, Debug, PartialEq, Eq, Structural)]
pub enum ArchiveKind {
    /// Read in-process.
    Zip,
    /// Handed to the external `tar` tool.
    Tar,
}

pub open spec fn archive_kind_spec(file_name: Seq<char>) -> ArchiveKind {
    if file_name.len() > 4 && has_suffix(file_name, ".zip"@) {
        ArchiveKind::Zip
    } else {
        ArchiveKind::Tar
    }
}

/// The extraction for a downloaded file: a name with the extension `zip` is a
/// zip archive, any other goes to `tar`.
pub fn archive_kind(file_name: &str) -> (r: ArchiveKind)
    ensures
        r == archive_kind_spec(file_name@),
{
    let n = chars_of(file_name);
    if n.len() > 4 && ends_with_chars(&n, &chars_of(".zip")) {
        ArchiveKind::Zip
    } else {
        ArchiveKind::Tar
    }
}

impl Component {
    pub open spec fn layout_marker_spec(self) -> Option<Seq<char>> {
        match self {
            Component::Bridge => None,
            Component::Codec => Some("ffmpeg"@),
        }
    }

    /// The name part that marks a directory whose `bin` directory is lifted
    /// after extraction: `ffmpeg` for the codec tool; the bridge needs no fix.
    pub fn layout_marker(&self) -> (r: Option<&'static str>)
        ensures
            match r {
                Some(m) => self.layout_marker_spec() == Some(m@),
                None => self.layout_marker_spec() is None,
            },
    {
        match self {
            Component::Bridge => None,
            Component::Codec => Some("ffmpeg"),
        }
    }

    /// Whether the component ships as one executable that is renamed into
    /// place (the bridge), rather than as an archive to extract.
    pub fn is_single_file(&self) -> (r: bool)
        ensures
            r == (*self == Component::Bridge),
    {
        match self {
            Component::Bridge => true,
            Component::Codec => false,
        }
    }
}

/// A top-level entry of the destination directory after extraction.
#[derive(Clone, Debug)]
pub struct ExtractedEntry {
    pub name: String,
    pub is_dir: bool,
    /// The names of the files in the entry's `bin` directory, if it has one.
    pub bin_files: Option<Vec<String>>,
}

/// One step of a layout fix.
#[derive(Clone, Debug)]
pub enum LayoutStep {
    /// Move `dir/bin/file` to the destination root, replacing a file of that name.
    MoveUp { dir: String, file: String },
    /// Remove the directory `dir` and everything left in it.
    RemoveTree { dir: String },
}

pub open spec fn move_steps(dir: String, files: Seq<String>) -> Seq<LayoutStep> {
    files.map_values(|f: String| LayoutStep::MoveUp { dir: dir, file: f })
}

/// The steps for one entry whose name reads `lower` in lower case: a
/// directory whose lower-case name holds `marker` has the files of its `bin`
/// directory moved up, then is removed.
pub open spec fn lowered_entry_steps(marker: Seq<char>, e: ExtractedEntry, lower: Seq<char>) -> Seq<LayoutStep> {
    if e.is_dir && has_infix(lower, marker) {
        match e.bin_files {
            Some(files) => move_steps(e.name, files@),
            None => Seq::<LayoutStep>::empty(),
        }.push(LayoutStep::RemoveTree { dir: e.name })
    } else {
        Seq::<LayoutStep>::empty()
    }
}

/// The steps for one entry (see `lowered_entry_steps`).
pub open spec fn entry_steps(marker: Seq<char>, e: ExtractedEntry) -> Seq<LayoutStep> {
    lowered_entry_steps(marker, e, lower_of(e.name@))
}

pub open spec fn layout_steps(marker: Seq<char>, entries: Seq<ExtractedEntry>) -> Seq<LayoutStep>
    decreases entries.len(),
{
    if entries.len() == 0 {
        Seq::<LayoutStep>::empty()
    } else {
        layout_steps(marker, entries.drop_last()) + entry_steps(marker, entries.last())
    }
}

/// The layout fix for one top-level entry whose name reads `lower` in lower
/// case: when it is a directory and `lower` holds `marker`, each file of its
/// `bin` directory is moved up into the destination, in order, and then the
/// directory is removed; any other entry needs nothing.
pub fn entry_fix(marker: &str, entry: &ExtractedEntry, lower: &str) -> (r: Vec<LayoutStep>)
    ensures
        r@ == lowered_entry_steps(marker@, *entry, lower@),
{
    let mut out: Vec<LayoutStep> = Vec::new();
    if entry.is_dir && contains_chars(&chars_of(lower), &chars_of(marker)) {
        if let Some(files) = &entry.bin_files {
            let mut j: usize = 0;
            while j < files.len()
                invariant
                    j <= files@.len(),
                    out@ == move_steps(entry.name, files@.take(j as int)),
                decreases files@.len() - j,
            {
                out.push(LayoutStep::MoveUp { dir: entry.name.clone(), file: files[j].clone() });
                assert(move_steps(entry.name, files@.take(j + 1)) =~= move_steps(entry.name, files@.take(j as int)).push(
                    LayoutStep::MoveUp { dir: entry.name, file: files@[j as int] },
                ));
                j = j + 1;
            }
            assert(files@.take(j as int) =~= files@);
        } else {
            assert(out@ =~= Seq::<LayoutStep>::empty());
        }
        out.push(LayoutStep::RemoveTree { dir: entry.name.clone() });
    }
    out
}

/// The layout fix for the top-level entries of a destination directory, in
/// their order: each directory whose lower-case name holds `marker` has the
/// files of its `bin` directory moved up into the destination, then is removed.
pub fn layout_fixes(marker: &str, entries: &Vec<ExtractedEntry>) -> (r: Vec<LayoutStep>)
    ensures
        r@ == layout_steps(marker@, entries@),
{
    let mut out: Vec<LayoutStep> = Vec::new();
    let mut i: usize = 0;
    while i < entries.len()
        invariant
            i <= entries@.len(),
            out@ == layout_steps(marker@, entries@.take(i as int)),
        decreases entries@.len() - i,
    {
        let ghost before = out@;
        let e = &entries[i];
        assert(entries@.take(i + 1).drop_last() =~= entries@.take(i as int));
        let lower = lowercase(e.name.as_str());
        let mut steps = entry_fix(marker, e, lower.as_str());
        out.append(&mut steps);
        i = i + 1;
    }
    assert(entries@.take(i as int) =~= entries@);
    out
}

} // verus!
