use pulsar::install::{archive_kind, entry_fix, layout_fixes, ArchiveKind, ExtractedEntry, LayoutStep};
use pulsar::release::Component;

fn dir(name: &str, bin: Option<Vec<&str>>) -> ExtractedEntry {
    ExtractedEntry {
        name: name.to_string(),
        is_dir: true,
        bin_files: bin.map(|v| v.into_iter().map(|s| s.to_string()).collect()),
    }
}

#[test]
fn nested_bin_is_lifted_and_removed() {
    let entries = vec![dir("toolname-1.2", Some(vec!["a", "b"]))];
    let steps = layout_fixes("toolname", &entries);
    assert_eq!(steps.len(), 3);
    assert!(matches!(&steps[0], LayoutStep::MoveUp { dir, file } if dir == "toolname-1.2" && file == "a"));
    assert!(matches!(&steps[1], LayoutStep::MoveUp { dir, file } if dir == "toolname-1.2" && file == "b"));
    assert!(matches!(&steps[2], LayoutStep::RemoveTree { dir } if dir == "toolname-1.2"));
}

#[test]
fn marker_matches_in_lower_case() {
    let entries = vec![
        ExtractedEntry { name: "ffmpeg.exe".to_string(), is_dir: false, bin_files: None },
        dir("docs", Some(vec!["x"])),
        dir("FFmpeg-N-1-win64-gpl", None),
    ];
    let steps = layout_fixes("ffmpeg", &entries);
    assert_eq!(steps.len(), 1);
    assert!(matches!(&steps[0], LayoutStep::RemoveTree { dir } if dir == "FFmpeg-N-1-win64-gpl"));
}

#[test]
fn empty_listing_needs_no_fix() {
    assert!(layout_fixes("ffmpeg", &Vec::new()).is_empty());
}

#[test]
fn archive_kinds() {
    assert_eq!(archive_kind("temp.zip"), ArchiveKind::Zip);
    assert_eq!(archive_kind("temp.tar.xz"), ArchiveKind::Tar);
    assert_eq!(archive_kind("update.tar.gz"), ArchiveKind::Tar);
    assert_eq!(archive_kind(".zip"), ArchiveKind::Tar);
}

#[test]
fn single_file_components() {
    assert!(Component::Bridge.is_single_file());
    assert!(!Component::Codec.is_single_file());
}

#[test]
fn lowered_entry_with_marker_is_lifted() {
    let e = dir("FFmpeg-1.2", Some(vec!["a", "b"]));
    let steps = entry_fix("ffmpeg", &e, "ffmpeg-1.2");
    assert_eq!(steps.len(), 3);
    assert!(matches!(&steps[0], LayoutStep::MoveUp { dir, file } if dir == "FFmpeg-1.2" && file == "a"));
    assert!(matches!(&steps[1], LayoutStep::MoveUp { dir, file } if dir == "FFmpeg-1.2" && file == "b"));
    assert!(matches!(&steps[2], LayoutStep::RemoveTree { dir } if dir == "FFmpeg-1.2"));
}

#[test]
fn lowered_entry_without_marker_is_left() {
    let e = dir("docs", Some(vec!["a"]));
    assert!(entry_fix("ffmpeg", &e, "docs").is_empty());
    let f = ExtractedEntry { name: "ffmpeg-notes".to_string(), is_dir: false, bin_files: None };
    assert!(entry_fix("ffmpeg", &f, "ffmpeg-notes").is_empty());
}

#[test]
fn directory_without_bin_is_still_removed() {
    let e = dir("ffmpeg-1.2", None);
    let steps = entry_fix("ffmpeg", &e, "ffmpeg-1.2");
    assert_eq!(steps.len(), 1);
    assert!(matches!(&steps[0], LayoutStep::RemoveTree { dir } if dir == "ffmpeg-1.2"));
}

#[test]
fn layout_markers() {
    assert_eq!(Component::Codec.layout_marker(), Some("ffmpeg"));
    assert_eq!(Component::Bridge.layout_marker(), None);
}
