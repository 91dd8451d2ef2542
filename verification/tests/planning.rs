use smart_tags::errors::TagError;
use smart_tags::handle::TagFormat;
use smart_tags::plan::{build_plan, FileEntry};

fn entry(path: &str, name: &str, ext: Option<&str>) -> FileEntry {
    FileEntry {
        path: path.to_owned(),
        name: name.to_owned(),
        ext: ext.map(|e| e.to_owned()),
    }
}

#[test]
fn plans_supported_files_in_order() {
    let files = vec![
        entry("d/2-intro.mp3", "2-intro.mp3", Some("mp3")),
        entry("d/notes.txt", "notes.txt", Some("txt")),
        entry("d/10-outro.m4a", "10-outro.m4a", Some("m4a")),
        entry("d/README", "README", None),
    ];
    let plan = build_plan(&files).unwrap();
    assert_eq!(plan.entries.len(), 2);
    assert_eq!(plan.entries[0].path, "d/2-intro.mp3");
    assert_eq!(plan.entries[0].name, "2-intro.mp3");
    assert_eq!(plan.entries[0].format, TagFormat::Mp3);
    assert_eq!(plan.entries[0].track, 2);
    assert_eq!(plan.entries[1].path, "d/10-outro.m4a");
    assert_eq!(plan.entries[1].format, TagFormat::M4a);
    assert_eq!(plan.entries[1].track, 10);
}

#[test]
fn aborts_on_first_undigited_name() {
    let files = vec![
        entry("d/cover.mp3", "cover.mp3", Some("mp3")),
        entry("d/2-intro.mp3", "2-intro.mp3", Some("mp3")),
    ];
    let r = build_plan(&files);
    assert_eq!(
        r.unwrap_err(),
        TagError::TrackExtraction { name: "cover.mp3".to_owned() }
    );
}

#[test]
fn unsupported_files_cannot_abort_the_plan() {
    // The digit-less name is not an audio file, so the plan ignores it.
    let files = vec![
        entry("d/cover.txt", "cover.txt", Some("txt")),
        entry("d/2-intro.mp3", "2-intro.mp3", Some("mp3")),
    ];
    let plan = build_plan(&files).unwrap();
    assert_eq!(plan.entries.len(), 1);
    assert_eq!(plan.entries[0].track, 2);
}

#[test]
fn extension_digits_never_count() {
    // The only digit in "cover.mp3" sits in the extension; the plan reads
    // the stem, so the run still aborts.
    let files = vec![entry("d/cover.mp3", "cover.mp3", Some("mp3"))];
    assert_eq!(
        build_plan(&files).unwrap_err(),
        TagError::TrackExtraction { name: "cover.mp3".to_owned() }
    );
}

#[test]
fn duplicate_track_numbers_are_kept() {
    let files = vec![
        entry("d/1-a.mp3", "1-a.mp3", Some("mp3")),
        entry("d/1-b.mp3", "1-b.mp3", Some("mp3")),
    ];
    let plan = build_plan(&files).unwrap();
    assert_eq!(plan.entries.len(), 2);
    assert_eq!(plan.entries[0].track, 1);
    assert_eq!(plan.entries[1].track, 1);
}

#[test]
fn empty_directory_gives_empty_plan() {
    let files: Vec<FileEntry> = Vec::new();
    let plan = build_plan(&files).unwrap();
    assert_eq!(plan.entries.len(), 0);
}

#[test]
fn extension_dispatch() {
    assert_eq!(TagFormat::from_extension("mp3"), Some(TagFormat::Mp3));
    assert_eq!(TagFormat::from_extension("m4a"), Some(TagFormat::M4a));
    assert_eq!(TagFormat::from_extension("aac"), None);
    assert_eq!(TagFormat::from_extension("MP3"), None);
    assert_eq!(TagFormat::from_extension(""), None);
}
