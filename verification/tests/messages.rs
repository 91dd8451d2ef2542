use smart_tags::errors::TagError;

#[test]
fn directory_read_message() {
    let e = TagError::DirectoryRead { detail: "denied".to_owned() };
    assert_eq!(e.message(), "cannot read the directory: denied");
}

#[test]
fn track_extraction_message() {
    let e = TagError::TrackExtraction { name: "cover.mp3".to_owned() };
    assert_eq!(e.message(), "no track number can be extracted from cover.mp3");
}

#[test]
fn tag_read_message() {
    let e = TagError::TagRead { path: "d/x.mp3".to_owned(), detail: "bad frame".to_owned() };
    assert_eq!(e.message(), "cannot read the tag of d/x.mp3: bad frame");
}

#[test]
fn tag_write_message() {
    let e = TagError::TagWrite { path: "d/x.m4a".to_owned(), detail: "denied".to_owned() };
    assert_eq!(e.message(), "cannot write the tag of d/x.m4a: denied");
}
