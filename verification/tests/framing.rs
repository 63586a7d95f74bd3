use ghostlayer::protocol::framing::{create_frame, parse_frame, FrameKind};

#[test]
fn frame_is_written_with_prefix_kind_and_version() {
    assert_eq!(create_frame(FrameKind::Invite, "1", "abc"), "ghl:inv:1:abc");
    assert_eq!(create_frame(FrameKind::Message, "1", "xyz"), "ghl:msg:1:xyz");
}

#[test]
fn frame_reads_back_with_colons_in_payload() {
    let text = create_frame(FrameKind::Message, "7", "a:b:c");
    let frame = parse_frame(&text).unwrap();
    assert_eq!(frame.kind, FrameKind::Message);
    assert_eq!(frame.version, "7");
    assert_eq!(frame.payload, "a:b:c");
}

#[test]
fn frame_with_unicode_payload_reads_back() {
    let text = create_frame(FrameKind::Invite, "1", "né€:x");
    let frame = parse_frame(&text).unwrap();
    assert_eq!(frame.kind, FrameKind::Invite);
    assert_eq!(frame.payload, "né€:x");
}

#[test]
fn frame_errors() {
    assert_eq!(parse_frame("abc:inv:1:x").err().unwrap(), "Invalid ghostlayer prefix!");
    assert_eq!(parse_frame("").err().unwrap(), "Invalid ghostlayer prefix!");
    assert_eq!(parse_frame("ghlx:inv:1:x").err().unwrap(), "Invalid ghostlayer prefix!");
    assert_eq!(parse_frame("ghl").err().unwrap(), "Invalid ghostlayer kind!");
    assert_eq!(parse_frame("ghl:abc:1:x").err().unwrap(), "Invalid ghostlayer kind!");
    assert_eq!(parse_frame("ghl:inv").err().unwrap(), "Invalid version number!");
    assert_eq!(parse_frame("ghl:msg:1").err().unwrap(), "Invalid payload!");
}

#[test]
fn empty_fields_are_accepted() {
    let frame = parse_frame("ghl:inv::").unwrap();
    assert_eq!(frame.version, "");
    assert_eq!(frame.payload, "");
}
