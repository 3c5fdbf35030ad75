use clipper::capture::{clip_from_image, clip_from_text, starts_capture, KeyState};
use clipper::clip::Clip;
use clipper::store::{
    clip_from_envelope, clip_item_from_row, deletion_outcome, envelope_of, save_outcome,
    DeleteError, Envelope, Notification, ReadError,
};

#[test]
fn text_clip_round_trips() {
    let clip = Clip::Text { plain: "hello \"world\"\n".to_string() };
    let e = envelope_of(&clip, "notes", "");
    assert_eq!(e.kind, "text");
    assert_eq!(e.content, "hello \"world\"\n");
    assert_eq!(e.category, "notes");
    assert_eq!(e.width, None);
    assert_eq!(clip_from_envelope(&e), Ok(clip));
}

#[test]
fn image_clip_round_trips() {
    let clip = Clip::Image { data: b"hello".to_vec(), width: 3, height: 2 };
    let e = envelope_of(&clip, "image", "");
    assert_eq!(e.kind, "image");
    assert_eq!(e.content, "aGVsbG8=");
    assert_eq!(e.width, Some(3));
    assert_eq!(e.height, Some(2));
    assert_eq!(clip_from_envelope(&e), Ok(clip));
}

#[test]
fn empty_image_round_trips() {
    let clip = Clip::Image { data: vec![], width: 0, height: 0 };
    let e = envelope_of(&clip, "image", "");
    assert_eq!(clip_from_envelope(&e), Ok(clip));
}

fn envelope(kind: &str, content: &str, width: Option<u64>) -> Envelope {
    Envelope {
        kind: kind.to_string(),
        content: content.to_string(),
        category: "c".to_string(),
        summary: String::new(),
        width,
        height: None,
    }
}

#[test]
fn invalid_base64_is_an_error() {
    assert_eq!(clip_from_envelope(&envelope("image", "not base64!", None)), Err(ReadError::InvalidBase64));
}

#[test]
fn unknown_kind_reads_as_placeholder() {
    assert_eq!(
        clip_from_envelope(&envelope("html", "<b>x</b>", None)),
        Ok(Clip::Text { plain: "Invalid clip type".to_string() })
    );
}

#[test]
fn missing_size_reads_as_zero() {
    assert_eq!(
        clip_from_envelope(&envelope("image", "AAE=", Some(4))),
        Ok(Clip::Image { data: vec![0, 1], width: 4, height: 0 })
    );
}

#[test]
fn row_becomes_item() {
    let e = envelope("text", "abc", None);
    let item = clip_item_from_row(7, &e, "2024-01-01 00:00:00".to_string(), Some("notes".to_string()), None).unwrap();
    assert_eq!(item.id, 7);
    assert_eq!(item.clip, Clip::Text { plain: "abc".to_string() });
    assert_eq!(item.category, Some("notes".to_string()));
    assert_eq!(item.summary, None);
    let bad = envelope("image", "%%%", None);
    assert_eq!(clip_item_from_row(1, &bad, String::new(), None, None), Err(ReadError::InvalidBase64));
}

#[test]
fn deleting_missing_id_is_not_found() {
    assert_eq!(deletion_outcome(42, 0), Err(DeleteError::NotFound));
    assert_eq!(DeleteError::NotFound.message(), "Item not found");
}

#[test]
fn deleting_existing_id_notifies_with_id() {
    assert_eq!(deletion_outcome(42, 1), Ok(Notification::ClipDeleted(42)));
    assert_eq!(save_outcome(), Notification::ClipSaved);
}

#[test]
fn short_pixel_buffer_gives_no_clip() {
    assert_eq!(clip_from_image(&[0, 0, 0], 1, 1), None);
    assert_eq!(clip_from_image(&[0; 8], 2, 2), None);
}

#[test]
fn oversized_side_gives_no_clip() {
    assert_eq!(clip_from_image(&[], 1usize << 33, 0), None);
}

#[test]
fn pixels_become_png() {
    let clip = clip_from_image(&[255, 0, 0, 255, 0, 255, 0, 255], 2, 1).unwrap();
    match clip {
        Clip::Image { data, width, height } => {
            assert_eq!(&data[..8], &[0x89, b'P', b'N', b'G', 0x0d, 0x0a, 0x1a, 0x0a]);
            assert_eq!((width, height), (2, 1));
        }
        Clip::Text { .. } => panic!("expected an image"),
    }
}

#[test]
fn text_becomes_clip() {
    assert_eq!(clip_from_text("x".to_string()), Some(Clip::Text { plain: "x".to_string() }));
}

#[test]
fn empty_text_is_no_clip() {
    assert_eq!(clip_from_text(String::new()), None);
}

#[test]
fn saved_image_lists_as_saved() {
    let clip = Clip::Image { data: vec![0, 255, 7, 9], width: 2, height: 1 };
    let e = envelope_of(&clip, "image", "");
    let item = clip_item_from_row(3, &e, "now".to_string(), Some("image".to_string()), None).unwrap();
    assert_eq!(item.clip, clip);
}

#[test]
fn only_pressed_chord_starts_capture() {
    assert!(starts_capture(true, KeyState::Pressed));
    assert!(!starts_capture(true, KeyState::Released));
    assert!(!starts_capture(false, KeyState::Pressed));
}
