use base64::Engine;
use image_base64::model::{Action, CopyLabel, FileMeta, Model, Msg};

fn meta(name: &str, size: u64, mime: &str) -> FileMeta {
    FileMeta { name: name.to_string(), size, mime_type: mime.to_string() }
}

#[test]
fn png_upload_end_to_end() {
    let mut m = Model::create();
    let bytes: Vec<u8> = vec![137u8; 2048];

    let acts = m.update(Msg::FileSelected(meta("photo.png", 2048, "image/png")));
    assert_eq!(acts, vec![Action::ReadFile(0)]);

    // Size, format and MIME type are available at once; dimensions and aspect
    // ratio show the placeholder until the decode resolves.
    let info = m.image_info().unwrap();
    assert_eq!(info.format, "PNG");
    assert_eq!(info.size, "2.00 KB");
    assert_eq!(info.mime_type, "image/png");
    assert_eq!(info.dimensions, "loading");
    assert_eq!(info.aspect_ratio, "loading");

    let acts = m.update(Msg::Loaded(0, bytes.clone()));
    let expected = base64::engine::general_purpose::STANDARD.encode(&bytes);
    assert_eq!(m.base64_data().unwrap(), &expected);
    assert_eq!(
        acts,
        vec![Action::ProbeImage(0, format!("data:image/png;base64,{}", expected))]
    );

    let acts = m.update(Msg::DecodeResolved(0, 500, 500));
    assert!(acts.is_empty());
    let info = m.image_info().unwrap();
    assert_eq!(info.format, "PNG");
    assert_eq!(info.size, "2.00 KB");
    assert_eq!(info.mime_type, "image/png");
    assert_eq!(info.dimensions, "500×500 px");
    assert_eq!(info.aspect_ratio, "1:1");
}

#[test]
fn encoded_payload_is_real_base64() {
    let mut m = Model::create();
    m.update(Msg::FileSelected(meta("m.bin", 3, "application/octet-stream")));
    m.update(Msg::Loaded(0, vec![77u8, 97, 110]));
    assert_eq!(m.base64_data().unwrap(), "TWFu");
}

#[test]
fn mislabeled_file_reaches_terminal_decode_error() {
    let mut m = Model::create();
    m.update(Msg::FileSelected(meta("note.png", 14, "text/plain")));
    m.update(Msg::Loaded(0, b"just some text".to_vec()));
    let acts = m.update(Msg::DecodeFailed(0));
    assert!(acts.is_empty());
    let info = m.image_info().unwrap();
    // Terminal, and distinct from the "loading" placeholder.
    assert_eq!(info.dimensions, "unable to determine dimensions");
    assert_eq!(info.aspect_ratio, "unable to determine dimensions");
}

#[test]
fn read_failure_leaves_no_stale_metadata() {
    let mut m = Model::create();
    m.update(Msg::FileSelected(meta("photo.png", 2048, "image/png")));
    assert!(m.image_info().is_some());
    let acts = m.update(Msg::ReadFailed(0));
    assert!(acts.is_empty());
    assert!(m.image_info().is_none());
    assert!(m.base64_data().is_none());
}

#[test]
fn stale_completions_are_discarded() {
    let mut m = Model::create();
    m.update(Msg::FileSelected(meta("old.png", 3, "image/png")));
    m.update(Msg::Loaded(0, vec![1, 2, 3]));
    // A new selection arrives while the old decode is still in flight.
    m.update(Msg::FileSelected(meta("new.jpg", 4, "image/jpeg")));
    let acts = m.update(Msg::DecodeResolved(0, 10, 10));
    assert!(acts.is_empty());
    let info = m.image_info().unwrap();
    assert_eq!(info.format, "JPG");
    assert_eq!(info.dimensions, "loading");
    // So is a stale read completion.
    let acts = m.update(Msg::Loaded(0, vec![1, 2, 3]));
    assert!(acts.is_empty());
    assert!(m.base64_data().is_none());
}

#[test]
fn batch_selection_last_writer_wins() {
    let mut m = Model::create();
    let files = vec![
        meta("a.png", 1, "image/png"),
        meta("b.gif", 2, "image/gif"),
    ];
    let acts = m.update(Msg::Files(files));
    assert_eq!(acts, vec![Action::ReadFile(0), Action::ReadFile(1)]);
    let info = m.image_info().unwrap();
    assert_eq!(info.format, "GIF");
    // Only the current (last) upload's completions are accepted.
    let acts = m.update(Msg::Loaded(0, vec![1]));
    assert!(acts.is_empty());
    let acts = m.update(Msg::Loaded(1, vec![1, 2]));
    assert_eq!(acts.len(), 1);
}

#[test]
fn toggle_modal_flips() {
    let mut m = Model::create();
    assert!(!m.modal_open);
    m.update(Msg::ToggleModal);
    assert!(m.modal_open);
    m.update(Msg::ToggleModal);
    assert!(!m.modal_open);
}

#[test]
fn copy_confirms_with_payload_size_after_write_resolves() {
    let mut m = Model::create();
    m.update(Msg::FileSelected(meta("photo.png", 2048, "image/png")));
    m.update(Msg::Loaded(0, vec![137u8; 2048]));
    let payload = m.base64_data().unwrap().clone();

    let acts = m.update(Msg::CopyBase64);
    assert_eq!(acts, vec![Action::WriteClipboard(1, payload.clone())]);
    // No confirmation before the write resolves.
    assert_eq!(m.copy_label, CopyLabel::Idle);

    let acts = m.update(Msg::ClipboardDone(1, true));
    assert_eq!(acts, vec![Action::StartRevertTimer(1)]);
    // 2048 bytes encode to 2732 base64 characters.
    assert_eq!(payload.len(), 2732);
    assert_eq!(m.copy_label, CopyLabel::Copied("2.67 KB".to_string()));

    let acts = m.update(Msg::ResetCopyButton(1));
    assert!(acts.is_empty());
    assert_eq!(m.copy_label, CopyLabel::Idle);
}

#[test]
fn copy_without_payload_does_nothing() {
    let mut m = Model::create();
    let acts = m.update(Msg::CopyBase64);
    assert!(acts.is_empty());
    m.update(Msg::FileSelected(meta("photo.png", 9, "image/png")));
    // Bytes not read yet: still nothing to copy.
    let acts = m.update(Msg::CopyBase64);
    assert!(acts.is_empty());
    assert_eq!(m.copy_label, CopyLabel::Idle);
}

#[test]
fn failed_clipboard_write_shows_no_confirmation() {
    let mut m = Model::create();
    m.update(Msg::FileSelected(meta("photo.png", 6, "image/png")));
    m.update(Msg::Loaded(0, vec![1, 2, 3, 4, 5, 6]));
    let acts = m.update(Msg::CopyBase64);
    assert_eq!(acts.len(), 1);
    let acts = m.update(Msg::ClipboardDone(1, false));
    assert!(acts.is_empty());
    assert_eq!(m.copy_label, CopyLabel::Idle);
}

#[test]
fn overlapping_copies_revert_exactly_once() {
    let mut m = Model::create();
    m.update(Msg::FileSelected(meta("photo.png", 6, "image/png")));
    m.update(Msg::Loaded(0, vec![1, 2, 3, 4, 5, 6]));

    // First copy: write resolves, confirmation shown, timer 1 running.
    m.update(Msg::CopyBase64);
    m.update(Msg::ClipboardDone(1, true));
    // Second copy within the reversion window: timer 2 also running.
    m.update(Msg::CopyBase64);
    m.update(Msg::ClipboardDone(2, true));
    assert!(matches!(m.copy_label, CopyLabel::Copied(_)));

    // The stale timer fires first and changes nothing.
    let before = m.clone();
    let acts = m.update(Msg::ResetCopyButton(1));
    assert!(acts.is_empty());
    assert_eq!(m, before);
    assert!(matches!(m.copy_label, CopyLabel::Copied(_)));

    // The latest timer reverts the label: exactly one reversion.
    let acts = m.update(Msg::ResetCopyButton(2));
    assert!(acts.is_empty());
    assert_eq!(m.copy_label, CopyLabel::Idle);
}

#[test]
fn payload_written_once_and_dims_terminal() {
    let mut m = Model::create();
    m.update(Msg::FileSelected(meta("photo.png", 3, "image/png")));
    m.update(Msg::Loaded(0, vec![1, 2, 3]));
    let first = m.base64_data().unwrap().clone();
    // A duplicate read completion for the same upload is discarded.
    let acts = m.update(Msg::Loaded(0, vec![9, 9, 9]));
    assert!(acts.is_empty());
    assert_eq!(m.base64_data().unwrap(), &first);
    // A settled dimension status is terminal.
    m.update(Msg::DecodeFailed(0));
    let acts = m.update(Msg::DecodeResolved(0, 4, 4));
    assert!(acts.is_empty());
    let info = m.image_info().unwrap();
    assert_eq!(info.dimensions, "unable to determine dimensions");
}
