use clipboard_qr::generator::QRGenerator;
use clipboard_qr::mailbox::{DecodeStatus, GlobalClipboardState};
use clipboard_qr::snapshot::{ClipboardData, ImageData, RawRead};
use clipboard_qr::watcher::{logical_from_scan, publish_scanned, ClipboardWatcher, WakeDecision};

fn text_read(s: &str) -> Result<RawRead, String> {
    Ok(RawRead::Text(s.to_string()))
}

/// The decoder call as the watcher loop makes it: first successful
/// candidate, a failure message only when no candidate decoded.
fn decode_rgba(image: &ImageData) -> Result<Option<String>, String> {
    let buffer =
        image::RgbaImage::from_raw(image.width, image.height, image.pixels.clone()).unwrap();
    let dynamic = image::DynamicImage::ImageRgba8(buffer);
    let results = bardecoder::default_decoder::<image::DynamicImage>().decode(&dynamic);
    let mut first_failure: Option<String> = None;
    for candidate in results {
        match candidate {
            Ok(content) => return Ok(Some(content)),
            Err(e) => {
                if first_failure.is_none() {
                    first_failure = Some(e.to_string());
                }
            }
        }
    }
    match first_failure {
        Some(message) => Err(message),
        None => Ok(None),
    }
}

/// One full wake-up as the loop runs it: decide, decode a changed image,
/// publish. Reports whether a publication happened.
fn wake(
    watcher: &mut ClipboardWatcher,
    mailbox: &mut GlobalClipboardState,
    read: Result<RawRead, String>,
    now: u64,
) -> bool {
    match watcher.decide_wake(read, now) {
        WakeDecision::ReadFailed => false,
        WakeDecision::DiscardedMalformed => false,
        WakeDecision::Unchanged => false,
        WakeDecision::Publish(data, status) => {
            mailbox.publish(data, status);
            true
        }
        WakeDecision::DecodeImage(image) => {
            let scan = decode_rgba(&image);
            publish_scanned(mailbox, image, scan);
            true
        }
    }
}

#[test]
fn identical_reads_yield_one_publication() {
    // Consecutive reads with the same identity are reported exactly once.
    let mut watcher = ClipboardWatcher::new();
    let mut mailbox = GlobalClipboardState::new();
    assert!(wake(&mut watcher, &mut mailbox, text_read("a"), 1));
    assert!(!wake(&mut watcher, &mut mailbox, text_read("a"), 2));
    assert!(!wake(&mut watcher, &mut mailbox, text_read("a"), 3));
    assert!(wake(&mut watcher, &mut mailbox, text_read("b"), 4));
}

#[test]
fn duplicate_not_republished_without_drain() {
    // A duplicate is filtered before it reaches the mailbox: with no
    // drain in between, the second identical read yields no decision to
    // publish, so the flag and the value stay exactly as the first
    // publication left them.
    let mut watcher = ClipboardWatcher::new();
    let mut mailbox = GlobalClipboardState::new();
    assert!(wake(&mut watcher, &mut mailbox, text_read("a"), 1));
    let (value1, unread1) = mailbox.peek();
    assert!(unread1);
    assert!(matches!(
        watcher.decide_wake(text_read("a"), 2),
        WakeDecision::Unchanged
    ));
    let (value2, unread2) = mailbox.peek();
    assert_eq!(unread1, unread2);
    match (value1.unwrap().data, value2.unwrap().data) {
        (ClipboardData::Text(a), ClipboardData::Text(b)) => {
            assert_eq!(a, "a");
            assert_eq!(a, b);
        }
        _ => panic!("both publications must hold the same text"),
    }
}

#[test]
fn three_reads_three_publications() {
    // Raw reads a, a, b, empty yield exactly three published snapshots:
    // a, b, empty.
    let mut watcher = ClipboardWatcher::new();
    let mut mailbox = GlobalClipboardState::new();
    let reads = vec![
        text_read("a"),
        text_read("a"),
        text_read("b"),
        Ok(RawRead::Empty),
    ];
    let mut published = Vec::new();
    for (i, read) in reads.into_iter().enumerate() {
        if wake(&mut watcher, &mut mailbox, read, i as u64) {
            published.push(mailbox.drain().unwrap().data);
        }
    }
    assert_eq!(published.len(), 3);
    match &published[0] {
        ClipboardData::Text(t) => assert_eq!(t, "a"),
        _ => panic!("first publication must be the text a"),
    }
    match &published[1] {
        ClipboardData::Text(t) => assert_eq!(t, "b"),
        _ => panic!("second publication must be the text b"),
    }
    assert!(matches!(&published[2], ClipboardData::Empty));
}

#[test]
fn image_with_qr_publishes_decoded_text() {
    // An image snapshot whose pixels decode to "hello" is published as
    // the decoded text, with decode status Found — a full round trip
    // through the outside encoder and decoder.
    let generator = QRGenerator::new();
    let image = generator.generate_qr_image("hello").unwrap().unwrap();
    let mut watcher = ClipboardWatcher::new();
    let mut mailbox = GlobalClipboardState::new();
    let read = Ok(RawRead::Image {
        width: image.width,
        height: image.height,
        bytes: image.pixels,
    });
    assert!(wake(&mut watcher, &mut mailbox, read, 1));
    let (value, unread) = mailbox.peek();
    assert!(unread);
    let update = value.unwrap();
    assert!(matches!(update.status, DecodeStatus::Found));
    match update.data {
        ClipboardData::Text(t) => assert_eq!(t, "hello"),
        _ => panic!("the decoded text must be the published content"),
    }
}

#[test]
fn image_without_qr_publishes_image_not_found() {
    let mut watcher = ClipboardWatcher::new();
    let mut mailbox = GlobalClipboardState::new();
    let read = Ok(RawRead::Image { width: 32, height: 32, bytes: vec![255u8; 32 * 32 * 4] });
    assert!(wake(&mut watcher, &mut mailbox, read, 1));
    let (value, _) = mailbox.peek();
    let update = value.unwrap();
    assert!(matches!(update.status, DecodeStatus::NotFound));
    match update.data {
        ClipboardData::Image(img) => {
            assert_eq!(img.width, 32);
            assert_eq!(img.height, 32);
        }
        _ => panic!("an undecodable image must be published unchanged"),
    }
}

#[test]
fn changed_image_is_decoded_before_publication() {
    // A changed image comes back as a decode order, with the detector
    // already updated: the same image read again is Unchanged even
    // though nothing was published yet.
    let mut watcher = ClipboardWatcher::new();
    let read = Ok(RawRead::Image { width: 4, height: 4, bytes: vec![7u8; 64] });
    match watcher.decide_wake(read, 1) {
        WakeDecision::DecodeImage(img) => {
            assert_eq!(img.width, 4);
            assert_eq!(img.height, 4);
            assert_eq!(img.pixels, vec![7u8; 64]);
        }
        _ => panic!("a changed image must be handed out for decoding"),
    }
    let again = Ok(RawRead::Image { width: 4, height: 4, bytes: vec![7u8; 64] });
    assert!(matches!(watcher.decide_wake(again, 2), WakeDecision::Unchanged));
}

#[test]
fn read_error_mutates_nothing() {
    let mut watcher = ClipboardWatcher::new();
    let mut mailbox = GlobalClipboardState::new();
    wake(&mut watcher, &mut mailbox, text_read("a"), 1);
    mailbox.drain();
    assert!(matches!(
        watcher.decide_wake(Err("busy".to_string()), 2),
        WakeDecision::ReadFailed
    ));
    let (value, unread) = mailbox.peek();
    assert!(!unread);
    assert!(value.is_some());
    // The next good read is still evaluated against the last identity.
    assert!(matches!(
        watcher.decide_wake(text_read("a"), 3),
        WakeDecision::Unchanged
    ));
}

#[test]
fn malformed_image_is_discarded() {
    let mut watcher = ClipboardWatcher::new();
    let mut mailbox = GlobalClipboardState::new();
    let read = Ok(RawRead::Image { width: 4, height: 4, bytes: vec![0u8; 7] });
    assert!(matches!(
        watcher.decide_wake(read, 1),
        WakeDecision::DiscardedMalformed
    ));
    let (value, unread) = mailbox.peek();
    assert!(value.is_none());
    assert!(!unread);
}

#[test]
fn first_read_always_published_even_empty() {
    // Explicit startup behaviour: the very first read is reported as a
    // change, even when the clipboard is empty.
    let mut watcher = ClipboardWatcher::new();
    let mut mailbox = GlobalClipboardState::new();
    assert!(wake(&mut watcher, &mut mailbox, Ok(RawRead::Empty), 1));
    assert!(!wake(&mut watcher, &mut mailbox, Ok(RawRead::Empty), 2));
}

#[test]
fn own_write_not_rereported() {
    let mut watcher = ClipboardWatcher::new();
    let mut mailbox = GlobalClipboardState::new();
    watcher.record_written(&ClipboardData::Text("noted".to_string()));
    assert!(!wake(&mut watcher, &mut mailbox, text_read("noted"), 1));
    assert!(wake(&mut watcher, &mut mailbox, text_read("fresh"), 2));
}

#[test]
fn empty_text_read_collapses_to_empty() {
    let mut watcher = ClipboardWatcher::new();
    let mut mailbox = GlobalClipboardState::new();
    assert!(wake(&mut watcher, &mut mailbox, text_read(""), 1));
    assert!(matches!(mailbox.drain().unwrap().data, ClipboardData::Empty));
    // An empty read and an explicit empty clipboard have one identity.
    assert!(!wake(&mut watcher, &mut mailbox, Ok(RawRead::Empty), 2));
}

#[test]
fn change_time_follows_publications() {
    let mut watcher = ClipboardWatcher::new();
    let mut mailbox = GlobalClipboardState::new();
    wake(&mut watcher, &mut mailbox, text_read("a"), 7);
    assert_eq!(watcher.last_change_time(), 7);
    wake(&mut watcher, &mut mailbox, text_read("a"), 9);
    assert_eq!(watcher.last_change_time(), 7);
    wake(&mut watcher, &mut mailbox, text_read("b"), 11);
    assert_eq!(watcher.last_change_time(), 11);
}

#[test]
fn decoder_error_is_surfaced_with_the_image() {
    let image = ImageData { width: 2, height: 2, pixels: vec![0u8; 16] };
    let (data, status) = logical_from_scan(image, Err("boom".to_string()));
    assert!(matches!(data, ClipboardData::Image(_)));
    match status {
        DecodeStatus::DecodeError(msg) => assert_eq!(msg, "boom"),
        _ => panic!("a decoder failure must be surfaced as a decode error"),
    }
}

#[test]
fn empty_decoded_text_collapses_to_empty() {
    let image = ImageData { width: 2, height: 2, pixels: vec![0u8; 16] };
    let (data, status) = logical_from_scan(image, Ok(Some(String::new())));
    assert!(matches!(data, ClipboardData::Empty));
    assert!(matches!(status, DecodeStatus::Found));
}

#[test]
fn undecoded_scan_keeps_the_image() {
    let image = ImageData { width: 2, height: 2, pixels: vec![9u8; 16] };
    let (data, status) = logical_from_scan(image, Ok(None));
    match data {
        ClipboardData::Image(img) => assert_eq!(img.pixels, vec![9u8; 16]),
        _ => panic!("an undecoded image must pass through unchanged"),
    }
    assert!(matches!(status, DecodeStatus::NotFound));
}

#[test]
fn publish_scanned_sets_flag_with_decoded_text() {
    let mut mailbox = GlobalClipboardState::new();
    let image = ImageData { width: 2, height: 2, pixels: vec![0u8; 16] };
    publish_scanned(&mut mailbox, image, Ok(Some("decoded".to_string())));
    let (value, unread) = mailbox.peek();
    assert!(unread);
    let update = value.unwrap();
    assert!(matches!(update.status, DecodeStatus::Found));
    match update.data {
        ClipboardData::Text(t) => assert_eq!(t, "decoded"),
        _ => panic!("the decoded text must be the published content"),
    }
}
