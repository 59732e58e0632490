use media_bridge::forward::EventSink;
use media_bridge::media::{handle_notification, project, MediaActivitySnapshot, RawMediaInfo};

struct RecordingSink {
    delivered: Vec<MediaActivitySnapshot>,
    accept: bool,
}

impl RecordingSink {
    fn new(accept: bool) -> Self {
        RecordingSink { delivered: Vec::new(), accept }
    }
}

impl EventSink for RecordingSink {
    fn deliver(&mut self, snapshot: &MediaActivitySnapshot) -> bool {
        self.delivered.push(snapshot.clone());
        self.accept
    }
}

fn tiny_image() -> image::DynamicImage {
    image::DynamicImage::ImageRgb8(image::RgbImage::new(2, 2))
}

fn full_record() -> RawMediaInfo {
    RawMediaInfo {
        is_playing: Some(true),
        title: Some("A Title".to_string()),
        artist: Some("An Artist".to_string()),
        bundle_name: Some("A Player".to_string()),
        bundle_icon: Some(tiny_image()),
        album: Some("An Album".to_string()),
        album_cover: Some(tiny_image()),
        duration: Some(180.25_f64.to_bits()),
        elapsed_time: Some(12.5_f64.to_bits()),
    }
}

#[test]
fn projection_completeness_full_record() {
    let snap = project(full_record(), Some(1_700_000_000));
    assert_eq!(snap.info_update_time, Some(1_700_000_000));
    assert_eq!(snap.is_playing, Some(true));
    assert_eq!(snap.title.as_deref(), Some("A Title"));
    assert_eq!(snap.artist.as_deref(), Some("An Artist"));
    assert_eq!(snap.app_name.as_deref(), Some("A Player"));
    assert_eq!(snap.album.as_deref(), Some("An Album"));
    assert!(snap.app_icon.is_some());
    assert!(snap.album_cover.is_some());
    assert_eq!(snap.duration.map(f64::from_bits), Some(180.25));
    assert_eq!(snap.elapsed.map(f64::from_bits), Some(12.5));
}

#[test]
fn projection_partial_missing_album_cover() {
    let mut raw = full_record();
    raw.album_cover = None;
    let snap = project(raw, Some(7));
    assert!(snap.album_cover.is_none(), "missing cover stays absent, no error");
    assert!(snap.is_playing.is_some());
    assert!(snap.title.is_some());
    assert!(snap.artist.is_some());
    assert!(snap.app_name.is_some());
    assert!(snap.app_icon.is_some());
    assert!(snap.album.is_some());
    assert!(snap.duration.is_some());
    assert!(snap.elapsed.is_some());
}

#[test]
fn projection_of_empty_record_keeps_every_field_absent() {
    let raw = RawMediaInfo {
        is_playing: None,
        title: None,
        artist: None,
        bundle_name: None,
        bundle_icon: None,
        album: None,
        album_cover: None,
        duration: None,
        elapsed_time: None,
    };
    let snap = project(raw, None);
    assert_eq!(snap, MediaActivitySnapshot {
        info_update_time: None,
        is_playing: None,
        title: None,
        artist: None,
        app_name: None,
        app_icon: None,
        album: None,
        album_cover: None,
        duration: None,
        elapsed: None,
    });
}

#[test]
fn no_snapshot_for_absent_record() {
    let mut sink = RecordingSink::new(true);
    let out = handle_notification(&mut sink, None);
    assert!(out.is_none());
    assert_eq!(sink.delivered.len(), 0, "nothing may be forwarded");
}

#[test]
fn notification_forwards_exactly_once() {
    let mut sink = RecordingSink::new(true);
    let out = handle_notification(&mut sink, Some(full_record()));
    let snap = out.expect("a present record yields a snapshot");
    assert_eq!(sink.delivered.len(), 1);
    assert_eq!(sink.delivered[0], snap);
    assert!(snap.info_update_time.is_some(), "the clock stamps the snapshot");
}

#[test]
fn forwarding_isolation_failing_sink() {
    let mut sink = RecordingSink::new(false);
    let first = handle_notification(&mut sink, Some(full_record()));
    assert!(first.is_some(), "a failing sink must not fail the worker");
    let second = handle_notification(&mut sink, Some(full_record()));
    assert!(second.is_some(), "later notifications are still attempted");
    assert_eq!(sink.delivered.len(), 2);
}
