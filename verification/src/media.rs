//! The media info projector: a pure mapping from one raw platform "now
//! playing" record to the outward snapshot. Every field is carried through as
//! "present if known, absent otherwise" — no defaulting, and a missing field
//! is never an error. Image fields pass through the portable-encoding
//! collaborator; an encoder failure yields an absent field rather than
//! failing the projection.

use crate::encoding::{encoded_image, image_as_base64, opt_chars};
use crate::forward::{forward, EventSink};
use vstd::prelude::*;

verus! {

/// One platform-sourced "now playing" record, as a notification delivers it:
/// any field may be unknown. Durations are the bit patterns of the platform's
/// floating-point seconds, carried through untouched; the host converts at
/// the boundary.
pub struct RawMediaInfo {
    pub is_playing: Option<bool>,
    pub title: Option<String>,
    pub artist: Option<String>,
    pub bundle_name: Option<String>,
    pub bundle_icon: Option<image::DynamicImage>,
    pub album: Option<String>,
    pub album_cover: Option<image::DynamicImage>,
    /// Playback duration in seconds: the bit pattern of the platform's
    /// floating-point value, passed through unchanged.
    pub duration: Option<u64>,
    /// Elapsed position in seconds, encoded as `duration` is.
    pub elapsed_time: Option<u64>,
}

/// The outward, immutable snapshot built once per notification. Image fields
/// hold base64 text of the WebP encoding; durations are carried exactly as in
/// `RawMediaInfo`.
#[derive(Clone, Debug, PartialEq)]
pub struct MediaActivitySnapshot {
    /// Unix seconds at which the snapshot was built, where the clock gave one.
    pub info_update_time: Option<u64>,
    pub is_playing: Option<bool>,
    pub title: Option<String>,
    pub artist: Option<String>,
    pub app_name: Option<String>,
    pub app_icon: Option<String>,
    pub album: Option<String>,
    pub album_cover: Option<String>,
    pub duration: Option<u64>,
    pub elapsed: Option<u64>,
}

/// The portable encoding of one optional image field: absent stays absent,
/// present becomes the image's encoding or absent where the encoder fails.
pub open spec fn encoded_image_field(img: Option<image::DynamicImage>) -> Option<Seq<char>> {
    match img {
        Some(i) => encoded_image(i),
        None => None,
    }
}

/// The projection relation, field by field: `snap` is the outward shape of
/// `info`. The update timestamp is not related here — it comes from the
/// clock, not from the record.
pub open spec fn projects(info: RawMediaInfo, snap: MediaActivitySnapshot) -> bool {
    &&& snap.is_playing == info.is_playing
    &&& snap.title == info.title
    &&& snap.artist == info.artist
    &&& snap.app_name == info.bundle_name
    &&& snap.album == info.album
    &&& snap.duration == info.duration
    &&& snap.elapsed == info.elapsed_time
    &&& opt_chars(snap.app_icon) == encoded_image_field(info.bundle_icon)
    &&& opt_chars(snap.album_cover) == encoded_image_field(info.album_cover)
}

/// Relies on `std::time::SystemTime::now` measured against `UNIX_EPOCH`:
/// wall-clock seconds, `None` where the clock reads before the epoch.
#[verifier::external_body]
fn unix_time_now() -> (r: Option<u64>) {
    match std::time::SystemTime::now().duration_since(std::time::UNIX_EPOCH) {
        Ok(d) => Some(d.as_secs()),
        Err(_) => None,
    }
}

/// Project one raw record into a snapshot stamped with `now`: each field
/// present if known and absent otherwise, images through the portable
/// encoding, durations untouched.
pub fn project(raw: RawMediaInfo, now: Option<u64>) -> (snap: MediaActivitySnapshot)
    ensures
        projects(raw, snap),
        snap.info_update_time == now,
{
    let RawMediaInfo {
        is_playing,
        title,
        artist,
        bundle_name,
        bundle_icon,
        album,
        album_cover,
        duration,
        elapsed_time,
    } = raw;
    let app_icon = match &bundle_icon {
        Some(img) => image_as_base64(img),
        None => None,
    };
    let cover = match &album_cover {
        Some(img) => image_as_base64(img),
        None => None,
    };
    MediaActivitySnapshot {
        info_update_time: now,
        is_playing,
        title,
        artist,
        app_name: bundle_name,
        app_icon,
        album,
        album_cover: cover,
        duration,
        elapsed: elapsed_time,
    }
}

/// Handle one subscription notification: an absent record (no active media
/// session) forwards nothing; a present record is projected, stamped with the
/// clock and handed to the sink exactly once. The returned snapshot reports
/// what was forwarded. The contract holds whatever the sink answers, so a
/// failing sink neither fails this call nor prevents the next one.
pub fn handle_notification<S: EventSink>(sink: &mut S, raw: Option<RawMediaInfo>) -> (snap: Option<
    MediaActivitySnapshot,
>)
    ensures
        raw is None <==> snap is None,
        raw matches Some(info) ==> (snap matches Some(s) && projects(info, s)),
{
    match raw {
        None => None,
        Some(info) => {
            let now = unix_time_now();
            let s = project(info, now);
            forward(sink, &s);
            Some(s)
        },
    }
}

/// Projection completeness: a raw record with every field present projects to
/// a snapshot with every corresponding field present, as long as the encoder
/// accepts both images (an image the encoder refuses yields an absent field
/// by design).
pub proof fn lemma_projection_completeness(info: RawMediaInfo, snap: MediaActivitySnapshot)
    requires
        projects(info, snap),
        info.is_playing is Some,
        info.title is Some,
        info.artist is Some,
        info.bundle_name is Some,
        info.album is Some,
        info.duration is Some,
        info.elapsed_time is Some,
        info.bundle_icon matches Some(icon) && encoded_image(icon) is Some,
        info.album_cover matches Some(cover) && encoded_image(cover) is Some,
    ensures
        snap.is_playing is Some,
        snap.title is Some,
        snap.artist is Some,
        snap.app_name is Some,
        snap.album is Some,
        snap.duration is Some,
        snap.elapsed is Some,
        snap.app_icon is Some,
        snap.album_cover is Some,
{
}

/// Projection partiality: a raw record missing the album cover alone projects
/// to a snapshot with the album-cover field absent — not an error — and every
/// other field present (the remaining image again provided the encoder
/// accepts it).
pub proof fn lemma_projection_partiality(info: RawMediaInfo, snap: MediaActivitySnapshot)
    requires
        projects(info, snap),
        info.album_cover is None,
        info.is_playing is Some,
        info.title is Some,
        info.artist is Some,
        info.bundle_name is Some,
        info.album is Some,
        info.duration is Some,
        info.elapsed_time is Some,
        info.bundle_icon matches Some(icon) && encoded_image(icon) is Some,
    ensures
        snap.album_cover is None,
        snap.is_playing is Some,
        snap.title is Some,
        snap.artist is Some,
        snap.app_name is Some,
        snap.album is Some,
        snap.duration is Some,
        snap.elapsed is Some,
        snap.app_icon is Some,
{
}

} // verus!
