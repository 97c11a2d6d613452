//! Metadata and artwork logic: choosing an embedded visual, sniffing its
//! MIME type from magic bytes, and packaging it for callers as base64 text.
//! Probing the container happens outside; this module gets the plain bytes
//! and tag values it found.

use vstd::prelude::*;
use vstd::string::*;

use crate::decode::derived_time_ms;
use crate::decode::MAX_FRAMES;
use crate::paths::is_stem_of;
use crate::paths::path_file_stem;

verus! {

/// An embedded cover image, as callers receive it.
#[derive(Debug, Clone)]
pub struct AlbumArtwork {
    /// The image bytes, base64-encoded.
    pub data: String,
    pub mime_type: String,
}

/// One embedded visual as the probe reported it: whether it is tagged as
/// the front cover, the MIME type the tag claims (possibly empty), and the
/// raw image bytes.
#[derive(Debug, Clone)]
pub struct Visual {
    pub is_front_cover: bool,
    pub media_type: String,
    pub data: Vec<u8>,
}

/// Largest visual the artwork path accepts. `4 * ((n + 2) / 3)` stays well
/// inside `usize` on every target.
pub const MAX_VISUAL_BYTES: usize = 1073741823;

/// The standard, padded base64 encoding of `bytes`.
pub uninterp spec fn base64_of(bytes: Seq<u8>) -> Seq<char>;

/// Relies on base64's `general_purpose::STANDARD` engine (`Engine::encode`):
/// the standard alphabet with padding, whose output depends on the input
/// bytes alone and is four characters for every started group of three
/// bytes.
#[verifier::external_body]
fn base64_encode(data: &Vec<u8>) -> (encoded: String)
    requires
        data@.len() <= MAX_VISUAL_BYTES,
    ensures
        encoded@ == base64_of(data@),
        encoded@.len() == 4 * ((data@.len() + 2) / 3),
{
    base64::Engine::encode(&base64::engine::general_purpose::STANDARD, data)
}

/// The first three bytes are the JPEG start-of-image marker.
pub open spec fn has_jpeg_magic(data: Seq<u8>) -> bool {
    data.len() >= 3 && data[0] == 0xff && data[1] == 0xd8 && data[2] == 0xff
}

/// The first four bytes are the PNG signature.
pub open spec fn has_png_magic(data: Seq<u8>) -> bool {
    data.len() >= 4 && data[0] == 0x89 && data[1] == 0x50 && data[2] == 0x4e && data[3] == 0x47
}

/// What MIME type untagged image bytes are reported as.
pub open spec fn sniffed_mime_is(data: Seq<u8>, mime: Seq<char>) -> bool {
    if has_jpeg_magic(data) {
        mime == "image/jpeg"@
    } else if has_png_magic(data) {
        mime == "image/png"@
    } else {
        mime == "image/unknown"@
    }
}

/// The MIME type reported for a visual: the tagged type when present, else
/// the type sniffed from the image bytes.
pub open spec fn resolved_mime_is(visual: Visual, mime: Seq<char>) -> bool {
    if visual.media_type@.len() > 0 {
        mime == visual.media_type@
    } else {
        sniffed_mime_is(visual.data@, mime)
    }
}

/// Guess the MIME type of image bytes from their magic numbers.
pub fn sniff_mime(data: &Vec<u8>) -> (mime: String)
    ensures
        sniffed_mime_is(data@, mime@),
{
    let jpeg = data.len() >= 3 && data[0] == 0xff && data[1] == 0xd8 && data[2] == 0xff;
    if jpeg {
        "image/jpeg".to_owned()
    } else if data.len() >= 4 && data[0] == 0x89 && data[1] == 0x50 && data[2] == 0x4e && data[3]
        == 0x47 {
        "image/png".to_owned()
    } else {
        "image/unknown".to_owned()
    }
}

/// `index` points at the visual the artwork surface serves: the first one
/// tagged as front cover, else the first visual at all.
pub open spec fn is_chosen_visual(visuals: Seq<Visual>, index: int) -> bool {
    &&& 0 <= index < visuals.len()
    &&& (visuals[index].is_front_cover || (index == 0 && forall|j: int|
        0 <= j < visuals.len() ==> !visuals[j].is_front_cover))
    &&& forall|j: int| 0 <= j < index ==> !visuals[j].is_front_cover
}

/// Pick the visual to serve: prefer a tagged front cover, fall back to the
/// first embedded visual, and report nothing when none exist.
pub fn choose_visual(visuals: &Vec<Visual>) -> (chosen: Option<usize>)
    ensures
        match chosen {
            Some(i) => is_chosen_visual(visuals@, i as int),
            None => visuals@.len() == 0,
        },
{
    let mut k: usize = 0;
    while k < visuals.len()
        invariant
            k <= visuals@.len(),
            forall|j: int| 0 <= j < k ==> !visuals@[j].is_front_cover,
        decreases visuals@.len() - k,
    {
        if visuals[k].is_front_cover {
            return Some(k);
        }
        k = k + 1;
    }
    if visuals.len() > 0 {
        Some(0)
    } else {
        None
    }
}

/// Serve the album artwork for a set of embedded visuals: the chosen
/// visual's bytes, base64-encoded, with its resolved MIME type. Reports
/// nothing exactly when the file embeds no visual at all.
pub fn get_album_artwork(visuals: &Vec<Visual>) -> (artwork: Option<AlbumArtwork>)
    requires
        forall|j: int| 0 <= j < visuals@.len() ==> (#[trigger] visuals@[j].data@).len()
            <= MAX_VISUAL_BYTES,
    ensures
        artwork is Some <==> visuals@.len() > 0,
        artwork is Some ==> exists|i: int|
            {
                &&& #[trigger] is_chosen_visual(visuals@, i)
                &&& artwork->0.data@ == base64_of(visuals@[i].data@)
                &&& artwork->0.data@.len() == 4 * ((visuals@[i].data@.len() + 2) / 3)
                &&& resolved_mime_is(visuals@[i], artwork->0.mime_type@)
            },
{
    let chosen = choose_visual(visuals);
    match chosen {
        Some(i) => {
            let visual = &visuals[i];
            let empty = String::new();
            let mime = if visual.media_type == empty {
                sniff_mime(&visual.data)
            } else {
                proof {
                    if visual.media_type@.len() == 0 {
                        assert(visual.media_type@ =~= Seq::<char>::empty());
                    }
                }
                visual.media_type.clone()
            };
            let encoded = base64_encode(&visual.data);
            proof {
                assert(is_chosen_visual(visuals@, i as int));
            }
            Some(AlbumArtwork { data: encoded, mime_type: mime })
        },
        None => None,
    }
}

/// Every character of `s` is a decimal digit.
pub open spec fn all_digits(s: Seq<char>) -> bool {
    forall|i: int| 0 <= i < s.len() ==> '0' <= #[trigger] s[i] <= '9'
}

/// The number a digit string denotes, most significant digit first.
pub open spec fn digits_value(s: Seq<char>) -> int
    decreases s.len(),
{
    if s.len() == 0 {
        0
    } else {
        digits_value(s.drop_last()) * 10 + (s.last() as int - 48)
    }
}

/// What parsing a `u32` out of `s` yields: its value when `s` is a
/// non-empty, in-range digit string; nothing otherwise.
pub open spec fn parsed_u32(s: Seq<char>) -> Option<u32> {
    if s.len() > 0 && all_digits(s) && digits_value(s) <= u32::MAX {
        Some(digits_value(s) as u32)
    } else {
        None
    }
}

/// A digit string denotes a non-negative number.
proof fn lemma_digits_value_nonneg(s: Seq<char>)
    requires
        all_digits(s),
    ensures
        digits_value(s) >= 0,
    decreases s.len(),
{
    if s.len() > 0 {
        assert(all_digits(s.drop_last()));
        lemma_digits_value_nonneg(s.drop_last());
    }
}

/// Extending a digit string never shrinks its value.
proof fn lemma_digits_value_monotone(s: Seq<char>, k: int)
    requires
        0 <= k <= s.len(),
        all_digits(s),
    ensures
        digits_value(s) >= digits_value(s.subrange(0, k)),
    decreases s.len() - k,
{
    if k < s.len() {
        lemma_digits_value_monotone(s, k + 1);
        let longer = s.subrange(0, k + 1);
        assert(longer.drop_last() =~= s.subrange(0, k));
        assert(all_digits(s.subrange(0, k)));
        lemma_digits_value_nonneg(s.subrange(0, k));
    } else {
        assert(s.subrange(0, k) =~= s);
    }
}

/// Parse a decimal `u32`: the value exactly when the whole string is
/// digits and fits, nothing otherwise.
pub fn parse_u32_str(s: &str) -> (parsed: Option<u32>)
    ensures
        parsed == parsed_u32(s@),
{
    let n = s.unicode_len();
    if n == 0 {
        return None;
    }
    let mut acc: u64 = 0;
    let mut i: usize = 0;
    while i < n
        invariant
            0 < n,
            n == s@.len(),
            i <= n,
            all_digits(s@.subrange(0, i as int)),
            acc == digits_value(s@.subrange(0, i as int)),
            acc <= u32::MAX,
        decreases n - i,
    {
        let c = s.get_char(i);
        if c < '0' || c > '9' {
            return None;
        }
        proof {
            assert(s@.subrange(0, (i + 1) as int).drop_last() =~= s@.subrange(0, i as int));
            assert(s@.subrange(0, (i + 1) as int).last() == s@[i as int]);
        }
        let digit = (c as u32) - 48;
        let next = acc * 10 + (digit as u64);
        if next > u32::MAX as u64 {
            proof {
                if all_digits(s@) {
                    lemma_digits_value_monotone(s@, i + 1);
                }
            }
            return None;
        }
        acc = next;
        i = i + 1;
    }
    proof {
        assert(s@.subrange(0, n as int) =~= s@);
    }
    Some(acc as u32)
}

/// How many characters precede the first `-` of `s` (all of `s` when it
/// holds none): a date tag's year is the number before the first dash.
pub open spec fn dash_prefix_len(s: Seq<char>) -> int
    decreases s.len(),
{
    if s.len() == 0 {
        0
    } else if s[0] == '-' {
        0
    } else {
        1 + dash_prefix_len(s.skip(1))
    }
}

/// The year a date tag denotes: the number before the first dash.
pub open spec fn parsed_year(s: Seq<char>) -> Option<u32> {
    parsed_u32(s.subrange(0, dash_prefix_len(s)))
}

/// A position with no dash before it and a dash (or the end) at it is
/// exactly `dash_prefix_len`.
proof fn lemma_dash_prefix_len(s: Seq<char>, d: int)
    requires
        0 <= d <= s.len(),
        forall|m: int| 0 <= m < d ==> s[m] != '-',
        d == s.len() || s[d] == '-',
    ensures
        dash_prefix_len(s) == d,
    decreases d,
{
    if s.len() > 0 && s[0] != '-' {
        lemma_dash_prefix_len(s.skip(1), d - 1);
    }
}

/// Parse the year out of a date tag value such as a plain year or a full
/// date with dashes.
pub fn parse_year(s: &str) -> (year: Option<u32>)
    ensures
        year == parsed_year(s@),
{
    let n = s.unicode_len();
    let mut d: usize = 0;
    while d < n && s.get_char(d) != '-'
        invariant
            d <= n,
            n == s@.len(),
            forall|m: int| 0 <= m < d ==> s@[m] != '-',
        decreases n - d,
    {
        d = d + 1;
    }
    proof {
        lemma_dash_prefix_len(s@, d as int);
    }
    parse_u32_str(s.substring_char(0, d))
}

/// The tags, duration and technical details reported for one audio file.
#[derive(Debug, Clone)]
pub struct TrackMetadata {
    pub title: Option<String>,
    pub artist: Option<String>,
    pub album: Option<String>,
    pub track_number: Option<u32>,
    pub year: Option<u32>,
    pub genre: Option<String>,
    pub duration_ms: u64,
    pub codec: Option<String>,
    pub sample_rate: Option<u32>,
    pub channels: Option<String>,
    pub bits_per_sample: Option<u32>,
    pub has_artwork: bool,
}

impl TrackMetadata {
    /// Metadata before any tag has been read: everything absent.
    pub fn empty() -> (meta: TrackMetadata)
        ensures
            meta.title is None,
            meta.artist is None,
            meta.album is None,
            meta.track_number is None,
            meta.year is None,
            meta.genre is None,
            meta.duration_ms == 0,
            meta.codec is None,
            meta.sample_rate is None,
            meta.channels is None,
            meta.bits_per_sample is None,
            !meta.has_artwork,
    {
        TrackMetadata {
            title: None,
            artist: None,
            album: None,
            track_number: None,
            year: None,
            genre: None,
            duration_ms: 0,
            codec: None,
            sample_rate: None,
            channels: None,
            bits_per_sample: None,
            has_artwork: false,
        }
    }
}

/// What one raw tag does to the metadata: the standard keys (and their
/// common ID3 frame names) set their field, numeric tags only when they
/// parse, and unknown keys change nothing.
pub open spec fn spec_apply_tag(meta: TrackMetadata, key: Seq<char>, value: String)
    -> TrackMetadata {
    if key == "TITLE"@ || key == "TIT2"@ {
        TrackMetadata { title: Some(value), ..meta }
    } else if key == "ARTIST"@ || key == "TPE1"@ {
        TrackMetadata { artist: Some(value), ..meta }
    } else if key == "ALBUM"@ || key == "TALB"@ {
        TrackMetadata { album: Some(value), ..meta }
    } else if key == "TRACKNUMBER"@ || key == "TRCK"@ {
        match parsed_u32(value@) {
            Some(track_number) => TrackMetadata { track_number: Some(track_number), ..meta },
            None => meta,
        }
    } else if key == "DATE"@ || key == "TYER"@ || key == "TDRC"@ {
        match parsed_year(value@) {
            Some(year) => TrackMetadata { year: Some(year), ..meta },
            None => meta,
        }
    } else if key == "GENRE"@ || key == "TCON"@ {
        TrackMetadata { genre: Some(value), ..meta }
    } else {
        meta
    }
}

/// Apply one raw tag, as [`spec_apply_tag`] says.
pub fn apply_tag(meta: &mut TrackMetadata, key: &String, value: String)
    ensures
        *final(meta) == spec_apply_tag(*old(meta), key@, value),
{
    if *key == "TITLE".to_owned() || *key == "TIT2".to_owned() {
        meta.title = Some(value);
    } else if *key == "ARTIST".to_owned() || *key == "TPE1".to_owned() {
        meta.artist = Some(value);
    } else if *key == "ALBUM".to_owned() || *key == "TALB".to_owned() {
        meta.album = Some(value);
    } else if *key == "TRACKNUMBER".to_owned() || *key == "TRCK".to_owned() {
        if let Some(track_number) = parse_u32_str(value.as_str()) {
            meta.track_number = Some(track_number);
        }
    } else if *key == "DATE".to_owned() || *key == "TYER".to_owned() || *key
        == "TDRC".to_owned() {
        if let Some(year) = parse_year(value.as_str()) {
            meta.year = Some(year);
        }
    } else if *key == "GENRE".to_owned() || *key == "TCON".to_owned() {
        meta.genre = Some(value);
    }
}

/// When no title tag was found, the file's stem stands in for the title;
/// a tagged title is kept as it is.
pub fn fallback_title(meta: &mut TrackMetadata, path: &str)
    ensures
        old(meta).title is Some ==> *final(meta) == *old(meta),
        old(meta).title is None ==> {
            &&& final(meta).title is Some
            &&& exists|a: int, b: int|
                #[trigger] is_stem_of(path@, a, b, (final(meta).title->0)@)
            &&& *final(meta) == (TrackMetadata { title: final(meta).title, ..*old(meta) })
        },
{
    if meta.title.is_none() {
        let stem = path_file_stem(path);
        meta.title = Some(stem);
        proof {
            let (a, b) = choose|a: int, b: int| is_stem_of(path@, a, b, (meta.title->0)@);
            assert(is_stem_of(path@, a, b, (meta.title->0)@));
        }
    }
}

/// The duration a probed frame count denotes, in milliseconds.
pub fn duration_ms_from_frames(n_frames: u64, sample_rate: u32) -> (duration_ms: u64)
    requires
        n_frames <= MAX_FRAMES,
        sample_rate >= 1,
    ensures
        duration_ms == derived_time_ms(n_frames, sample_rate),
{
    n_frames * 1000 / (sample_rate as u64)
}

} // verus!
