//! Building a catalog record from one song description, with the failure
//! classes that make the file contribute nothing to a reconciliation run.

use vstd::prelude::*;
use crate::path::{normalize, normalize_spec, bytes_views};
use crate::song::{
    SongLine, assemble_lyrics, player_count, lyrics_spec, player_count_spec, trim_text, trim_spec,
};

verus! {

/// Where a song asset lives.
pub enum AssetSource {
    /// On the local filesystem, given as the path's components.
    Local { components: Vec<Vec<u8>> },
    /// Anywhere else (a URL); the catalog never accepts such an asset.
    Remote { location: String },
}

/// The metadata part of a parsed song description.
pub struct SongHeader {
    pub title: String,
    pub artist: String,
    pub language: Option<String>,
    pub year: Option<u32>,
    pub audio: AssetSource,
    pub cover: Option<AssetSource>,
}

/// A parsed song description: metadata and the lyric lines.
pub struct SongDescription {
    pub header: SongHeader,
    pub lines: Vec<SongLine>,
}

/// The length of a media stream as the prober reports it: a number of ticks
/// of `time_base_num / time_base_den` seconds each.
#[derive(Clone, Copy, Debug, PartialEq, Eq, Structural)]
pub struct StreamTiming {
    pub ticks: i64,
    pub time_base_num: i32,
    pub time_base_den: i32,
}

impl StreamTiming {
    /// A timing that gives a definite, non-negative number of seconds.
    pub open spec fn valid(self) -> bool {
        self.ticks >= 0 && self.time_base_num >= 0 && self.time_base_den > 0
    }

    /// Whether this timing gives a definite, non-negative duration (an
    /// unknown stream length is reported as a negative tick count).
    pub fn is_valid(&self) -> (r: bool)
        ensures
            r == self.valid(),
    {
        self.ticks >= 0 && self.time_base_num >= 0 && self.time_base_den > 0
    }
}

/// Which asset reference of a song was rejected.
#[derive(Clone, Copy, Debug, PartialEq, Eq, Structural)]
pub enum AssetField {
    Audio,
    Cover,
}

/// Why a description file contributed nothing to the catalog.
#[derive(Debug)]
pub enum ExtractionError {
    /// The file's path could not be made canonical.
    PathResolution,
    /// The file is not a well-formed song description.
    ParseFailure(String),
    /// An asset reference is not local.
    UnsupportedRemoteAsset(AssetField),
    /// The audio asset has no audio stream of known length, or cannot be read.
    MediaProbeFailure,
}

/// One catalog entry, keyed by the canonical path of its description file.
pub struct CatalogRecord {
    pub path: Vec<u8>,
    pub title: String,
    pub artist: String,
    pub language: Option<String>,
    pub year: Option<u32>,
    pub duration: StreamTiming,
    pub lyrics: String,
    pub player_count: u32,
    pub cover_path: Option<Vec<u8>>,
    pub audio_path: Vec<u8>,
}

/// The components of a local source (none for a remote one).
pub open spec fn local_components(s: AssetSource) -> Seq<Seq<u8>> {
    match s {
        AssetSource::Local { components } => bytes_views(components@),
        AssetSource::Remote { .. } => Seq::empty(),
    }
}

/// The view of an optional text.
pub open spec fn opt_text(o: Option<String>) -> Option<Seq<char>> {
    match o {
        Some(s) => Some(s@),
        None => None,
    }
}

/// The view of optional bytes.
pub open spec fn opt_bytes(o: Option<Vec<u8>>) -> Option<Seq<u8>> {
    match o {
        Some(b) => Some(b@),
        None => None,
    }
}

/// Whether a song's cover reference, if any, is local.
pub open spec fn cover_is_local(h: SongHeader) -> bool {
    match h.cover {
        Some(c) => c is Local,
        None => true,
    }
}

/// Whether `rec` is the record for `song`, stored under `key`, with the
/// probed `timing`, and asset paths stripped of `strip` leading components.
pub open spec fn is_record_of(
    rec: CatalogRecord,
    key: Seq<u8>,
    song: SongDescription,
    timing: StreamTiming,
    strip: nat,
) -> bool {
    &&& rec.path@ == key
    &&& rec.title@ == trim_spec(song.header.title@)
    &&& rec.artist@ == trim_spec(song.header.artist@)
    &&& opt_text(rec.language) == match song.header.language {
        Some(l) => Some(trim_spec(l@)),
        None => None::<Seq<char>>,
    }
    &&& rec.year == song.header.year
    &&& rec.duration == timing
    &&& rec.lyrics@ == lyrics_spec(song.lines@)
    &&& rec.player_count == player_count_spec(song.lines@)
    &&& opt_bytes(rec.cover_path) == match song.header.cover {
        Some(c) => Some(normalize_spec(local_components(c), strip)),
        None => None::<Seq<u8>>,
    }
    &&& rec.audio_path@ == normalize_spec(local_components(song.header.audio), strip)
}

/// The stored form of a local asset's path.
fn normalize_source(s: &AssetSource, strip_count: usize) -> (r: Vec<u8>)
    requires
        s is Local,
    ensures
        r@ == normalize_spec(local_components(*s), strip_count as nat),
{
    match s {
        AssetSource::Local { components } => normalize(components, strip_count),
        AssetSource::Remote { .. } => Vec::new(),
    }
}

/// Builds the catalog record of one description file from what the outside
/// steps gave: its canonical path (`None` when it could not be resolved), the
/// parsed description (or the parser's complaint), and the audio stream's
/// timing (`None` when the audio could not be probed). The failures are
/// checked in this order: path, parse, remote audio, probe, remote cover.
pub fn extract(
    resolved: Option<Vec<u8>>,
    parsed: Result<SongDescription, String>,
    probe: Option<StreamTiming>,
    strip_count: usize,
) -> (r: Result<CatalogRecord, ExtractionError>)
    ensures
        resolved is None ==> r matches Err(ExtractionError::PathResolution),
        resolved is Some ==> match parsed {
            Err(detail) => r matches Err(ExtractionError::ParseFailure(d)) && d@ == detail@,
            Ok(song) => if song.header.audio is Remote {
                r matches Err(ExtractionError::UnsupportedRemoteAsset(AssetField::Audio))
            } else if probe is None || !probe->0.valid() {
                r matches Err(ExtractionError::MediaProbeFailure)
            } else if !cover_is_local(song.header) {
                r matches Err(ExtractionError::UnsupportedRemoteAsset(AssetField::Cover))
            } else {
                r is Ok && is_record_of(
                    r->Ok_0,
                    resolved->0@,
                    song,
                    probe->0,
                    strip_count as nat,
                )
            },
        },
{
    let key = match resolved {
        Some(k) => k,
        None => {
            return Err(ExtractionError::PathResolution);
        },
    };
    let song = match parsed {
        Ok(s) => s,
        Err(detail) => {
            return Err(ExtractionError::ParseFailure(detail));
        },
    };
    if let AssetSource::Remote { .. } = &song.header.audio {
        return Err(ExtractionError::UnsupportedRemoteAsset(AssetField::Audio));
    }
    let timing = match probe {
        Some(t) => t,
        None => {
            return Err(ExtractionError::MediaProbeFailure);
        },
    };
    if !timing.is_valid() {
        return Err(ExtractionError::MediaProbeFailure);
    }
    let cover_path = match &song.header.cover {
        Some(c) => match c {
            AssetSource::Local { .. } => Some(normalize_source(c, strip_count)),
            AssetSource::Remote { .. } => {
                return Err(ExtractionError::UnsupportedRemoteAsset(AssetField::Cover));
            },
        },
        None => None,
    };
    let audio_path = normalize_source(&song.header.audio, strip_count);
    let language = match &song.header.language {
        Some(l) => Some(trim_text(l.as_str())),
        None => None,
    };
    let rec = CatalogRecord {
        path: key,
        title: trim_text(song.header.title.as_str()),
        artist: trim_text(song.header.artist.as_str()),
        language,
        year: song.header.year,
        duration: timing,
        lyrics: assemble_lyrics(&song.lines),
        player_count: player_count(&song.lines),
        cover_path,
        audio_path,
    };
    Ok(rec)
}

} // verus!
