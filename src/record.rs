//! The metadata decoder: extractor records, the metadata derived from them, and
//! the batch rules that turn decoded lines into records.

use vstd::prelude::*;
use vstd::string::StringExecFns;

use crate::invoke::ExtractionError;

verus! {

/// The channel count of every stream this engine produces.
pub const CHANNELS: u8 = 2;

/// The sample rate, in hertz, of every stream this engine produces.
pub const SAMPLE_RATE: u32 = 48000;

/// The protocol tag with which the extractor marks a segmented manifest.
pub const MANIFEST_PROTOCOL: &'static str = "m3u8_native";

/// One record of the extractor's output, with the fields this engine reads.
#[derive(Debug)]
pub struct Output {
    pub artist: Option<String>,
    pub album: Option<String>,
    pub channel: Option<String>,
    /// Length in milliseconds; absent for live streams.
    pub duration_ms: Option<u64>,
    /// Size in bytes of the playable resource, when known.
    pub filesize: Option<u64>,
    /// Header names and values needed to fetch the resource.
    pub http_headers: Option<Vec<(String, String)>>,
    pub release_date: Option<String>,
    pub thumbnail: Option<String>,
    pub title: Option<String>,
    pub track: Option<String>,
    pub upload_date: Option<String>,
    pub uploader: Option<String>,
    /// The playable resource.
    pub url: String,
    /// The canonical page of the item.
    pub webpage_url: Option<String>,
    pub protocol: Option<String>,
}

/// The public summary of one resolved item.
#[derive(Debug, PartialEq, Eq)]
pub struct Metadata {
    pub track: Option<String>,
    pub artist: Option<String>,
    pub album: Option<String>,
    pub date: Option<String>,
    pub channels: Option<u8>,
    pub channel: Option<String>,
    /// Length in milliseconds; absent for live streams.
    pub duration_ms: Option<u64>,
    pub sample_rate: Option<u32>,
    pub source_url: Option<String>,
    pub title: Option<String>,
    pub thumbnail: Option<String>,
}

/// How the bytes of a resolved item are fetched.
#[derive(PartialEq, Eq, Structural, Clone, Copy, Debug)]
pub enum TransportKind {
    /// One continuous byte range over HTTP.
    DirectHttp,
    /// A sequence of segments described by a manifest.
    SegmentedManifest,
}

/// What is needed to open the byte stream of one record.
#[derive(Debug)]
pub struct StreamSource {
    pub url: String,
    pub headers: Vec<(String, String)>,
    pub byte_size: Option<u64>,
    pub transport: TransportKind,
}

/// A decoded record: its metadata and its stream source, both fixed at decode time.
#[derive(Debug)]
pub struct ExtractionRecord {
    pub metadata: Metadata,
    pub source: StreamSource,
}

pub(crate) fn copy_text(t: &Option<String>) -> (r: Option<String>)
    ensures
        r == *t,
{
    match t {
        Some(s) => Some(s.clone()),
        None => None,
    }
}

impl Clone for Metadata {
    fn clone(&self) -> (r: Self)
        ensures
            r == *self,
    {
        Metadata {
            track: copy_text(&self.track),
            artist: copy_text(&self.artist),
            album: copy_text(&self.album),
            date: copy_text(&self.date),
            channels: self.channels,
            channel: copy_text(&self.channel),
            duration_ms: self.duration_ms,
            sample_rate: self.sample_rate,
            source_url: copy_text(&self.source_url),
            title: copy_text(&self.title),
            thumbnail: copy_text(&self.thumbnail),
        }
    }
}

/// `first` if present, else `second`.
pub open spec fn or_else(first: Option<String>, second: Option<String>) -> Option<String> {
    if first is Some {
        first
    } else {
        second
    }
}

/// Whether a protocol tag marks a segmented manifest.
pub open spec fn is_manifest_tag(protocol: Option<String>) -> bool {
    protocol matches Some(p) && p@ == MANIFEST_PROTOCOL@
}

/// The transport that a protocol tag calls for.
pub open spec fn transport_for(protocol: Option<String>) -> TransportKind {
    if is_manifest_tag(protocol) {
        TransportKind::SegmentedManifest
    } else {
        TransportKind::DirectHttp
    }
}

/// The header pairs of a record; none when the field is absent.
pub open spec fn headers_of(o: Output) -> Seq<(String, String)> {
    match o.http_headers {
        Some(h) => h@,
        None => Seq::empty(),
    }
}

impl Output {
    /// The metadata of this record: the artist falls back to the uploader, the
    /// date to the upload date; channel count and sample rate are fixed.
    pub open spec fn metadata(self) -> Metadata {
        Metadata {
            track: self.track,
            artist: or_else(self.artist, self.uploader),
            album: self.album,
            date: or_else(self.release_date, self.upload_date),
            channels: Some(CHANNELS),
            channel: self.channel,
            duration_ms: self.duration_ms,
            sample_rate: Some(SAMPLE_RATE),
            source_url: self.webpage_url,
            title: self.title,
            thumbnail: self.thumbnail,
        }
    }

    /// Whether `r` is the decoded form of this record.
    pub open spec fn decodes_to(self, r: ExtractionRecord) -> bool {
        &&& r.metadata == self.metadata()
        &&& r.source.url == self.url
        &&& r.source.headers@ == headers_of(self)
        &&& r.source.byte_size == self.filesize
        &&& r.source.transport == transport_for(self.protocol)
    }

    /// Derives the metadata of this record.
    pub fn as_aux_metadata(&self) -> (m: Metadata)
        ensures
            m == self.metadata(),
    {
        let artist = match &self.artist {
            Some(a) => Some(a.clone()),
            None => copy_text(&self.uploader),
        };
        let date = match &self.release_date {
            Some(d) => Some(d.clone()),
            None => copy_text(&self.upload_date),
        };
        Metadata {
            track: copy_text(&self.track),
            artist,
            album: copy_text(&self.album),
            date,
            channels: Some(CHANNELS),
            channel: copy_text(&self.channel),
            duration_ms: self.duration_ms,
            sample_rate: Some(SAMPLE_RATE),
            source_url: copy_text(&self.webpage_url),
            title: copy_text(&self.title),
            thumbnail: copy_text(&self.thumbnail),
        }
    }

    /// The transport that this record's protocol tag calls for.
    pub fn transport(&self) -> (t: TransportKind)
        ensures
            t == transport_for(self.protocol),
    {
        match &self.protocol {
            Some(p) => {
                let tag = String::from_str(MANIFEST_PROTOCOL);
                if p.eq(&tag) {
                    TransportKind::SegmentedManifest
                } else {
                    TransportKind::DirectHttp
                }
            },
            None => TransportKind::DirectHttp,
        }
    }

    /// Decodes this record: derives its metadata and fixes its transport.
    pub fn into_record(self) -> (r: ExtractionRecord)
        ensures
            self.decodes_to(r),
    {
        let metadata = self.as_aux_metadata();
        let transport = self.transport();
        let headers = match self.http_headers {
            Some(h) => h,
            None => Vec::new(),
        };
        ExtractionRecord {
            metadata,
            source: StreamSource {
                url: self.url,
                headers,
                byte_size: self.filesize,
                transport,
            },
        }
    }
}

/// A record with no `artist` takes its `uploader`; one with an `artist` keeps
/// it. Likewise the date: the release date wins, the upload date fills in.
pub proof fn lemma_metadata_fallback(o: Output)
    ensures
        o.artist is None ==> o.metadata().artist == o.uploader,
        o.artist is Some ==> o.metadata().artist == o.artist,
        o.release_date is None ==> o.metadata().date == o.upload_date,
        o.release_date is Some ==> o.metadata().date == o.release_date,
{
}

/// Whether some line failed to decode.
pub open spec fn any_failed(decoded: Seq<Result<Output, String>>) -> bool {
    exists|i: int| 0 <= i < decoded.len() && decoded[i] is Err
}

/// Applies the batch rules to the decoded lines of one run: a line that failed
/// to decode fails the whole batch with the first such message; a batch with
/// no line reports no results for `target`; otherwise every record is decoded,
/// in order.
pub fn collect_records(decoded: Vec<Result<Output, String>>, target: &str) -> (r: Result<
    Vec<ExtractionRecord>,
    ExtractionError,
>)
    ensures
        any_failed(decoded@) ==> (r matches Err(ExtractionError::DecodeFailed(m)) && exists|i: int|
            0 <= i < decoded@.len() && decoded@[i] == Err::<Output, String>(m) && forall|j: int|
                0 <= j < i ==> decoded@[j] is Ok),
        !any_failed(decoded@) && decoded@.len() == 0 ==> (r matches Err(
            ExtractionError::NoResults(t),
        ) && t@ == target@),
        !any_failed(decoded@) && decoded@.len() > 0 ==> (r matches Ok(v) && v@.len()
            == decoded@.len() && forall|i: int|
            0 <= i < v@.len() ==> (#[trigger] decoded@[i])->Ok_0.decodes_to(v@[i])),
{
    let ghost input = decoded@;
    let n = decoded.len();
    let mut out: Vec<ExtractionRecord> = Vec::new();
    let mut rest = decoded;
    let mut i: usize = 0;
    while i < n
        invariant
            n == input.len(),
            input == decoded@,
            i <= n,
            rest@ == input.skip(i as int),
            out@.len() == i,
            forall|j: int| 0 <= j < i ==> input[j] is Ok,
            forall|j: int| 0 <= j < i ==> (#[trigger] input[j])->Ok_0.decodes_to(out@[j]),
        decreases n - i,
    {
        let item = rest.remove(0);
        proof {
            assert(item == input[i as int]);
            assert(rest@ =~= input.skip(i + 1));
        }
        match item {
            Ok(o) => {
                out.push(o.into_record());
            },
            Err(m) => {
                proof {
                    assert(input[i as int] == Err::<Output, String>(m));
                    assert(any_failed(input));
                    assert(0 <= i < input.len() && input[i as int] == Err::<Output, String>(m)
                        && forall|j: int| 0 <= j < i ==> input[j] is Ok);
                }
                return Err(ExtractionError::DecodeFailed(m));
            },
        }
        i = i + 1;
    }
    if n == 0 {
        Err(ExtractionError::NoResults(String::from_str(target)))
    } else {
        Ok(out)
    }
}

} // verus!
