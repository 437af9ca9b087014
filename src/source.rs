//! The source descriptor and its lazy resolution.
//!
//! A descriptor starts idle. The first request that needs the extractor gets a
//! run to perform and leaves the descriptor pending; requests meanwhile wait.
//! The run's completion resolves the descriptor, or fails it for good. Metadata,
//! once known, never changes, and at most one stream is ever issued.

use vstd::prelude::*;
use vstd::string::StringExecFns;

use crate::invoke::{texts, ExtractionError, Invocation};
use crate::record::{is_manifest_tag, ExtractionRecord, Metadata, Output, TransportKind};
use crate::text::{decimal, decimal_string, push_char};
use crate::transport::{plan_stream, plans, StreamPlan};

verus! {

broadcast use vstd::seq_lib::group_seq_properties;

/// The extractor run by default.
pub const YOUTUBE_DL_COMMAND: &'static str = "yt-dlp";

/// The format filter: the best audio-only stream of nonzero bitrate, else the best.
pub const FORMAT_FILTER: &'static str = "ba[abr>0][vcodec=none]/best";

/// The scheme of the extractor's search pseudo-URLs.
pub const SEARCH_PREFIX: &'static str = "ytsearch";

/// What a descriptor resolves: a direct URL, or search terms.
#[derive(Debug)]
pub enum QueryType {
    Url(String),
    Search(String),
}

/// Where a descriptor's resolution stands.
#[derive(Debug)]
pub enum Phase {
    /// No run has started.
    Idle,
    /// One run is in flight.
    Pending,
    /// The run succeeded; its first record is kept.
    Resolved(ExtractionRecord),
    /// The run failed; the error is final.
    Failed(ExtractionError),
}

/// The answer to a metadata request.
#[derive(Debug)]
pub enum MetadataStep {
    /// The metadata is known.
    Ready(Metadata),
    /// Resolution failed.
    Failed(ExtractionError),
    /// A run is in flight: wait for its completion, then ask again.
    Wait,
    /// Perform this run, report its completion, then ask again.
    Run(Invocation),
}

/// The answer to a stream request.
#[derive(Debug)]
pub enum StreamStep {
    /// Open this stream; it is the only one the descriptor issues.
    Open(StreamPlan),
    /// Resolution failed, or a stream was already issued.
    Failed(ExtractionError),
    /// A run is in flight: wait for its completion, then ask again.
    Wait,
    /// Perform this run, report its completion, then ask again.
    Run(Invocation),
}

/// One resolvable audio item.
#[derive(Debug)]
pub struct Ytdl {
    program: &'static str,
    client: reqwest::Client,
    metadata: Option<Metadata>,
    user_args: Vec<String>,
    query: QueryType,
    phase: Phase,
    issued: bool,
}

/// Whether `q` is a search (`search`) or a URL whose text is `text`.
pub open spec fn query_is(q: QueryType, search: bool, text: Seq<char>) -> bool {
    match q {
        QueryType::Url(u) => !search && u@ == text,
        QueryType::Search(t) => search && t@ == text,
    }
}

/// The text the extractor is asked about: the URL itself, or the search
/// pseudo-URL `ytsearch<n>:<terms>` for the first `n` matches.
pub open spec fn target_text(q: QueryType, n: nat) -> Seq<char> {
    match q {
        QueryType::Url(u) => u@,
        QueryType::Search(t) => SEARCH_PREFIX@ + decimal(n) + seq![':'] + t@,
    }
}

/// The arguments of a single-item run: structured output, the audio format
/// filter, and no playlist expansion.
pub open spec fn single_args(extra: Seq<Seq<char>>, target: Seq<char>) -> Seq<Seq<char>> {
    extra + seq!["-j"@, target, "-f"@, FORMAT_FILTER@, "--no-playlist"@]
}

/// The arguments of a playlist run: structured output, flat expansion, and the
/// audio format filter.
pub open spec fn playlist_args(url: Seq<char>) -> Seq<Seq<char>> {
    seq!["-j"@, "--flat-playlist"@, url, "-f"@, FORMAT_FILTER@]
}

impl Ytdl {
    /// The metadata known so far.
    pub closed spec fn cached(self) -> Option<Metadata> {
        self.metadata
    }

    /// Where resolution stands.
    pub closed spec fn resolution(self) -> Phase {
        self.phase
    }

    /// What is resolved.
    pub closed spec fn query_kind(self) -> QueryType {
        self.query
    }

    /// The extractor program.
    pub closed spec fn program_name(self) -> Seq<char> {
        self.program@
    }

    /// Arguments passed to the extractor before the fixed ones.
    pub closed spec fn extra_args(self) -> Seq<Seq<char>> {
        texts(self.user_args@)
    }

    /// Whether a stream was issued.
    pub closed spec fn stream_issued(self) -> bool {
        self.issued
    }

    /// The HTTP client the descriptor was given.
    pub closed spec fn handle(self) -> reqwest::Client {
        self.client
    }

    /// Whether two descriptors resolve the same thing in the same way, with the
    /// same client.
    pub open spec fn same_source(self, other: Self) -> bool {
        &&& self.handle() == other.handle()
        &&& self.query_kind() == other.query_kind()
        &&& self.program_name() == other.program_name()
        &&& self.extra_args() == other.extra_args()
    }

    /// Whether this is a fresh descriptor: idle, no stream issued, no extra arguments.
    pub open spec fn fresh(self, program: Seq<char>, search: bool, text: Seq<char>, metadata: Option<Metadata>) -> bool {
        &&& self.program_name() == program
        &&& query_is(self.query_kind(), search, text)
        &&& self.cached() == metadata
        &&& self.resolution() is Idle
        &&& !self.stream_issued()
        &&& self.extra_args() == Seq::<Seq<char>>::empty()
    }

    /// Whether `inv` is this descriptor's run for the first `n` matches.
    pub open spec fn runs(self, inv: Invocation, n: nat) -> bool {
        &&& inv.program@ == self.program_name()
        &&& texts(inv.args@) == single_args(self.extra_args(), target_text(self.query_kind(), n))
        &&& inv.target@ == target_text(self.query_kind(), n)
    }
}

/// Whether `t` is `s` after a run started: pending, all else kept.
pub open spec fn started(s: Ytdl, t: Ytdl) -> bool {
    &&& t.resolution() is Pending
    &&& t.cached() == s.cached()
    &&& t.stream_issued() == s.stream_issued()
    &&& t.same_source(s)
}

/// Whether a step from `s` to `t` starts a run of the extractor.
pub open spec fn starts_run(s: Ytdl, t: Ytdl) -> bool {
    s.resolution() is Idle && t.resolution() is Pending
}

/// One metadata request from `s`, leaving `t`, answered by `r`. Known metadata
/// is answered at once; otherwise an idle descriptor starts the single run, a
/// pending one waits, and a failed one reports its error.
pub open spec fn metadata_request(s: Ytdl, t: Ytdl, r: MetadataStep) -> bool {
    match s.cached() {
        Some(m) => r == MetadataStep::Ready(m) && t == s,
        None => match s.resolution() {
            Phase::Idle => r matches MetadataStep::Run(inv) && s.runs(inv, 1) && started(s, t),
            Phase::Pending => r is Wait && t == s,
            Phase::Resolved(rec) => r == MetadataStep::Ready(rec.metadata) && t == s,
            Phase::Failed(e) => r == MetadataStep::Failed(e) && t == s,
        },
    }
}

/// One stream request from `s`, leaving `t`, answered by `r`. After a stream
/// was issued the request is refused; otherwise an idle descriptor starts the
/// single run, a pending one waits, a failed one reports its error, and a
/// resolved one issues the stream of its record.
pub open spec fn stream_request(s: Ytdl, t: Ytdl, r: StreamStep) -> bool {
    if s.stream_issued() {
        r == StreamStep::Failed(ExtractionError::Unsupported) && t == s
    } else {
        match s.resolution() {
            Phase::Idle => r matches StreamStep::Run(inv) && s.runs(inv, 1) && started(s, t),
            Phase::Pending => r is Wait && t == s,
            Phase::Resolved(rec) => {
                &&& r matches StreamStep::Open(p) && plans(p, rec.source)
                &&& t.stream_issued()
                &&& t.resolution() == s.resolution()
                &&& t.cached() == s.cached()
                &&& t.same_source(s)
            },
            Phase::Failed(e) => r == StreamStep::Failed(e) && t == s,
        }
    }
}

/// The completion of a run, from `s` to `t`, with the decoded records or the
/// error of the run. Only a pending descriptor takes it: the first record
/// resolves it and supplies metadata if none was known; no record fails it with
/// no results; an error fails it.
pub open spec fn completion(s: Ytdl, t: Ytdl, outcome: Result<Vec<ExtractionRecord>, ExtractionError>) -> bool {
    if s.resolution() is Pending {
        &&& t.same_source(s)
        &&& t.stream_issued() == s.stream_issued()
        &&& match outcome {
            Ok(v) => if v@.len() > 0 {
                &&& t.resolution() == Phase::Resolved(v@[0])
                &&& t.cached() == (if s.cached() is Some {
                    s.cached()
                } else {
                    Some(v@[0].metadata)
                })
            } else {
                &&& t.resolution() matches Phase::Failed(ExtractionError::NoResults(q))
                &&& q@ == target_text(s.query_kind(), 1)
                &&& t.cached() == s.cached()
            },
            Err(e) => t.resolution() == Phase::Failed(e) && t.cached() == s.cached(),
        }
    } else {
        t == s
    }
}

/// Builds the search pseudo-URL, or returns the URL.
fn target_for(query: &QueryType, n_results: usize) -> (r: String)
    ensures
        r@ == target_text(*query, n_results as nat),
{
    match query {
        QueryType::Url(u) => u.clone(),
        QueryType::Search(terms) => {
            let mut s = String::from_str(SEARCH_PREFIX);
            let digits = decimal_string(n_results);
            s.append(digits.as_str());
            push_char(&mut s, ':');
            s.append(terms.as_str());
            s
        },
    }
}

/// Pushes a copy of `s` on `v`.
fn push_text(v: &mut Vec<String>, s: &str)
    ensures
        texts(final(v)@) == texts(old(v)@).push(s@),
{
    let ghost before = v@;
    v.push(String::from_str(s));
    proof {
        assert(texts(v@) =~= texts(before).push(s@));
    }
}

impl Ytdl {
    /// A descriptor for `url` whose metadata may already be known.
    pub fn new_custom_meta(metadata: Option<Metadata>, client: reqwest::Client, url: &str) -> (r: Self)
        ensures
            r.fresh(YOUTUBE_DL_COMMAND@, false, url@, metadata),
            r.handle() == client,
    {
        let r = Ytdl {
            program: YOUTUBE_DL_COMMAND,
            client,
            metadata,
            user_args: Vec::new(),
            query: QueryType::Url(String::from_str(url)),
            phase: Phase::Idle,
            issued: false,
        };
        proof {
            assert(texts(r.user_args@) =~= Seq::<Seq<char>>::empty());
        }
        r
    }

    /// A descriptor that resolves `url` with another extractor program.
    pub fn new_ytdl_like(program: &'static str, client: reqwest::Client, url: String) -> (r: Self)
        ensures
            r.fresh(program@, false, url@, None),
            r.handle() == client,
    {
        let r = Ytdl {
            program,
            client,
            metadata: None,
            user_args: Vec::new(),
            query: QueryType::Url(url),
            phase: Phase::Idle,
            issued: false,
        };
        proof {
            assert(texts(r.user_args@) =~= Seq::<Seq<char>>::empty());
        }
        r
    }

    /// A descriptor that resolves `url`.
    pub fn new(client: reqwest::Client, url: String) -> (r: Self)
        ensures
            r.fresh(YOUTUBE_DL_COMMAND@, false, url@, None),
            r.handle() == client,
    {
        Self::new_ytdl_like(YOUTUBE_DL_COMMAND, client, url)
    }

    /// A descriptor that resolves the first match of a search.
    pub fn new_search(client: reqwest::Client, query: String) -> (r: Self)
        ensures
            r.fresh(YOUTUBE_DL_COMMAND@, true, query@, None),
            r.handle() == client,
    {
        Self::new_search_ytdl_like(YOUTUBE_DL_COMMAND, client, query)
    }

    /// A descriptor that resolves a search with another extractor program.
    pub fn new_search_ytdl_like(program: &'static str, client: reqwest::Client, query: String) -> (r: Self)
        ensures
            r.fresh(program@, true, query@, None),
            r.handle() == client,
    {
        let r = Ytdl {
            program,
            client,
            metadata: None,
            user_args: Vec::new(),
            query: QueryType::Search(query),
            phase: Phase::Idle,
            issued: false,
        };
        proof {
            assert(texts(r.user_args@) =~= Seq::<Seq<char>>::empty());
        }
        r
    }

    /// The shared HTTP client, for opening the stream.
    pub fn client(&self) -> (r: &reqwest::Client)
        ensures
            *r == self.handle(),
    {
        &self.client
    }

    /// The run that asks the extractor about the first `n_results` matches.
    pub fn query(&self, n_results: usize) -> (inv: Invocation)
        ensures
            self.runs(inv, n_results as nat),
    {
        let target = target_for(&self.query, n_results);
        let mut args: Vec<String> = Vec::new();
        let n = self.user_args.len();
        proof {
            assert(texts(args@) =~= texts(self.user_args@).take(0));
        }
        for i in 0..n
            invariant
                n == self.user_args@.len(),
                texts(args@) == texts(self.user_args@).take(i as int),
        {
            let ghost before = args@;
            args.push(self.user_args[i].clone());
            proof {
                assert(texts(args@) =~= texts(before).push(self.user_args@[i as int]@));
                assert(texts(self.user_args@).take(i + 1) =~= texts(self.user_args@).take(
                    i as int,
                ).push(self.user_args@[i as int]@));
            }
        }
        push_text(&mut args, "-j");
        push_text(&mut args, target.as_str());
        push_text(&mut args, "-f");
        push_text(&mut args, FORMAT_FILTER);
        push_text(&mut args, "--no-playlist");
        proof {
            assert(texts(self.user_args@).take(n as int) =~= texts(self.user_args@));
            assert(texts(args@) =~= single_args(
                self.extra_args(),
                target_text(self.query, n_results as nat),
            ));
        }
        Invocation { program: String::from_str(self.program), args, target }
    }

    /// Answers a metadata request; see `metadata_request`.
    pub fn aux_metadata(&mut self) -> (r: MetadataStep)
        ensures
            metadata_request(*old(self), *final(self), r),
    {
        if let Some(m) = &self.metadata {
            return MetadataStep::Ready(m.clone());
        }
        match &self.phase {
            Phase::Idle => {
                let inv = self.query(1);
                self.phase = Phase::Pending;
                MetadataStep::Run(inv)
            },
            Phase::Pending => MetadataStep::Wait,
            Phase::Resolved(rec) => MetadataStep::Ready(rec.metadata.clone()),
            Phase::Failed(e) => MetadataStep::Failed(e.clone()),
        }
    }

    /// Answers a stream request; see `stream_request`.
    pub fn create_async(&mut self) -> (r: StreamStep)
        ensures
            stream_request(*old(self), *final(self), r),
    {
        if self.issued {
            return StreamStep::Failed(ExtractionError::Unsupported);
        }
        match &self.phase {
            Phase::Idle => {
                let inv = self.query(1);
                self.phase = Phase::Pending;
                StreamStep::Run(inv)
            },
            Phase::Pending => StreamStep::Wait,
            Phase::Resolved(rec) => {
                let plan = plan_stream(&rec.source);
                self.issued = true;
                StreamStep::Open(plan)
            },
            Phase::Failed(e) => StreamStep::Failed(e.clone()),
        }
    }

    /// A stream cannot be made without the asynchronous run of the extractor.
    pub fn create(&mut self) -> (r: Result<StreamPlan, ExtractionError>)
        ensures
            r matches Err(ExtractionError::Unsupported),
            *final(self) == *old(self),
    {
        Err(ExtractionError::Unsupported)
    }

    /// Streams are always made asynchronously.
    pub fn should_create_async(&self) -> (r: bool)
        ensures
            r,
    {
        true
    }

    /// Takes the completion of the run this descriptor started; see `completion`.
    pub fn finish_query(&mut self, outcome: Result<Vec<ExtractionRecord>, ExtractionError>)
        ensures
            completion(*old(self), *final(self), outcome),
    {
        if !matches!(self.phase, Phase::Pending) {
            return;
        }
        match outcome {
            Ok(mut records) => {
                if records.len() == 0 {
                    let target = target_for(&self.query, 1);
                    self.phase = Phase::Failed(ExtractionError::NoResults(target));
                } else {
                    let first = records.remove(0);
                    if self.metadata.is_none() {
                        self.metadata = Some(first.metadata.clone());
                    }
                    self.phase = Phase::Resolved(first);
                }
            },
            Err(e) => {
                self.phase = Phase::Failed(e);
            },
        }
    }
}

/// The run that lists a playlist in one pass, one record per entry.
pub fn playlist_invocation(url: &str) -> (inv: Invocation)
    ensures
        inv.program@ == YOUTUBE_DL_COMMAND@,
        texts(inv.args@) == playlist_args(url@),
        inv.target@ == url@,
{
    let mut args: Vec<String> = Vec::new();
    proof {
        assert(texts(args@) =~= Seq::<Seq<char>>::empty());
    }
    push_text(&mut args, "-j");
    push_text(&mut args, "--flat-playlist");
    push_text(&mut args, url);
    push_text(&mut args, "-f");
    push_text(&mut args, FORMAT_FILTER);
    proof {
        assert(texts(args@) =~= playlist_args(url@));
    }
    Invocation { program: String::from_str(YOUTUBE_DL_COMMAND), args, target: String::from_str(url) }
}

/// Turns the records of a playlist run into descriptors, one per entry and in
/// the same order, each for the entry's URL with its metadata already known.
pub fn query_playlist(records: Vec<ExtractionRecord>, client: &reqwest::Client) -> (r: Vec<Ytdl>)
    ensures
        r@.len() == records@.len(),
        forall|i: int|
            0 <= i < r@.len() ==> (#[trigger] r@[i]).fresh(
                YOUTUBE_DL_COMMAND@,
                false,
                records@[i].source.url@,
                Some(records@[i].metadata),
            ) && r@[i].handle() == *client,
{
    let ghost input = records@;
    let n = records.len();
    let mut rest = records;
    let mut out: Vec<Ytdl> = Vec::new();
    let mut i: usize = 0;
    while i < n
        invariant
            n == input.len(),
            i <= n,
            rest@ == input.skip(i as int),
            out@.len() == i,
            forall|j: int|
                0 <= j < i ==> (#[trigger] out@[j]).fresh(
                    YOUTUBE_DL_COMMAND@,
                    false,
                    input[j].source.url@,
                    Some(input[j].metadata),
                ) && out@[j].handle() == *client,
        decreases n - i,
    {
        let rec = rest.remove(0);
        proof {
            assert(rec == input[i as int]);
            assert(rest@ =~= input.skip(i + 1));
        }
        let ExtractionRecord { metadata, source } = rec;
        let d = Ytdl::new_ytdl_like(YOUTUBE_DL_COMMAND, client.clone(), source.url);
        let d = Ytdl { metadata: Some(metadata), ..d };
        out.push(d);
        i = i + 1;
    }
    out
}

/// A record tagged `m3u8_native` is streamed from its manifest; a record with
/// any other tag, or none, is streamed over direct HTTP.
pub proof fn lemma_transport_choice(o: Output, r: ExtractionRecord, p: StreamPlan)
    requires
        o.decodes_to(r),
        plans(p, r.source),
    ensures
        is_manifest_tag(o.protocol) ==> p.transport == TransportKind::SegmentedManifest,
        !is_manifest_tag(o.protocol) ==> p.transport == TransportKind::DirectHttp,
{
}

/// Any one step of a descriptor: a metadata request, a stream request, or the
/// completion of a run.
pub open spec fn step(s: Ytdl, t: Ytdl) -> bool {
    ||| exists|r: MetadataStep| metadata_request(s, t, r)
    ||| exists|r: StreamStep| stream_request(s, t, r)
    ||| exists|o: Result<Vec<ExtractionRecord>, ExtractionError>| completion(s, t, o)
}

/// A request is answered with a run exactly when it starts one.
pub proof fn lemma_run_answer(s: Ytdl, t: Ytdl, a: MetadataStep, b: StreamStep)
    ensures
        metadata_request(s, t, a) ==> (a is Run <==> starts_run(s, t)),
        stream_request(s, t, b) ==> (b is Run <==> starts_run(s, t)),
{
}

/// Asking twice for metadata: at most one of the two requests starts a run, a
/// run is followed by a wait, and when the first request answers with metadata
/// the second answers with the same metadata and changes nothing.
pub proof fn lemma_metadata_repeat(s0: Ytdl, s1: Ytdl, s2: Ytdl, a: MetadataStep, b: MetadataStep)
    requires
        metadata_request(s0, s1, a),
        metadata_request(s1, s2, b),
    ensures
        !(starts_run(s0, s1) && starts_run(s1, s2)),
        a is Run ==> b is Wait && s2 == s1,
        a is Ready ==> b == a && s1 == s0 && s2 == s1,
{
}

/// Concurrent metadata requests on an unresolved descriptor: the first starts
/// the one run, and a request made while it is in flight waits and changes
/// nothing.
pub proof fn lemma_single_flight(s0: Ytdl, s1: Ytdl, s2: Ytdl, a: MetadataStep, b: MetadataStep)
    requires
        s0.cached() is None,
        s0.resolution() is Idle,
        metadata_request(s0, s1, a),
        metadata_request(s1, s2, b),
    ensures
        a is Run,
        starts_run(s0, s1),
        b is Wait,
        s2 == s1,
{
}

/// Once the run of an unresolved descriptor completes, every metadata request
/// gets one and the same answer, the metadata of the first record or the error,
/// and none starts another run.
pub proof fn lemma_shared_outcome(
    s0: Ytdl,
    s1: Ytdl,
    o: Result<Vec<ExtractionRecord>, ExtractionError>,
    s2: Ytdl,
    a: MetadataStep,
    s3: Ytdl,
    b: MetadataStep,
)
    requires
        s0.resolution() is Pending,
        s0.cached() is None,
        completion(s0, s1, o),
        metadata_request(s1, s2, a),
        metadata_request(s2, s3, b),
    ensures
        b == a,
        s2 == s1,
        s3 == s2,
        o matches Ok(v) ==> (if v@.len() > 0 {
            a == MetadataStep::Ready(v@[0].metadata)
        } else {
            a matches MetadataStep::Failed(ExtractionError::NoResults(_))
        }),
        o matches Err(e) ==> a == MetadataStep::Failed(e),
{
}

proof fn lemma_step_keeps_started(s: Ytdl, t: Ytdl)
    requires
        step(s, t),
        !(s.resolution() is Idle),
    ensures
        !(t.resolution() is Idle),
{
}

proof fn lemma_never_idle_again(trace: Seq<Ytdl>, i: int, k: int)
    requires
        forall|m: int| 0 <= m < trace.len() - 1 ==> #[trigger] step(trace[m], trace[m + 1]),
        0 <= i <= k < trace.len(),
        !(trace[i].resolution() is Idle),
    ensures
        !(trace[k].resolution() is Idle),
    decreases k - i,
{
    if k > i {
        lemma_never_idle_again(trace, i, k - 1);
        assert(step(trace[k - 1], trace[(k - 1) + 1]));
        lemma_step_keeps_started(trace[k - 1], trace[k]);
    }
}

/// Over any sequence of steps of one descriptor, at most one step starts a run
/// of the extractor.
pub proof fn lemma_at_most_one_run(trace: Seq<Ytdl>, i: int, j: int)
    requires
        forall|m: int| 0 <= m < trace.len() - 1 ==> #[trigger] step(trace[m], trace[m + 1]),
        0 <= i < j,
        j + 1 < trace.len(),
        starts_run(trace[i], trace[i + 1]),
    ensures
        !starts_run(trace[j], trace[j + 1]),
{
    lemma_never_idle_again(trace, i + 1, j);
}

/// The descriptors of a playlist answer metadata requests at once, each with the
/// metadata of its own record, and never run the extractor for them.
pub proof fn lemma_playlist_seeded(
    records: Seq<ExtractionRecord>,
    descs: Seq<Ytdl>,
    i: int,
    t: Ytdl,
    r: MetadataStep,
)
    requires
        descs.len() == records.len(),
        forall|k: int|
            0 <= k < descs.len() ==> (#[trigger] descs[k]).fresh(
                YOUTUBE_DL_COMMAND@,
                false,
                records[k].source.url@,
                Some(records[k].metadata),
            ),
        0 <= i < descs.len(),
        metadata_request(descs[i], t, r),
    ensures
        r == MetadataStep::Ready(records[i].metadata),
        t == descs[i],
        !starts_run(descs[i], t),
{
    assert(descs[i].cached() == Some(records[i].metadata));
}

} // verus!
