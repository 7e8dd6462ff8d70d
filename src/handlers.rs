//! The binary cache protocol handlers, as decisions on the cache's state.
//!
//! A request that needs the blob backend is handled in two calls: the first
//! says which key to read or write, the caller does the I/O, and the second
//! takes its outcome and gives the answer. Neither call waits on anything, so
//! a caller that guards the state with a lock holds it only for the call.

use vstd::prelude::*;
use vstd::string::*;
use crate::error::Error;
use crate::paths::{joined, narinfo_hash, narinfo_hash_of, narinfo_key, narinfo_key_of, redirect_url};
use crate::string_set::StringSet;

verus! {

/// The counters that the handlers increment.
#[derive(Clone, Copy, Debug, PartialEq, Eq, Structural)]
pub struct Metrics {
    pub narinfos_served: u64,
    pub narinfos_sent_upstream: u64,
    pub narinfos_negative_cache_hits: u64,
    pub narinfos_negative_cache_misses: u64,
    pub narinfos_uploaded: u64,
    pub nars_served: u64,
    pub nars_sent_upstream: u64,
    pub nars_uploaded: u64,
}

/// A counter after one increment; it wraps around at the top.
pub open spec fn bumped(x: u64) -> u64 {
    if x == u64::MAX {
        0
    } else {
        (x + 1) as u64
    }
}

fn bump(x: &mut u64)
    ensures
        *final(x) == bumped(*old(x)),
{
    *x = if *x == u64::MAX {
        0
    } else {
        *x + 1
    };
}

impl Metrics {
    /// All counters at zero.
    pub fn new() -> (r: Metrics)
        ensures
            r == Metrics::zero(),
    {
        Metrics {
            narinfos_served: 0,
            narinfos_sent_upstream: 0,
            narinfos_negative_cache_hits: 0,
            narinfos_negative_cache_misses: 0,
            narinfos_uploaded: 0,
            nars_served: 0,
            nars_sent_upstream: 0,
            nars_uploaded: 0,
        }
    }

    /// The worker uploaded a payload.
    pub fn count_nar_upload(&mut self)
        ensures
            *final(self) == (Metrics { nars_uploaded: bumped(old(self).nars_uploaded), ..*old(self) }),
    {
        bump(&mut self.nars_uploaded);
    }

    /// The worker uploaded a narinfo record.
    pub fn count_narinfo_upload(&mut self)
        ensures
            *final(self) == (Metrics { narinfos_uploaded: bumped(old(self).narinfos_uploaded), ..*old(self) }),
    {
        bump(&mut self.narinfos_uploaded);
    }

    pub open spec fn zero() -> Metrics {
        Metrics {
            narinfos_served: 0,
            narinfos_sent_upstream: 0,
            narinfos_negative_cache_hits: 0,
            narinfos_negative_cache_misses: 0,
            narinfos_uploaded: 0,
            nars_served: 0,
            nars_sent_upstream: 0,
            nars_uploaded: 0,
        }
    }
}

/// What a request is answered with when it succeeds.
#[derive(Debug, PartialEq, Eq)]
pub enum Reply {
    /// These bytes, with a success status.
    Content(Vec<u8>),
    /// The backend object that the caller opened, streamed back.
    Stream,
    /// A temporary redirect to this URL.
    Redirect(String),
    /// An empty success.
    Done,
}

pub enum ReplyView {
    Content(Seq<u8>),
    Stream,
    Redirect(Seq<char>),
    Done,
}

impl View for Reply {
    type V = ReplyView;

    open spec fn view(&self) -> ReplyView {
        match self {
            Reply::Content(b) => ReplyView::Content(b@),
            Reply::Stream => ReplyView::Stream,
            Reply::Redirect(u) => ReplyView::Redirect(u@),
            Reply::Done => ReplyView::Done,
        }
    }
}

/// What a handler asks of its caller next.
#[derive(Debug, PartialEq, Eq)]
pub enum Step {
    /// Answer the request.
    Answer(Result<Reply, Error>),
    /// Read this key from the blob backend, then hand over what came back.
    Read(String),
    /// Write the request body to this key of the blob backend, then hand
    /// over the outcome.
    Write(String),
}

pub enum StepView {
    Answer(Result<ReplyView, Error>),
    Read(Seq<char>),
    Write(Seq<char>),
}

pub open spec fn answer_view(r: Result<Reply, Error>) -> Result<ReplyView, Error> {
    match r {
        Ok(reply) => Ok(reply@),
        Err(e) => Err(e),
    }
}

impl View for Step {
    type V = StepView;

    open spec fn view(&self) -> StepView {
        match self {
            Step::Answer(r) => StepView::Answer(answer_view(*r)),
            Step::Read(k) => StepView::Read(k@),
            Step::Write(k) => StepView::Write(k@),
        }
    }
}

/// The state that the handlers share.
pub struct BinaryCache {
    /// Hashes whose narinfo the blob backend was last seen not to hold.
    pub negative_cache: StringSet,
    /// Base URL of the upstream binary cache, if there is one.
    pub upstream: Option<String>,
    /// Whether a blob backend is configured.
    pub backend_enabled: bool,
    pub metrics: Metrics,
}

/// The state of the handlers, as values.
pub struct CacheModel {
    pub negative: Set<Seq<char>>,
    pub upstream: Option<Seq<char>>,
    pub backend_enabled: bool,
    pub metrics: Metrics,
}

pub open spec fn opt_view(o: Option<String>) -> Option<Seq<char>> {
    match o {
        Some(s) => Some(s@),
        None => None,
    }
}

impl View for BinaryCache {
    type V = CacheModel;

    open spec fn view(&self) -> CacheModel {
        CacheModel {
            negative: self.negative_cache@,
            upstream: opt_view(self.upstream),
            backend_enabled: self.backend_enabled,
            metrics: self.metrics,
        }
    }
}

/// The fallback for an object that the backend lacks: a redirect to
/// `{upstream}/{path}`, or not found without an upstream.
pub open spec fn pull_through_spec(upstream: Option<Seq<char>>, path: Seq<char>) -> Result<ReplyView, Error> {
    match upstream {
        Some(u) => Ok(ReplyView::Redirect(joined(u, path))),
        None => Err(Error::NotFound),
    }
}

/// A narinfo lookup that the backend missed: the hash enters the negative
/// cache and the request goes upstream.
pub open spec fn narinfo_missed(s: CacheModel, hash: Seq<char>, path: Seq<char>) -> (CacheModel, Result<ReplyView, Error>) {
    (
        CacheModel {
            negative: s.negative.insert(hash),
            metrics: Metrics {
                narinfos_sent_upstream: bumped(s.metrics.narinfos_sent_upstream),
                narinfos_negative_cache_misses: bumped(s.metrics.narinfos_negative_cache_misses),
                ..s.metrics
            },
            ..s
        },
        pull_through_spec(s.upstream, path),
    )
}

/// `GET /{path}` for a narinfo, first call.
pub open spec fn get_narinfo_spec(s: CacheModel, path: Seq<char>) -> (CacheModel, StepView) {
    match narinfo_hash_of(path) {
        None => (s, StepView::Answer(Err(Error::BadRequest))),
        Some(h) => if s.negative.contains(h) {
            (
                CacheModel {
                    metrics: Metrics {
                        narinfos_sent_upstream: bumped(s.metrics.narinfos_sent_upstream),
                        narinfos_negative_cache_hits: bumped(s.metrics.narinfos_negative_cache_hits),
                        ..s.metrics
                    },
                    ..s
                },
                StepView::Answer(pull_through_spec(s.upstream, path)),
            )
        } else if s.backend_enabled {
            (s, StepView::Read(narinfo_key_of(h)))
        } else {
            let (t, a) = narinfo_missed(s, h, path);
            (t, StepView::Answer(a))
        },
    }
}

/// `GET /{path}` for a narinfo, after the backend read: `found` is what it
/// returned, `None` on a miss or failure.
pub open spec fn got_narinfo_spec(s: CacheModel, path: Seq<char>, found: Option<Seq<u8>>) -> (CacheModel, Result<ReplyView, Error>) {
    match narinfo_hash_of(path) {
        None => (s, Err(Error::BadRequest)),
        Some(h) => match found {
            Some(b) => (
                CacheModel {
                    metrics: Metrics { narinfos_served: bumped(s.metrics.narinfos_served), ..s.metrics },
                    ..s
                },
                Ok(ReplyView::Content(b)),
            ),
            None => narinfo_missed(s, h, path),
        },
    }
}

/// `PUT /{path}` for a narinfo, first call.
pub open spec fn put_narinfo_spec(s: CacheModel, path: Seq<char>) -> StepView {
    match narinfo_hash_of(path) {
        None => StepView::Answer(Err(Error::BadRequest)),
        Some(h) => if !s.backend_enabled {
            StepView::Answer(Err(Error::GHADisabled))
        } else {
            StepView::Write(narinfo_key_of(h))
        },
    }
}

/// `PUT /{path}` for a narinfo, after the backend write.
pub open spec fn put_narinfo_done_spec(s: CacheModel, path: Seq<char>, outcome: Result<(), Error>) -> (CacheModel, Result<ReplyView, Error>) {
    match narinfo_hash_of(path) {
        None => (s, Err(Error::BadRequest)),
        Some(h) => match outcome {
            Ok(_) => (
                CacheModel {
                    negative: s.negative.remove(h),
                    metrics: Metrics { narinfos_uploaded: bumped(s.metrics.narinfos_uploaded), ..s.metrics },
                    ..s
                },
                Ok(ReplyView::Done),
            ),
            Err(e) => (s, Err(e)),
        },
    }
}

/// `GET /nar/{key}`, after the backend was asked for `key` (never asked
/// without a backend): `found` says whether it holds it.
pub open spec fn got_nar_spec(s: CacheModel, key: Seq<char>, found: bool) -> (CacheModel, Result<ReplyView, Error>) {
    if found && s.backend_enabled {
        (
            CacheModel { metrics: Metrics { nars_served: bumped(s.metrics.nars_served), ..s.metrics }, ..s },
            Ok(ReplyView::Stream),
        )
    } else {
        match s.upstream {
            Some(u) => (
                CacheModel {
                    metrics: Metrics { nars_sent_upstream: bumped(s.metrics.nars_sent_upstream), ..s.metrics },
                    ..s
                },
                Ok(ReplyView::Redirect(joined(u, "nar"@ + seq!['/'] + key))),
            ),
            None => (s, Err(Error::NotFound)),
        }
    }
}

/// `GET /nar/{key}`, first call: the backend read of `key`, or, without a
/// backend, the answer for a miss.
pub open spec fn get_nar_spec(s: CacheModel, key: Seq<char>) -> (CacheModel, StepView) {
    if s.backend_enabled {
        (s, StepView::Read(key))
    } else {
        let (t, a) = got_nar_spec(s, key, false);
        (t, StepView::Answer(a))
    }
}

/// `PUT /nar/{key}`, first call.
pub open spec fn put_nar_spec(s: CacheModel, key: Seq<char>) -> StepView {
    if !s.backend_enabled {
        StepView::Answer(Err(Error::GHADisabled))
    } else {
        StepView::Write(key)
    }
}

/// `PUT /nar/{key}`, after the backend write.
pub open spec fn put_nar_done_spec(s: CacheModel, outcome: Result<(), Error>) -> (CacheModel, Result<ReplyView, Error>) {
    match outcome {
        Ok(_) => (
            CacheModel { metrics: Metrics { nars_uploaded: bumped(s.metrics.nars_uploaded), ..s.metrics }, ..s },
            Ok(ReplyView::Done),
        ),
        Err(e) => (s, Err(e)),
    }
}

/// The capability descriptor served at `/nix-cache-info`.
pub open spec fn cache_info_text() -> Seq<char> {
    "WantMassQuery: 1\nStoreDir: /nix/store\nPriority: 41\n"@
}

/// The body of `GET /nix-cache-info`.
pub fn get_nix_cache_info() -> (r: String)
    ensures
        r@ == cache_info_text(),
{
    String::from_str("WantMassQuery: 1\nStoreDir: /nix/store\nPriority: 41\n")
}

impl BinaryCache {
    /// A cache with an empty negative cache and all counters at zero.
    pub fn new(upstream: Option<String>, backend_enabled: bool) -> (r: BinaryCache)
        ensures
            r@.negative == Set::<Seq<char>>::empty(),
            r@.upstream == opt_view(upstream),
            r@.backend_enabled == backend_enabled,
            r@.metrics == Metrics::zero(),
    {
        BinaryCache { negative_cache: StringSet::new(), upstream, backend_enabled, metrics: Metrics::new() }
    }

    /// The fallback for a missing object: a redirect to `{upstream}/{path}`,
    /// or not found when there is no upstream.
    pub fn pull_through(&self, path: &str) -> (r: Result<Reply, Error>)
        ensures
            answer_view(r) == pull_through_spec(self@.upstream, path@),
    {
        match &self.upstream {
            Some(u) => Ok(Reply::Redirect(redirect_url(u.as_str(), path))),
            None => Err(Error::NotFound),
        }
    }

    fn narinfo_miss(&mut self, hash: String, path: &str) -> (r: Result<Reply, Error>)
        ensures
            (final(self)@, answer_view(r)) == narinfo_missed(old(self)@, hash@, path@),
    {
        self.negative_cache.insert(hash);
        bump(&mut self.metrics.narinfos_sent_upstream);
        bump(&mut self.metrics.narinfos_negative_cache_misses);
        self.pull_through(path)
    }

    /// `GET /{path}` for a narinfo: answers at once when the path is
    /// malformed, when the negative cache holds its hash, or when there is no
    /// backend; else asks for the backend read of `{hash}.narinfo`.
    pub fn get_narinfo(&mut self, path: &str) -> (r: Step)
        ensures
            (final(self)@, r@) == get_narinfo_spec(old(self)@, path@),
    {
        match narinfo_hash(path) {
            None => Step::Answer(Err(Error::BadRequest)),
            Some(h) => {
                if self.negative_cache.contains(&h) {
                    bump(&mut self.metrics.narinfos_sent_upstream);
                    bump(&mut self.metrics.narinfos_negative_cache_hits);
                    Step::Answer(self.pull_through(path))
                } else if self.backend_enabled {
                    Step::Read(narinfo_key(h.as_str()))
                } else {
                    Step::Answer(self.narinfo_miss(h, path))
                }
            },
        }
    }

    /// `GET /{path}` for a narinfo, once the backend read is done: `found` is
    /// the bytes it returned, `None` on a miss or a failure. The bytes are
    /// served as they are; a miss puts the hash in the negative cache.
    pub fn got_narinfo(&mut self, path: &str, found: Option<Vec<u8>>) -> (r: Result<Reply, Error>)
        ensures
            (final(self)@, answer_view(r)) == got_narinfo_spec(
                old(self)@,
                path@,
                match found {
                    Some(b) => Some(b@),
                    None => None,
                },
            ),
    {
        match narinfo_hash(path) {
            None => Err(Error::BadRequest),
            Some(h) => match found {
                Some(b) => {
                    bump(&mut self.metrics.narinfos_served);
                    Ok(Reply::Content(b))
                },
                None => self.narinfo_miss(h, path),
            },
        }
    }

    /// `PUT /{path}` for a narinfo: refuses a malformed path, then a cache
    /// without backend; else asks for the body to be written to
    /// `{hash}.narinfo`.
    pub fn put_narinfo(&self, path: &str) -> (r: Step)
        ensures
            r@ == put_narinfo_spec(self@, path@),
    {
        match narinfo_hash(path) {
            None => Step::Answer(Err(Error::BadRequest)),
            Some(h) => {
                if !self.backend_enabled {
                    Step::Answer(Err(Error::GHADisabled))
                } else {
                    Step::Write(narinfo_key(h.as_str()))
                }
            },
        }
    }

    /// `PUT /{path}` for a narinfo, once the write is done: on success the
    /// hash leaves the negative cache.
    pub fn put_narinfo_done(&mut self, path: &str, outcome: Result<(), Error>) -> (r: Result<Reply, Error>)
        ensures
            (final(self)@, answer_view(r)) == put_narinfo_done_spec(old(self)@, path@, outcome),
    {
        match narinfo_hash(path) {
            None => Err(Error::BadRequest),
            Some(h) => match outcome {
                Ok(()) => {
                    bump(&mut self.metrics.narinfos_uploaded);
                    self.negative_cache.remove(&h);
                    Ok(Reply::Done)
                },
                Err(e) => Err(e),
            },
        }
    }

    /// `GET /nar/{key}`, first call: the backend read of `key`, or, without
    /// a backend, the answer for a miss.
    pub fn get_nar(&mut self, key: &str) -> (r: Step)
        ensures
            (final(self)@, r@) == get_nar_spec(old(self)@, key@),
    {
        if self.backend_enabled {
            Step::Read(String::from_str(key))
        } else {
            Step::Answer(self.got_nar(key, false))
        }
    }

    /// `GET /nar/{key}`, once the backend was asked: `found` says whether it
    /// holds `key`. A hit is streamed back; a miss goes to
    /// `{upstream}/nar/{key}`, or is not found.
    pub fn got_nar(&mut self, key: &str, found: bool) -> (r: Result<Reply, Error>)
        ensures
            (final(self)@, answer_view(r)) == got_nar_spec(old(self)@, key@, found),
    {
        if found && self.backend_enabled {
            bump(&mut self.metrics.nars_served);
            Ok(Reply::Stream)
        } else {
            match &self.upstream {
                Some(u) => {
                    bump(&mut self.metrics.nars_sent_upstream);
                    proof {
                        reveal_strlit("nar/");
                        reveal_strlit("nar");
                        assert("nar/"@ + key@ =~= "nar"@ + seq!['/'] + key@);
                    }
                    let p = String::from_str("nar/").concat(key);
                    Ok(Reply::Redirect(redirect_url(u.as_str(), p.as_str())))
                },
                None => Err(Error::NotFound),
            }
        }
    }

    /// `PUT /nar/{key}`, first call: refuses a cache without backend, else
    /// asks for the body to be written to `key`.
    pub fn put_nar(&self, key: &str) -> (r: Step)
        ensures
            r@ == put_nar_spec(self@, key@),
    {
        if !self.backend_enabled {
            Step::Answer(Err(Error::GHADisabled))
        } else {
            Step::Write(String::from_str(key))
        }
    }

    /// `PUT /nar/{key}`, once the write is done.
    pub fn put_nar_done(&mut self, outcome: Result<(), Error>) -> (r: Result<Reply, Error>)
        ensures
            (final(self)@, answer_view(r)) == put_nar_done_spec(old(self)@, outcome),
    {
        match outcome {
            Ok(()) => {
                bump(&mut self.metrics.nars_uploaded);
                Ok(Reply::Done)
            },
            Err(e) => Err(e),
        }
    }
}

/// A malformed narinfo path (no `.`, or a suffix other than `narinfo`) is
/// refused as a bad request by GET and PUT, before the backend is asked for
/// anything, and leaves the state as it was.
pub proof fn lemma_malformed_path_refused(s: CacheModel, path: Seq<char>, found: Option<Seq<u8>>, outcome: Result<(), Error>)
    requires
        narinfo_hash_of(path) is None,
    ensures
        get_narinfo_spec(s, path) == (s, StepView::Answer(Err(Error::BadRequest))),
        got_narinfo_spec(s, path, found) == (s, Err::<ReplyView, Error>(Error::BadRequest)),
        put_narinfo_spec(s, path) == StepView::Answer(Err(Error::BadRequest)),
        put_narinfo_done_spec(s, path, outcome) == (s, Err::<ReplyView, Error>(Error::BadRequest)),
{
}

/// After a narinfo GET that ends without a backend hit the hash is in the
/// negative cache; after a successful narinfo PUT it is not.
pub proof fn lemma_negative_cache(s: CacheModel, path: Seq<char>)
    requires
        narinfo_hash_of(path) is Some,
    ensures
        got_narinfo_spec(s, path, None).0.negative.contains(narinfo_hash_of(path)->0),
        !(get_narinfo_spec(s, path).1 is Read) ==> get_narinfo_spec(s, path).0.negative.contains(
            narinfo_hash_of(path)->0,
        ),
        !put_narinfo_done_spec(s, path, Ok(())).0.negative.contains(narinfo_hash_of(path)->0),
{
}

/// Without an upstream, a lookup that the backend misses is not found, never
/// redirected, for narinfos and nars alike.
pub proof fn lemma_no_upstream_not_found(s: CacheModel, path: Seq<char>, key: Seq<char>)
    requires
        s.upstream is None,
    ensures
        narinfo_hash_of(path) is Some ==> got_narinfo_spec(s, path, None).1 == Err::<ReplyView, Error>(Error::NotFound),
        get_narinfo_spec(s, path).1 matches StepView::Answer(a) ==> a is Err,
        got_nar_spec(s, key, false).1 == Err::<ReplyView, Error>(Error::NotFound),
{
}

/// A narinfo PUT followed by a GET of the same path: the GET reads the very
/// key that the PUT wrote, since the PUT cleared the hash from the negative
/// cache, and serves what it read byte for byte.
pub proof fn lemma_narinfo_round_trip(s: CacheModel, path: Seq<char>, body: Seq<u8>)
    requires
        narinfo_hash_of(path) is Some,
        s.backend_enabled,
    ensures
        ({
            let written = put_narinfo_spec(s, path);
            let s1 = put_narinfo_done_spec(s, path, Ok(())).0;
            let (s2, read) = get_narinfo_spec(s1, path);
            &&& written == StepView::Write(narinfo_key_of(narinfo_hash_of(path)->0))
            &&& read == StepView::Read(narinfo_key_of(narinfo_hash_of(path)->0))
            &&& got_narinfo_spec(s2, path, Some(body)).1 == Ok::<ReplyView, Error>(ReplyView::Content(body))
        }),
{
}

/// A nar PUT followed by a GET of the same key: the PUT writes `key` and
/// counts one upload, the GET reads that same key and streams back what the
/// backend holds there, counting one nar served and redirecting nothing.
pub proof fn lemma_nar_round_trip(s: CacheModel, key: Seq<char>)
    requires
        s.backend_enabled,
    ensures
        ({
            let written = put_nar_spec(s, key);
            let s1 = put_nar_done_spec(s, Ok(())).0;
            let (s2, read) = get_nar_spec(s1, key);
            let (s3, answer) = got_nar_spec(s2, key, true);
            &&& written == StepView::Write(key)
            &&& s1.metrics == (Metrics { nars_uploaded: bumped(s.metrics.nars_uploaded), ..s.metrics })
            &&& read == StepView::Read(key)
            &&& answer == Ok::<ReplyView, Error>(ReplyView::Stream)
            &&& s3.metrics == (Metrics { nars_served: bumped(s1.metrics.nars_served), ..s1.metrics })
        }),
{
}

/// A narinfo that the backend misses is redirected upstream, and a second
/// GET of it is redirected the same way at once, from the negative cache,
/// without a backend read.
pub proof fn lemma_miss_then_negative_hit(s: CacheModel, path: Seq<char>, u: Seq<char>)
    requires
        narinfo_hash_of(path) is Some,
        s.upstream == Some(u),
    ensures
        ({
            let s1 = got_narinfo_spec(s, path, None);
            let (s2, second) = get_narinfo_spec(s1.0, path);
            &&& s1.1 == Ok::<ReplyView, Error>(ReplyView::Redirect(joined(u, path)))
            &&& second == StepView::Answer(Ok(ReplyView::Redirect(joined(u, path))))
            &&& s2.metrics.narinfos_negative_cache_hits == bumped(s1.0.metrics.narinfos_negative_cache_hits)
            &&& s2.negative == s1.0.negative
        }),
{
}

} // verus!
