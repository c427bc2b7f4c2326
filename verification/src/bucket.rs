//! A bucket, and the upload endpoint that is leased for it.
//!
//! The service hands out an upload endpoint (an address and a token) per
//! bucket. Such a lease is kept with the time at which it was issued, and used
//! only while it is younger than a fixed window. An older or absent lease is
//! replaced before use.

pub mod list;

pub use self::list::{
    ListBucketsBuckets, ListBucketsBuilder, ListBucketsFilters, ListBucketsRequest,
    ListBucketsRequestView, ListBucketsResponse,
};

use crate::error::Error;
use crate::file::ListFileNamesBuilder;
use vstd::prelude::*;

verus! {

/// How long a lease may be used after it was issued: 24 hours, in milliseconds.
pub const LEASE_TTL_MS: i64 = 86_400_000;

/// A leased upload endpoint: where to send content, the token that goes with
/// it, and when the lease was issued (milliseconds since the epoch).
#[derive(Debug)]
pub struct UploadUrlInner {
    pub url: String,
    pub token: String,
    pub generated_at: i64,
}

/// A lease as plain values.
pub struct UploadUrlInnerView {
    pub url: Seq<char>,
    pub token: Seq<char>,
    pub generated_at: i64,
}

impl View for UploadUrlInner {
    type V = UploadUrlInnerView;

    open spec fn view(&self) -> UploadUrlInnerView {
        UploadUrlInnerView { url: self.url@, token: self.token@, generated_at: self.generated_at }
    }
}

impl Clone for UploadUrlInner {
    fn clone(&self) -> (copy: UploadUrlInner)
        ensures
            copy@ == self@,
    {
        UploadUrlInner {
            url: self.url.clone(),
            token: self.token.clone(),
            generated_at: self.generated_at,
        }
    }
}

/// The view of a lease that may be absent.
pub open spec fn lease_view(lease: Option<UploadUrlInner>) -> Option<UploadUrlInnerView> {
    match lease {
        Some(l) => Some(l@),
        None => None,
    }
}

/// A lease is usable at `now` while less than the window has passed since it
/// was issued.
pub open spec fn is_fresh(lease: UploadUrlInnerView, now: i64) -> bool {
    now - lease.generated_at < LEASE_TTL_MS
}

/// The lease to use at `now` out of what is cached: the cached lease if there
/// is one and it is usable, and none otherwise.
pub open spec fn usable_lease(
    cached: Option<UploadUrlInnerView>,
    now: i64,
) -> Option<UploadUrlInnerView> {
    match cached {
        Some(lease) => if is_fresh(lease, now) {
            Some(lease)
        } else {
            None
        },
        None => None,
    }
}

/// The window of a lease: a lease that was issued at `t` is the one to use at
/// `now` while `now - t` is below 86,400,000 milliseconds, and is not to be
/// used from then on.
pub proof fn lemma_lease_window(lease: UploadUrlInnerView, now: i64)
    ensures
        now - lease.generated_at < 86_400_000 ==> usable_lease(Some(lease), now) == Some(lease),
        now - lease.generated_at >= 86_400_000 ==> usable_lease(Some(lease), now) is None,
        usable_lease(None, now) is None,
{
}

/// What the service answers when asked for an upload endpoint.
#[derive(Debug)]
pub struct GetUploadUrlResponse {
    pub upload_url: String,
    pub authorization_token: String,
}

/// The lease that an answer of the service makes when it arrives at `now`.
pub open spec fn lease_of_response(res: GetUploadUrlResponse, now: i64) -> UploadUrlInnerView {
    UploadUrlInnerView { url: res.upload_url@, token: res.authorization_token@, generated_at: now }
}

/// What the service answers to an upload, and how it describes a file in a listing.
#[derive(Debug)]
pub struct UploadFileResponse {
    pub account_id: String,
    pub bucket_id: String,
    pub content_length: usize,
    pub content_sha1: Option<String>,
    pub content_md5: Option<String>,
    pub content_type: Option<String>,
    pub file_id: String,
    pub file_name: String,
    pub upload_timestamp: i64,
}

/// The place where a bucket keeps its lease. There is one such place per
/// bucket and it is not copied: whoever shares a bucket shares this place.
#[derive(Debug)]
pub struct UploadUrl {
    inner: Option<UploadUrlInner>,
}

impl View for UploadUrl {
    type V = Option<UploadUrlInnerView>;

    closed spec fn view(&self) -> Option<UploadUrlInnerView> {
        lease_view(self.inner)
    }
}

impl UploadUrl {
    /// A place with no lease in it.
    pub fn new() -> (empty: UploadUrl)
        ensures
            empty@ is None,
    {
        UploadUrl { inner: None }
    }

    /// The lease that is kept, if any.
    pub fn get(&self) -> (lease: Option<UploadUrlInner>)
        ensures
            lease_view(lease) == self@,
    {
        match &self.inner {
            Some(l) => Some(l.clone()),
            None => None,
        }
    }

    /// Keeps the given lease in place of whatever was kept, and hands it back.
    pub fn set(&mut self, inner: UploadUrlInner) -> (kept: UploadUrlInner)
        ensures
            final(self)@ == Some(inner@),
            kept@ == inner@,
    {
        self.inner = Some(inner.clone());
        inner
    }
}

impl Default for UploadUrl {
    fn default() -> (empty: UploadUrl)
        ensures
            empty@ is None,
    {
        UploadUrl::new()
    }
}

/// What to do about the lease before an upload.
#[derive(Debug)]
pub enum LeaseStep {
    /// The cached lease is usable: upload with it, and ask the service nothing.
    Reuse(UploadUrlInner),
    /// No usable lease is cached: ask the service for a new one.
    Refresh,
}

impl LeaseStep {
    /// The lease to reuse, if the step is to reuse one.
    pub open spec fn reused(self) -> Option<UploadUrlInnerView> {
        match self {
            LeaseStep::Reuse(lease) => Some(lease@),
            LeaseStep::Refresh => None,
        }
    }
}

/// A bucket of the account, with the lease that is cached for it. The value
/// is not copied: whoever shares a bucket shares its lease.
#[derive(Debug)]
pub struct Bucket {
    id: String,
    name: String,
    upload_url: UploadUrl,
}

/// A bucket as plain values.
pub struct BucketView {
    pub id: Seq<char>,
    pub name: Seq<char>,
    pub upload_url: Option<UploadUrlInnerView>,
}

impl View for Bucket {
    type V = BucketView;

    closed spec fn view(&self) -> BucketView {
        BucketView { id: self.id@, name: self.name@, upload_url: self.upload_url@ }
    }
}

/// The bucket that an entry of a bucket listing describes. It has no lease yet.
pub open spec fn bucket_of_entry(entry: ListBucketsBuckets) -> BucketView {
    BucketView { id: entry.bucket_id@, name: entry.bucket_name@, upload_url: None }
}

impl Bucket {
    pub fn id(&self) -> (id: &str)
        ensures
            id@ == self@.id,
    {
        self.id.as_str()
    }

    pub fn name(&self) -> (name: &str)
        ensures
            name@ == self@.name,
    {
        self.name.as_str()
    }

    /// The lease that the bucket keeps, whether usable or not.
    pub fn upload_url(&self) -> (lease: Option<UploadUrlInner>)
        ensures
            lease_view(lease) == self@.upload_url,
    {
        self.upload_url.get()
    }

    /// Decides at `now` whether the cached lease can serve an upload. It can
    /// exactly when there is one and less than the window has passed since it
    /// was issued. The bucket is left as it is.
    pub fn get_or_try_get_upload_url(&self, now: i64) -> (step: LeaseStep)
        ensures
            step.reused() == usable_lease(self@.upload_url, now),
            step matches LeaseStep::Reuse(lease) ==> is_fresh(lease@, now),
    {
        match self.upload_url.get() {
            Some(inner) => {
                if (now as i128) - (inner.generated_at as i128) < (LEASE_TTL_MS as i128) {
                    LeaseStep::Reuse(inner)
                } else {
                    LeaseStep::Refresh
                }
            },
            None => LeaseStep::Refresh,
        }
    }

    /// Takes in the outcome of asking the service for an upload endpoint at
    /// `now`. An answer becomes the bucket's lease, issued at `now`, in place of
    /// any earlier one, and is handed back. A failure is handed back as it
    /// came, and the bucket keeps what it had.
    pub fn get_upload_url(&mut self, now: i64, outcome: Result<GetUploadUrlResponse, Error>) -> (lease:
        Result<UploadUrlInner, Error>)
        ensures
            match outcome {
                Ok(res) => {
                    &&& lease is Ok
                    &&& lease->Ok_0@ == lease_of_response(res, now)
                    &&& is_fresh(lease->Ok_0@, now)
                    &&& final(self)@ == (BucketView {
                        upload_url: Some(lease_of_response(res, now)),
                        ..old(self)@
                    })
                },
                Err(e) => {
                    &&& lease == Err::<UploadUrlInner, Error>(e)
                    &&& final(self)@ == old(self)@
                },
            },
    {
        match outcome {
            Ok(res) => {
                let upload_url = UploadUrlInner {
                    url: res.upload_url,
                    token: res.authorization_token,
                    generated_at: now,
                };
                let kept = self.upload_url.set(upload_url);
                Ok(kept)
            },
            Err(e) => Err(e),
        }
    }

    /// The bucket that an entry of a bucket listing describes.
    pub fn from_list_buckets_buckets(bucket: ListBucketsBuckets) -> (made: Bucket)
        ensures
            made@ == bucket_of_entry(bucket),
    {
        Bucket { id: bucket.bucket_id, name: bucket.bucket_name, upload_url: UploadUrl::new() }
    }

    /// The buckets of a listing, in the order of the listing.
    pub fn from_list_buckets_response(res: ListBucketsResponse) -> (buckets: Vec<Bucket>)
        ensures
            buckets@.len() == res.buckets@.len(),
            forall|i: int|
                0 <= i < buckets@.len() ==> (#[trigger] buckets@[i])@ == bucket_of_entry(
                    res.buckets@[i],
                ),
    {
        let ghost entries = res.buckets@;
        let mut buckets: Vec<Bucket> = Vec::new();
        for entry in iter: res.buckets
            invariant
                iter.seq() == entries,
                buckets@.len() == iter.index(),
                forall|i: int|
                    0 <= i < buckets@.len() ==> (#[trigger] buckets@[i])@ == bucket_of_entry(
                        entries[i],
                    ),
        {
            buckets.push(Bucket::from_list_buckets_buckets(entry));
        }
        buckets
    }

    /// A listing of this bucket's files, with no option set.
    pub fn list_files(&self) -> (builder: ListFileNamesBuilder)
        ensures
            builder@ == crate::file::ListFileNamesRequestView::plain(self@.id),
    {
        ListFileNamesBuilder::new(self.id.as_str())
    }
}

} // verus!
