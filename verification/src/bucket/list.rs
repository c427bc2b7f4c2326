//! Listing the buckets of an account.

use vstd::prelude::*;
use vstd::string::StringExecFns;

verus! {

/// The body of a request for a bucket listing.
#[derive(Debug)]
pub struct ListBucketsRequest {
    pub account_id: String,
    pub bucket_id: Option<String>,
    pub bucket_name: Option<String>,
}

/// The view of a string that may be absent.
pub open spec fn opt_str_view(s: Option<String>) -> Option<Seq<char>> {
    match s {
        Some(s) => Some(s@),
        None => None,
    }
}

/// A request for a bucket listing as plain values.
pub struct ListBucketsRequestView {
    pub account_id: Seq<char>,
    pub bucket_id: Option<Seq<char>>,
    pub bucket_name: Option<Seq<char>>,
}

impl View for ListBucketsRequest {
    type V = ListBucketsRequestView;

    open spec fn view(&self) -> ListBucketsRequestView {
        ListBucketsRequestView {
            account_id: self.account_id@,
            bucket_id: opt_str_view(self.bucket_id),
            bucket_name: opt_str_view(self.bucket_name),
        }
    }
}

/// One bucket of a bucket listing.
#[derive(Debug)]
pub struct ListBucketsBuckets {
    pub account_id: String,
    pub bucket_id: String,
    pub bucket_name: String,
}

/// What the service answers to a request for a bucket listing.
#[derive(Debug)]
pub struct ListBucketsResponse {
    pub buckets: Vec<ListBucketsBuckets>,
}

/// Copies a string that may be absent.
pub(crate) fn clone_opt_string(s: &Option<String>) -> (copy: Option<String>)
    ensures
        opt_str_view(copy) == opt_str_view(*s),
{
    match s {
        Some(s) => Some(s.clone()),
        None => None,
    }
}

/// The filters of a bucket listing. A filter that was never set is absent;
/// setting one twice keeps the later value.
#[derive(Debug)]
pub struct ListBucketsBuilder {
    bucket_id: Option<String>,
    bucket_name: Option<String>,
}

/// The filters of a bucket listing as plain values.
pub struct ListBucketsFilters {
    pub bucket_id: Option<Seq<char>>,
    pub bucket_name: Option<Seq<char>>,
}

impl View for ListBucketsBuilder {
    type V = ListBucketsFilters;

    closed spec fn view(&self) -> ListBucketsFilters {
        ListBucketsFilters {
            bucket_id: opt_str_view(self.bucket_id),
            bucket_name: opt_str_view(self.bucket_name),
        }
    }
}

impl ListBucketsBuilder {
    /// A listing with no filter set.
    pub fn new() -> (builder: ListBucketsBuilder)
        ensures
            builder@ == (ListBucketsFilters { bucket_id: None, bucket_name: None }),
    {
        ListBucketsBuilder { bucket_id: None, bucket_name: None }
    }

    /// Restricts the listing to the bucket with the given identifier.
    pub fn bucket_id(&mut self, id: &str) -> (this: &mut Self)
        ensures
            this@ == (ListBucketsFilters { bucket_id: Some(id@), ..old(self)@ }),
            *final(self) == *final(this),
    {
        self.bucket_id = Some(String::from_str(id));
        self
    }

    /// Restricts the listing to the bucket with the given name.
    pub fn bucket_name(&mut self, name: &str) -> (this: &mut Self)
        ensures
            this@ == (ListBucketsFilters { bucket_name: Some(name@), ..old(self)@ }),
            *final(self) == *final(this),
    {
        self.bucket_name = Some(String::from_str(name));
        self
    }

    /// The request that asks for this listing. The account is not known here:
    /// its identifier is left empty, to be filled in when the request is sent.
    pub fn send(&self) -> (req: ListBucketsRequest)
        ensures
            req@ == (ListBucketsRequestView {
                account_id: Seq::<char>::empty(),
                bucket_id: self@.bucket_id,
                bucket_name: self@.bucket_name,
            }),
    {
        ListBucketsRequest {
            account_id: String::new(),
            bucket_id: clone_opt_string(&self.bucket_id),
            bucket_name: clone_opt_string(&self.bucket_name),
        }
    }
}

impl Clone for ListBucketsBuilder {
    fn clone(&self) -> (copy: ListBucketsBuilder)
        ensures
            copy@ == self@,
    {
        ListBucketsBuilder {
            bucket_id: clone_opt_string(&self.bucket_id),
            bucket_name: clone_opt_string(&self.bucket_name),
        }
    }
}

} // verus!
