//! Listing the files of a bucket.

use super::File;
use crate::bucket::list::{clone_opt_string, opt_str_view};
use crate::bucket::UploadFileResponse;
use vstd::prelude::*;
use vstd::std_specs::cmp::PartialEqSpecImpl;
use vstd::std_specs::convert::FromSpecImpl;
use vstd::string::StringExecFns;

verus! {

/// The name at which the next page of a file listing starts.
#[derive(Debug, Eq, PartialOrd, Ord)]
pub struct NextFileName(pub String);

impl View for NextFileName {
    type V = Seq<char>;

    open spec fn view(&self) -> Seq<char> {
        self.0@
    }
}

impl NextFileName {
    pub fn as_str(&self) -> (name: &str)
        ensures
            name@ == self@,
    {
        self.0.as_str()
    }

    /// The name as text.
    pub fn to_string(&self) -> (name: String)
        ensures
            name@ == self@,
    {
        self.0.clone()
    }
}

impl Default for NextFileName {
    fn default() -> (name: NextFileName)
        ensures
            name@ == Seq::<char>::empty(),
    {
        NextFileName(String::new())
    }
}

impl Clone for NextFileName {
    fn clone(&self) -> (copy: NextFileName)
        ensures
            copy@ == self@,
    {
        NextFileName(self.0.clone())
    }
}

impl PartialEq for NextFileName {
    fn eq(&self, other: &NextFileName) -> (same: bool) {
        self.0 == other.0
    }
}

impl PartialEqSpecImpl for NextFileName {
    open spec fn obeys_eq_spec() -> bool {
        true
    }

    open spec fn eq_spec(&self, other: &NextFileName) -> bool {
        self.0@ == other.0@
    }
}

impl From<String> for NextFileName {
    fn from(s: String) -> (name: NextFileName)
        ensures
            name@ == s@,
    {
        NextFileName(s)
    }
}

impl FromSpecImpl<String> for NextFileName {
    open spec fn obeys_from_spec() -> bool {
        true
    }

    open spec fn from_spec(s: String) -> NextFileName {
        NextFileName(s)
    }
}

impl<'a> From<&'a str> for NextFileName {
    fn from(s: &'a str) -> (name: NextFileName)
        ensures
            name@ == s@,
    {
        NextFileName(String::from_str(s))
    }
}

impl<'a> FromSpecImpl<&'a str> for NextFileName {
    open spec fn obeys_from_spec() -> bool {
        false
    }

    open spec fn from_spec(s: &'a str) -> NextFileName {
        choose|name: NextFileName| name@ == s@
    }
}

/// The parameters of a request for a file listing.
#[derive(Debug)]
pub struct ListFileNamesRequest {
    pub bucket_id: String,
    pub start_file_name: Option<String>,
    pub max_file_count: Option<usize>,
    pub prefix: Option<String>,
    pub delimeter: Option<String>,
}

/// The parameters of a file listing as plain values.
pub struct ListFileNamesRequestView {
    pub bucket_id: Seq<char>,
    pub start_file_name: Option<Seq<char>>,
    pub max_file_count: Option<usize>,
    pub prefix: Option<Seq<char>>,
    pub delimeter: Option<Seq<char>>,
}

impl ListFileNamesRequestView {
    /// The listing of a bucket with no option set.
    pub open spec fn plain(bucket_id: Seq<char>) -> ListFileNamesRequestView {
        ListFileNamesRequestView {
            bucket_id,
            start_file_name: None,
            max_file_count: None,
            prefix: None,
            delimeter: None,
        }
    }
}

impl View for ListFileNamesRequest {
    type V = ListFileNamesRequestView;

    open spec fn view(&self) -> ListFileNamesRequestView {
        ListFileNamesRequestView {
            bucket_id: self.bucket_id@,
            start_file_name: opt_str_view(self.start_file_name),
            max_file_count: self.max_file_count,
            prefix: opt_str_view(self.prefix),
            delimeter: opt_str_view(self.delimeter),
        }
    }
}

/// What the service answers to a request for a file listing: one page of
/// files, and the name at which the next page starts, if there is one.
#[derive(Debug)]
pub struct ListFileNamesResponse {
    pub files: Vec<UploadFileResponse>,
    pub next_file_name: Option<String>,
}

/// The options of a file listing of one bucket. An option that was never set
/// is absent; setting one twice keeps the later value.
#[derive(Debug)]
pub struct ListFileNamesBuilder {
    bucket_id: String,
    start_file_name: Option<String>,
    max_file_count: Option<usize>,
    prefix: Option<String>,
    delimeter: Option<String>,
}

impl View for ListFileNamesBuilder {
    type V = ListFileNamesRequestView;

    closed spec fn view(&self) -> ListFileNamesRequestView {
        ListFileNamesRequestView {
            bucket_id: self.bucket_id@,
            start_file_name: opt_str_view(self.start_file_name),
            max_file_count: self.max_file_count,
            prefix: opt_str_view(self.prefix),
            delimeter: opt_str_view(self.delimeter),
        }
    }
}

/// The view of a page marker that may be absent.
pub open spec fn next_view(next: Option<NextFileName>) -> Option<Seq<char>> {
    match next {
        Some(n) => Some(n@),
        None => None,
    }
}

impl ListFileNamesBuilder {
    /// The listing of the given bucket with no option set.
    pub fn new(bucket_id: &str) -> (builder: ListFileNamesBuilder)
        ensures
            builder@ == ListFileNamesRequestView::plain(bucket_id@),
    {
        ListFileNamesBuilder {
            bucket_id: String::from_str(bucket_id),
            start_file_name: None,
            max_file_count: None,
            prefix: None,
            delimeter: None,
        }
    }

    /// Starts the listing at the given file name.
    pub fn start_file_name(&mut self, start_file_name: &str) -> (this: &mut Self)
        ensures
            this@ == (ListFileNamesRequestView {
                start_file_name: Some(start_file_name@),
                ..old(self)@
            }),
            *final(self) == *final(this),
    {
        self.start_file_name = Some(String::from_str(start_file_name));
        self
    }

    /// Bounds the number of files on a page.
    pub fn max_file_count(&mut self, max_file_count: usize) -> (this: &mut Self)
        ensures
            this@ == (ListFileNamesRequestView {
                max_file_count: Some(max_file_count),
                ..old(self)@
            }),
            *final(self) == *final(this),
    {
        self.max_file_count = Some(max_file_count);
        self
    }

    /// Restricts the listing to names with the given prefix.
    pub fn prefix(&mut self, prefix: &str) -> (this: &mut Self)
        ensures
            this@ == (ListFileNamesRequestView { prefix: Some(prefix@), ..old(self)@ }),
            *final(self) == *final(this),
    {
        self.prefix = Some(String::from_str(prefix));
        self
    }

    /// Folds names at the given delimiter.
    pub fn delimeter(&mut self, delimeter: &str) -> (this: &mut Self)
        ensures
            this@ == (ListFileNamesRequestView {
                delimeter: Some(delimeter@),
                ..old(self)@
            }),
            *final(self) == *final(this),
    {
        self.delimeter = Some(String::from_str(delimeter));
        self
    }

    /// The request that asks for this listing: the bucket and every option as
    /// they were set.
    pub fn send(&self) -> (req: ListFileNamesRequest)
        ensures
            req@ == self@,
    {
        ListFileNamesRequest {
            bucket_id: self.bucket_id.clone(),
            start_file_name: clone_opt_string(&self.start_file_name),
            max_file_count: self.max_file_count,
            prefix: clone_opt_string(&self.prefix),
            delimeter: clone_opt_string(&self.delimeter),
        }
    }

    /// The page that an answer of the service holds: its files, in the order
    /// of the answer, and the marker of the next page, if there is one.
    pub fn page(res: ListFileNamesResponse) -> (page: (Vec<File>, Option<NextFileName>))
        ensures
            page.0@.len() == res.files@.len(),
            forall|i: int|
                0 <= i < page.0@.len() ==> (#[trigger] page.0@[i])@ == super::file_of_response(
                    res.files@[i],
                ),
            next_view(page.1) == opt_str_view(res.next_file_name),
    {
        let next_file_name = match res.next_file_name {
            Some(s) => Some(NextFileName(s)),
            None => None,
        };
        let ghost entries = res.files@;
        let mut files: Vec<File> = Vec::new();
        for entry in iter: res.files
            invariant
                iter.seq() == entries,
                files@.len() == iter.index(),
                forall|i: int|
                    0 <= i < files@.len() ==> (#[trigger] files@[i])@ == super::file_of_response(
                        entries[i],
                    ),
        {
            files.push(File::from(entry));
        }
        (files, next_file_name)
    }
}

impl Clone for ListFileNamesBuilder {
    fn clone(&self) -> (copy: ListFileNamesBuilder)
        ensures
            copy@ == self@,
    {
        ListFileNamesBuilder {
            bucket_id: self.bucket_id.clone(),
            start_file_name: clone_opt_string(&self.start_file_name),
            max_file_count: self.max_file_count,
            prefix: clone_opt_string(&self.prefix),
            delimeter: clone_opt_string(&self.delimeter),
        }
    }
}

} // verus!
