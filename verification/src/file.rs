//! The record of a stored file.

pub mod list;

pub use list::{
    ListFileNamesBuilder, ListFileNamesRequest, ListFileNamesRequestView, ListFileNamesResponse,
    NextFileName,
};

use crate::bucket::UploadFileResponse;
use vstd::prelude::*;
use vstd::std_specs::convert::FromSpecImpl;

verus! {

/// A file as the service stores it: the identifier it was given, its name, its
/// size in bytes, and the time of the upload in milliseconds since the epoch.
#[derive(Debug)]
pub struct File {
    pub id: String,
    pub name: String,
    pub size: usize,
    pub upload_timestamp: i64,
}

/// A file record as plain values.
pub struct FileView {
    pub id: Seq<char>,
    pub name: Seq<char>,
    pub size: usize,
    pub upload_timestamp: i64,
}

impl View for File {
    type V = FileView;

    open spec fn view(&self) -> FileView {
        FileView {
            id: self.id@,
            name: self.name@,
            size: self.size,
            upload_timestamp: self.upload_timestamp,
        }
    }
}

/// The file record that an upload response describes: its identifier, name,
/// content length and upload time, each as the response gives it.
pub open spec fn file_of_response(res: UploadFileResponse) -> FileView {
    FileView {
        id: res.file_id@,
        name: res.file_name@,
        size: res.content_length,
        upload_timestamp: res.upload_timestamp,
    }
}

impl Clone for File {
    fn clone(&self) -> (copy: File)
        ensures
            copy@ == self@,
    {
        File {
            id: self.id.clone(),
            name: self.name.clone(),
            size: self.size,
            upload_timestamp: self.upload_timestamp,
        }
    }
}

impl From<UploadFileResponse> for File {
    fn from(res: UploadFileResponse) -> (file: File)
        ensures
            file@ == file_of_response(res),
    {
        File {
            id: res.file_id,
            name: res.file_name,
            size: res.content_length,
            upload_timestamp: res.upload_timestamp,
        }
    }
}

impl FromSpecImpl<UploadFileResponse> for File {
    open spec fn obeys_from_spec() -> bool {
        true
    }

    open spec fn from_spec(res: UploadFileResponse) -> File {
        File {
            id: res.file_id,
            name: res.file_name,
            size: res.content_length,
            upload_timestamp: res.upload_timestamp,
        }
    }
}

} // verus!
