//! The client: the account's session, the requests that the service is asked,
//! and what its answers mean.
//!
//! Nothing here talks to the network. Each exchange with the service is split
//! in two: a function that says what to ask, and a function that takes in the
//! outcome. Whoever owns the connection performs the request in between.

use crate::account::{
    Account, AccountView, ApplicationKey, ApplicationKeyView, Authorized, AuthorizedView,
    StorageApiInfo,
};
use crate::bucket::{
    Bucket, ListBucketsBuilder, ListBucketsFilters, ListBucketsRequest, ListBucketsRequestView,
};
use crate::error::{
    kind_of_code_or_unknown, transport_error, transport_message, Error, ErrorKind, ErrorResponse,
    ErrorView,
};
use crate::file::ListFileNamesRequest;
use crate::hash::{content_hash, hex_lower, sha1_of, DIGEST_LEN};
use reqwest::Error as TransportFailure;
use vstd::prelude::*;
use vstd::string::StringExecFns;

verus! {

/// Where the service is reached before an account is authorized.
pub const BASE_URL: &'static str = "https://api.backblazeb2.com";

/// The path of the authorize exchange.
pub const AUTHORIZE_ACCOUNT_PATH: &'static str = "/b2api/v3/b2_authorize_account";

/// The path at which an upload endpoint is asked for.
pub const GET_UPLOAD_URL_PATH: &'static str = "/b2api/v3/b2_get_upload_url";

/// The path of a bucket listing.
pub const LIST_BUCKETS_PATH: &'static str = "/b2api/v3/b2_list_buckets";

/// The path of a file listing.
pub const LIST_FILE_NAMES_PATH: &'static str = "/b2api/v3/b2_list_file_names";

/// The content type that lets the service detect the type of a file itself.
pub const CONTENT_TYPE_AUTO: &'static str = "b2/x-auto";

/// The part of an authorize answer that holds the storage API's addresses.
#[derive(Debug)]
pub struct AuthorizeAccountApiInfoStorageApi {
    pub url: String,
    pub download_url: String,
}

/// The part of an authorize answer that describes the APIs of the account.
#[derive(Debug)]
pub struct AuthorizeAccountApiInfo {
    pub storage_api: AuthorizeAccountApiInfoStorageApi,
}

/// What the service answers to a successful authorize exchange.
#[derive(Debug)]
pub struct AuthorizeAccountResponse {
    pub account_id: String,
    pub api_info: AuthorizeAccountApiInfo,
    pub token: String,
}

/// The authorization that an authorize answer grants.
pub open spec fn authorized_of_response(res: AuthorizeAccountResponse) -> AuthorizedView {
    AuthorizedView {
        id: res.account_id@,
        url: res.api_info.storage_api.url@,
        download_url: res.api_info.storage_api.download_url@,
        token: res.token@,
    }
}

/// The authorize exchange: the address to ask, and the key to present as
/// basic credentials.
#[derive(Debug)]
pub struct AuthorizeRequest {
    pub url: String,
    pub key: ApplicationKey,
}

/// The authorize exchange as plain values.
pub struct AuthorizeRequestView {
    pub url: Seq<char>,
    pub key: ApplicationKeyView,
}

impl View for AuthorizeRequest {
    type V = AuthorizeRequestView;

    open spec fn view(&self) -> AuthorizeRequestView {
        AuthorizeRequestView { url: self.url@, key: self.key@ }
    }
}

/// The authorize exchange for the account with the given key.
pub open spec fn authorize_request_of(key: ApplicationKeyView) -> AuthorizeRequestView {
    AuthorizeRequestView { url: BASE_URL@ + AUTHORIZE_ACCOUNT_PATH@, key }
}

/// A request that is made in the name of an authorized account: the address to
/// ask, and the token to present.
#[derive(Debug)]
pub struct ApiRequest {
    pub url: String,
    pub authorization: String,
}

/// A request in the name of an account as plain values.
pub struct ApiRequestView {
    pub url: Seq<char>,
    pub authorization: Seq<char>,
}

impl View for ApiRequest {
    type V = ApiRequestView;

    open spec fn view(&self) -> ApiRequestView {
        ApiRequestView { url: self.url@, authorization: self.authorization@ }
    }
}

/// The request that asks for an upload endpoint of the bucket with the given
/// identifier, in the name of an authorized account.
pub open spec fn upload_url_request_of(
    authorized: AuthorizedView,
    bucket_id: Seq<char>,
) -> ApiRequestView {
    ApiRequestView {
        url: authorized.url + GET_UPLOAD_URL_PATH@ + "?bucketId="@ + bucket_id,
        authorization: authorized.token,
    }
}

/// A request at the given path of the storage API, in the name of an
/// authorized account.
pub open spec fn api_request_of(authorized: AuthorizedView, path: Seq<char>) -> ApiRequestView {
    ApiRequestView { url: authorized.url + path, authorization: authorized.token }
}

/// An upload: where to send it, the token of the lease, the name to store the
/// content under, the content's type, length and hash, and the content itself.
#[derive(Debug)]
pub struct UploadRequest {
    pub url: String,
    pub authorization: String,
    pub file_name: String,
    pub content_type: String,
    pub content_length: usize,
    pub content_sha1: String,
    pub body: Vec<u8>,
}

/// An upload as plain values.
pub struct UploadRequestView {
    pub url: Seq<char>,
    pub authorization: Seq<char>,
    pub file_name: Seq<char>,
    pub content_type: Seq<char>,
    pub content_length: nat,
    pub content_sha1: Seq<char>,
    pub body: Seq<u8>,
}

impl View for UploadRequest {
    type V = UploadRequestView;

    open spec fn view(&self) -> UploadRequestView {
        UploadRequestView {
            url: self.url@,
            authorization: self.authorization@,
            file_name: self.file_name@,
            content_type: self.content_type@,
            content_length: self.content_length as nat,
            content_sha1: self.content_sha1@,
            body: self.body@,
        }
    }
}

/// The upload of `content` under `name` through a lease with the given address
/// and token: the type is left to the service, the length is that of the
/// content, and the hash is the SHA-1 digest of the content in lower-case
/// hexadecimal.
pub open spec fn upload_request_of(
    upload_url: Seq<char>,
    authorization_token: Seq<char>,
    content: Seq<u8>,
    name: Seq<char>,
) -> UploadRequestView {
    UploadRequestView {
        url: upload_url,
        authorization: authorization_token,
        file_name: name,
        content_type: CONTENT_TYPE_AUTO@,
        content_length: content.len(),
        content_sha1: hex_lower(sha1_of(content)),
        body: content,
    }
}

/// What to do about the session before a request that needs one.
#[derive(Debug)]
pub enum AuthorizeStep {
    /// A session is cached: use it, and ask the service nothing.
    Cached(Authorized),
    /// No session is cached: perform the authorize exchange.
    Authorize(AuthorizeRequest),
}

impl AuthorizeStep {
    /// The session to use, if the step is to use the cached one.
    pub open spec fn cached(self) -> Option<AuthorizedView> {
        match self {
            AuthorizeStep::Cached(authorized) => Some(authorized@),
            AuthorizeStep::Authorize(_) => None,
        }
    }
}

/// Whether a status announces a failure: a client error (400 to 499) or a
/// server error (500 to 599).
pub open spec fn is_error_status(status: u16) -> bool {
    400 <= status < 600
}

/// Whether a status reports success: 200 to 299.
pub open spec fn is_success_status(status: u16) -> bool {
    200 <= status < 300
}

/// The reply to the authorize exchange: the status it came with, and its
/// decoded body.
#[derive(Debug)]
pub struct AuthorizeReply {
    pub status: u16,
    pub body: AuthorizeAccountResponse,
}

/// The error that reports a reply whose status grants nothing although its
/// body was readable: of unknown kind, with the fixed message of that kind.
pub open spec fn unexpected_status_error() -> ErrorView {
    ErrorView { kind: ErrorKind::Unknown, message: transport_message(ErrorKind::Unknown) }
}

/// What the outcome of the authorize exchange grants. Only a reply with a
/// success status grants a session. A reply with any other status is a
/// failure, whatever its body holds, and a failure stays the failure it is.
pub open spec fn granted(outcome: Result<AuthorizeReply, Error>) -> Result<
    AuthorizedView,
    ErrorView,
> {
    match outcome {
        Ok(reply) => if is_success_status(reply.status) {
            Ok(authorized_of_response(reply.body))
        } else {
            Err(unexpected_status_error())
        },
        Err(e) => Err(e@),
    }
}

/// The decoded body of a response: what was asked for, or the service's
/// description of a failure.
#[derive(Debug)]
pub enum ApiResponse<T> {
    Success(T),
    Failure(ErrorResponse),
}

/// A client of one account, with the session that is cached for it. The
/// value is not copied: whoever shares a client shares its session.
#[derive(Debug)]
pub struct Client {
    account: Account,
}

impl View for Client {
    type V = AccountView;

    closed spec fn view(&self) -> AccountView {
        self.account@
    }
}

fn join(head: &str, tail: &str) -> (joined: String)
    ensures
        joined@ == head@ + tail@,
{
    String::from_str(head).concat(tail)
}

impl Client {
    /// A client for the account with the given key. It holds no session yet.
    pub fn new(id: String, secret: String) -> (client: Client)
        ensures
            client@ == (AccountView {
                key: ApplicationKeyView { id: id@, secret: secret@ },
                authorized: None,
            }),
    {
        Client { account: Account::new(id, secret) }
    }

    /// The session that the client holds, if any.
    pub fn authorized(&self) -> (authorized: Option<Authorized>)
        ensures
            crate::account::authorized_view(authorized) == self@.authorized,
    {
        self.account.authorized()
    }

    /// The authorize exchange for this client's account.
    pub fn authorize_account_request(&self) -> (req: AuthorizeRequest)
        ensures
            req@ == authorize_request_of(self@.key),
    {
        AuthorizeRequest {
            url: join(BASE_URL, AUTHORIZE_ACCOUNT_PATH),
            key: self.account.application_key(),
        }
    }

    /// Decides how a request gets its session. A cached session is used as it
    /// is, with no exchange. Only when none is cached is the authorize
    /// exchange to be performed. The client is left as it is.
    pub fn get_or_try_authorize(&self) -> (step: AuthorizeStep)
        ensures
            step.cached() == self@.authorized,
            step matches AuthorizeStep::Authorize(req) ==> req@ == authorize_request_of(self@.key),
    {
        match self.account.authorized() {
            Some(authorized) => AuthorizeStep::Cached(authorized),
            None => AuthorizeStep::Authorize(self.authorize_account_request()),
        }
    }

    /// Takes in the outcome of the authorize exchange. A reply with a success
    /// status becomes the client's session, in place of any earlier one, and
    /// is handed back. A reply with any other status is a failure and stores
    /// nothing. A failure is handed back as it came, and the client keeps what
    /// it had.
    pub fn authorize_account(&mut self, outcome: Result<AuthorizeReply, Error>) -> (session: Result<
        Authorized,
        Error,
    >)
        ensures
            match granted(outcome) {
                Ok(authorized) => {
                    &&& session is Ok
                    &&& session->Ok_0@ == authorized
                    &&& final(self)@ == (AccountView {
                        authorized: Some(authorized),
                        ..old(self)@
                    })
                },
                Err(e) => {
                    &&& session is Err
                    &&& session->Err_0@ == e
                    &&& final(self)@ == old(self)@
                },
            },
            outcome matches Err(e) ==> session == Err::<Authorized, Error>(e),
    {
        match outcome {
            Ok(reply) => {
                if !status_is_success(reply.status) {
                    return Err(Error::of_transport_kind(ErrorKind::Unknown));
                }
                let res = reply.body;
                let authorized = Authorized {
                    id: res.account_id,
                    storage_api_info: StorageApiInfo {
                        url: res.api_info.storage_api.url,
                        download_url: res.api_info.storage_api.download_url,
                    },
                    token: res.token,
                };
                self.account.set_authorized(authorized.clone());
                Ok(authorized)
            },
            Err(e) => Err(e),
        }
    }

    /// The request that asks for an upload endpoint of a bucket.
    pub fn get_upload_url(authorized: &Authorized, bucket_id: &str) -> (req: ApiRequest)
        ensures
            req@ == upload_url_request_of(authorized@, bucket_id@),
    {
        let url = authorized.storage_api_info.url.clone().concat(GET_UPLOAD_URL_PATH).concat(
            "?bucketId=",
        ).concat(bucket_id);
        ApiRequest { url, authorization: authorized.token.clone() }
    }

    /// The upload of `content` under `name` through a lease with the given
    /// address and token. An empty content is uploaded like any other.
    pub fn upload_file(
        upload_url: String,
        authorization_token: String,
        content: Vec<u8>,
        name: String,
    ) -> (req: UploadRequest)
        ensures
            req@ == upload_request_of(upload_url@, authorization_token@, content@, name@),
            req@.content_sha1.len() == 2 * DIGEST_LEN,
    {
        let sum = content_hash(content.as_slice());
        let content_length = content.len();
        UploadRequest {
            url: upload_url,
            authorization: authorization_token,
            file_name: name,
            content_type: String::from_str(CONTENT_TYPE_AUTO),
            content_length,
            content_sha1: sum,
            body: content,
        }
    }

    /// The request for a bucket listing, made in the name of the authorized
    /// account: the listing's filters stay, and the account's identifier is
    /// filled in.
    pub fn list_buckets_request(authorized: &Authorized, req: ListBucketsRequest) -> (out: (
        ApiRequest,
        ListBucketsRequest,
    ))
        ensures
            out.0@ == api_request_of(authorized@, LIST_BUCKETS_PATH@),
            out.1@ == (ListBucketsRequestView { account_id: authorized@.id, ..req@ }),
    {
        let mut req = req;
        req.account_id = authorized.id.clone();
        let url = authorized.storage_api_info.url.clone().concat(LIST_BUCKETS_PATH);
        (ApiRequest { url, authorization: authorized.token.clone() }, req)
    }

    /// The request for a file listing, made in the name of the authorized
    /// account. The listing's parameters go along unchanged.
    pub fn list_file_names_request(authorized: &Authorized, req: ListFileNamesRequest) -> (out: (
        ApiRequest,
        ListFileNamesRequest,
    ))
        ensures
            out.0@ == api_request_of(authorized@, LIST_FILE_NAMES_PATH@),
            out.1 == req,
    {
        let url = authorized.storage_api_info.url.clone().concat(LIST_FILE_NAMES_PATH);
        (ApiRequest { url, authorization: authorized.token.clone() }, req)
    }

    /// A listing of the account's buckets, with no filter set.
    pub fn list_buckets(&self) -> (builder: ListBucketsBuilder)
        ensures
            builder@ == (ListBucketsFilters { bucket_id: None, bucket_name: None }),
    {
        ListBucketsBuilder::new()
    }

    /// The first bucket of a listing that has the given name, if there is one.
    pub fn bucket(buckets: Vec<Bucket>, bucket_name: &str) -> (found: Option<Bucket>)
        ensures
            match found {
                Some(b) => exists|i: int|
                    {
                        &&& 0 <= i < buckets@.len()
                        &&& b@ == (#[trigger] buckets@[i])@
                        &&& b@.name == bucket_name@
                        &&& forall|j: int| 0 <= j < i ==> (#[trigger] buckets@[j])@.name != bucket_name@
                    },
                None => forall|j: int|
                    0 <= j < buckets@.len() ==> (#[trigger] buckets@[j])@.name != bucket_name@,
            },
    {
        let wanted = String::from_str(bucket_name);
        let ghost all = buckets@;
        for b in iter: buckets
            invariant
                iter.seq() == all,
                wanted@ == bucket_name@,
                forall|j: int| 0 <= j < iter.index() ==> (#[trigger] all[j])@.name != bucket_name@,
        {
            if String::from_str(b.name()) == wanted {
                return Some(b);
            }
        }
        None
    }
}

/// Tells whether a status reports success.
pub fn status_is_success(status: u16) -> (yes: bool)
    ensures
        yes == is_success_status(status),
{
    200 <= status && status < 300
}

/// Tells whether a status announces a failure, in which case the body of the
/// response describes the failure.
pub fn status_is_error(status: u16) -> (yes: bool)
    ensures
        yes == is_error_status(status),
{
    400 <= status && status < 600
}

/// Turns the outcome of reading a response into a result. A transport failure
/// is classified by what the transport says of it, without a body. A
/// described failure is classified by its code, and keeps the service's
/// message. Anything else is the answer.
pub fn handle_b2_api_response<T>(outcome: Result<ApiResponse<T>, TransportFailure>) -> (result:
    Result<T, Error>)
    ensures
        match outcome {
            Ok(ApiResponse::Success(body)) => result == Ok::<T, Error>(body),
            Ok(ApiResponse::Failure(res)) => {
                &&& result is Err
                &&& result->Err_0@ == (ErrorView {
                    kind: kind_of_code_or_unknown(res.code@),
                    message: res.message@,
                })
            },
            Err(err) => result is Err && result->Err_0@ == transport_error(err),
        },
{
    match outcome {
        Ok(ApiResponse::Success(body)) => Ok(body),
        Ok(ApiResponse::Failure(res)) => Err(Error::from(res)),
        Err(err) => Err(Error::from_transport(err)),
    }
}

} // verus!
