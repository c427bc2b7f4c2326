//! One upload, as a sequence of decisions.
//!
//! An upload needs a usable lease for its bucket, and a lease needs a session.
//! Each of them may be at hand or may have to be fetched from the service, so
//! an upload is between one and three exchanges long. [`Upload::step`] decides,
//! from where the upload stands and what just happened, what to do next. The
//! caller performs what it is told and reports the outcome as the next event.
//! Session and lease are shared by all uploads through one client and bucket,
//! and change only when an exchange has fully succeeded.

use crate::account::{AccountView, Authorized, AuthorizedView};
use crate::bucket::{
    is_fresh, lease_of_response, usable_lease, Bucket, BucketView, GetUploadUrlResponse,
    LeaseStep, UploadFileResponse, UploadUrlInner, UploadUrlInnerView,
};
use crate::client::{
    authorize_request_of, granted, is_success_status, upload_request_of, upload_url_request_of,
    ApiRequest, ApiRequestView, AuthorizeReply, AuthorizeRequest, AuthorizeRequestView,
    AuthorizeStep, Client, UploadRequest, UploadRequestView,
};
use crate::error::{Error, ErrorView};
use crate::file::{file_of_response, File, FileView};
use vstd::prelude::*;

verus! {

/// Where an upload stands.
#[derive(Debug, Clone, Copy, PartialEq, Eq, Structural)]
pub enum UploadState {
    /// Nothing was done yet.
    Idle,
    /// The authorize exchange is under way.
    Authorizing,
    /// The request for an upload endpoint is under way.
    Leasing,
    /// The content is on its way.
    Sending,
    /// The upload has ended, well or badly.
    Finished,
}

/// What happened since the last step.
#[derive(Debug)]
pub enum UploadEvent {
    /// The upload begins, at the given time (milliseconds since the epoch).
    Start { now: i64 },
    /// The authorize exchange has ended.
    Authorized(Result<AuthorizeReply, Error>),
    /// The request for an upload endpoint has ended.
    Leased(Result<GetUploadUrlResponse, Error>),
    /// The upload request has ended.
    Uploaded(Result<UploadFileResponse, Error>),
}

/// What to do next.
#[derive(Debug)]
pub enum UploadAction {
    /// Perform the authorize exchange, and report with `Authorized`.
    Authorize(AuthorizeRequest),
    /// Ask for an upload endpoint, and report with `Leased`.
    GetUploadUrl(ApiRequest),
    /// Send the content, and report with `Uploaded`.
    Upload(UploadRequest),
    /// Nothing: the upload has ended with this result.
    Done(Result<File, Error>),
}

/// An action as plain values.
pub enum UploadActionView {
    Authorize(AuthorizeRequestView),
    GetUploadUrl(ApiRequestView),
    Upload(UploadRequestView),
    Done(Result<FileView, ErrorView>),
}

impl View for UploadAction {
    type V = UploadActionView;

    open spec fn view(&self) -> UploadActionView {
        match *self {
            UploadAction::Authorize(req) => UploadActionView::Authorize(req@),
            UploadAction::GetUploadUrl(req) => UploadActionView::GetUploadUrl(req@),
            UploadAction::Upload(req) => UploadActionView::Upload(req@),
            UploadAction::Done(Ok(file)) => UploadActionView::Done(Ok(file@)),
            UploadAction::Done(Err(e)) => UploadActionView::Done(Err(e@)),
        }
    }
}

/// One upload: the content, the name to store it under, and where it stands.
#[derive(Debug)]
pub struct Upload {
    state: UploadState,
    started_at: i64,
    content: Vec<u8>,
    name: String,
}

/// An upload as plain values. Once the content is on its way, the upload
/// holds neither content nor name any more.
pub struct UploadView {
    pub state: UploadState,
    pub started_at: i64,
    pub content: Seq<u8>,
    pub name: Seq<char>,
}

impl View for Upload {
    type V = UploadView;

    closed spec fn view(&self) -> UploadView {
        UploadView {
            state: self.state,
            started_at: self.started_at,
            content: self.content@,
            name: self.name@,
        }
    }
}

/// All that a step reads and changes: the session of the client, the lease
/// of the bucket, and the upload itself.
pub struct World {
    pub account: AccountView,
    pub bucket: BucketView,
    pub upload: UploadView,
}

/// The content leaves with the given lease.
pub open spec fn send_with(w: World, lease: UploadUrlInnerView) -> (World, UploadActionView) {
    (
        World {
            upload: UploadView {
                state: UploadState::Sending,
                content: Seq::<u8>::empty(),
                name: Seq::<char>::empty(),
                ..w.upload
            },
            ..w
        },
        UploadActionView::Upload(
            upload_request_of(lease.url, lease.token, w.upload.content, w.upload.name),
        ),
    )
}

/// An upload endpoint is asked for in the name of the given session.
pub open spec fn ask_for_lease(w: World, session: AuthorizedView) -> (World, UploadActionView) {
    (
        World { upload: UploadView { state: UploadState::Leasing, ..w.upload }, ..w },
        UploadActionView::GetUploadUrl(upload_url_request_of(session, w.bucket.id)),
    )
}

/// The upload ends with the given result.
pub open spec fn finish(w: World, result: Result<FileView, ErrorView>) -> (
    World,
    UploadActionView,
) {
    (
        World { upload: UploadView { state: UploadState::Finished, ..w.upload }, ..w },
        UploadActionView::Done(result),
    )
}

/// The step that an event causes: the world after it, and what to do next. An
/// event that does not answer what the upload is waiting for causes no step.
///
/// A beginning upload sends its content at once if the bucket's lease is
/// usable. If not, it asks for a new lease with the session at hand, and
/// authorizes first only when there is none. A session or a lease that
/// arrives is stored before it is used; a lease counts as issued when the
/// upload began. A failure of any exchange ends the upload and stores
/// nothing, and so does an authorize reply without a success status.
pub open spec fn next(w: World, event: UploadEvent) -> Option<(World, UploadActionView)> {
    match (w.upload.state, event) {
        (UploadState::Idle, UploadEvent::Start { now }) => {
            let begun = World { upload: UploadView { started_at: now, ..w.upload }, ..w };
            match usable_lease(w.bucket.upload_url, now) {
                Some(lease) => Some(send_with(begun, lease)),
                None => match w.account.authorized {
                    Some(session) => Some(ask_for_lease(begun, session)),
                    None => Some(
                        (
                            World {
                                upload: UploadView {
                                    state: UploadState::Authorizing,
                                    ..begun.upload
                                },
                                ..begun
                            },
                            UploadActionView::Authorize(authorize_request_of(w.account.key)),
                        ),
                    ),
                },
            }
        },
        (UploadState::Authorizing, UploadEvent::Authorized(outcome)) => match granted(outcome) {
            Ok(session) => Some(
                ask_for_lease(
                    World {
                        account: AccountView { authorized: Some(session), ..w.account },
                        ..w
                    },
                    session,
                ),
            ),
            Err(e) => Some(finish(w, Err(e))),
        },
        (UploadState::Leasing, UploadEvent::Leased(Ok(res))) => {
            let lease = lease_of_response(res, w.upload.started_at);
            Some(
                send_with(
                    World { bucket: BucketView { upload_url: Some(lease), ..w.bucket }, ..w },
                    lease,
                ),
            )
        },
        (UploadState::Leasing, UploadEvent::Leased(Err(e))) => Some(finish(w, Err(e@))),
        (UploadState::Sending, UploadEvent::Uploaded(Ok(res))) => Some(
            finish(w, Ok(file_of_response(res))),
        ),
        (UploadState::Sending, UploadEvent::Uploaded(Err(e))) => Some(finish(w, Err(e@))),
        _ => None,
    }
}

/// An upload that has not begun.
pub open spec fn idle(content: Seq<u8>, name: Seq<char>) -> UploadView {
    UploadView { state: UploadState::Idle, started_at: 0, content, name }
}

impl Bucket {
    /// An upload of `content` to this bucket under `name`. Nothing has
    /// happened yet: the upload proceeds by steps. An empty content is
    /// uploaded like any other.
    pub fn upload_file(&self, content: Vec<u8>, name: String) -> (upload: Upload)
        ensures
            upload@ == idle(content@, name@),
    {
        Upload::new(content, name)
    }
}

impl Upload {
    /// An upload of `content` under `name` that has not begun.
    pub fn new(content: Vec<u8>, name: String) -> (upload: Upload)
        ensures
            upload@ == idle(content@, name@),
    {
        Upload { state: UploadState::Idle, started_at: 0, content, name }
    }

    /// Where the upload stands.
    pub fn state(&self) -> (state: UploadState)
        ensures
            state == self@.state,
    {
        self.state
    }

    fn send_with(&mut self, lease: UploadUrlInner) -> (action: UploadAction)
        ensures
            final(self)@ == (UploadView {
                state: UploadState::Sending,
                content: Seq::<u8>::empty(),
                name: Seq::<char>::empty(),
                ..old(self)@
            }),
            action@ == UploadActionView::Upload(
                upload_request_of(lease@.url, lease@.token, old(self)@.content, old(self)@.name),
            ),
    {
        let mut content: Vec<u8> = Vec::new();
        let mut name = String::new();
        std::mem::swap(&mut self.content, &mut content);
        std::mem::swap(&mut self.name, &mut name);
        self.state = UploadState::Sending;
        UploadAction::Upload(Client::upload_file(lease.url, lease.token, content, name))
    }

    fn ask_for_lease(&mut self, session: &Authorized, bucket: &Bucket) -> (action: UploadAction)
        ensures
            final(self)@ == (UploadView { state: UploadState::Leasing, ..old(self)@ }),
            action@ == UploadActionView::GetUploadUrl(
                upload_url_request_of(session@, bucket@.id),
            ),
    {
        self.state = UploadState::Leasing;
        UploadAction::GetUploadUrl(Client::get_upload_url(session, bucket.id()))
    }

    fn finish(&mut self, result: Result<File, Error>) -> (action: UploadAction)
        ensures
            final(self)@ == (UploadView { state: UploadState::Finished, ..old(self)@ }),
            action@ == (UploadAction::Done(result))@,
    {
        self.state = UploadState::Finished;
        UploadAction::Done(result)
    }

    /// Takes one step of the upload: takes in the event, stores a session or
    /// a lease that it brought, and says what to do next. An event that does
    /// not answer what the upload is waiting for changes nothing and yields
    /// no action.
    pub fn step(&mut self, client: &mut Client, bucket: &mut Bucket, event: UploadEvent) -> (action:
        Option<UploadAction>)
        ensures
            match next(
                World { account: old(client)@, bucket: old(bucket)@, upload: old(self)@ },
                event,
            ) {
                Some((after, todo)) => {
                    &&& action is Some
                    &&& action->Some_0@ == todo
                    &&& final(client)@ == after.account
                    &&& final(bucket)@ == after.bucket
                    &&& final(self)@ == after.upload
                },
                None => {
                    &&& action is None
                    &&& final(client)@ == old(client)@
                    &&& final(bucket)@ == old(bucket)@
                    &&& final(self)@ == old(self)@
                },
            },
    {
        match self.state {
            UploadState::Idle => match event {
                UploadEvent::Start { now } => {
                    self.started_at = now;
                    match bucket.get_or_try_get_upload_url(now) {
                        LeaseStep::Reuse(lease) => Some(self.send_with(lease)),
                        LeaseStep::Refresh => match client.get_or_try_authorize() {
                            AuthorizeStep::Cached(session) => Some(
                                self.ask_for_lease(&session, bucket),
                            ),
                            AuthorizeStep::Authorize(req) => {
                                self.state = UploadState::Authorizing;
                                Some(UploadAction::Authorize(req))
                            },
                        },
                    }
                },
                _ => None,
            },
            UploadState::Authorizing => match event {
                UploadEvent::Authorized(outcome) => match client.authorize_account(outcome) {
                    Ok(session) => Some(self.ask_for_lease(&session, bucket)),
                    Err(e) => Some(self.finish(Err(e))),
                },
                _ => None,
            },
            UploadState::Leasing => match event {
                UploadEvent::Leased(outcome) => match bucket.get_upload_url(
                    self.started_at,
                    outcome,
                ) {
                    Ok(lease) => Some(self.send_with(lease)),
                    Err(e) => Some(self.finish(Err(e))),
                },
                _ => None,
            },
            UploadState::Sending => match event {
                UploadEvent::Uploaded(Ok(res)) => Some(self.finish(Ok(File::from(res)))),
                UploadEvent::Uploaded(Err(e)) => Some(self.finish(Err(e))),
                _ => None,
            },
            UploadState::Finished => None,
        }
    }
}

/// A session that is held is never fetched again. Whatever happens to an
/// upload through a client that holds a session, the step asks for no
/// authorize exchange, and the client holds a session afterwards. So from a
/// client that holds a session, no sequence of uploads makes an authorize
/// exchange.
pub proof fn lemma_held_session_is_not_fetched_again(w: World, event: UploadEvent)
    requires
        w.account.authorized is Some,
    ensures
        match next(w, event) {
            Some((after, todo)) => {
                &&& !(todo is Authorize)
                &&& after.account.authorized is Some
                &&& !(event is Authorized) ==> after.account == w.account
            },
            None => true,
        },
{
}

/// A beginning upload asks for an authorize exchange only if no session is
/// held, and only if the bucket's lease is not usable either.
pub proof fn lemma_authorize_only_without_session(w: World, event: UploadEvent)
    ensures
        match next(w, event) {
            Some((_, todo)) => todo is Authorize ==> {
                &&& w.account.authorized is None
                &&& event matches UploadEvent::Start { now }
                &&& usable_lease(w.bucket.upload_url, now) is None
            },
            None => true,
        },
{
}

/// A lease that arrives for an upload begun at `t` serves every upload that
/// begins at a time `now` with `now - t` below the window, with no further
/// exchange before the content leaves and with the bucket left as it is. An
/// upload that begins at or after the end of the window does not use it, and
/// asks the service first.
pub proof fn lemma_lease_is_reused_within_window(
    w: World,
    res: GetUploadUrlResponse,
    later: UploadView,
    now: i64,
)
    requires
        w.upload.state == UploadState::Leasing,
        later.state == UploadState::Idle,
    ensures
        ({
            let t = w.upload.started_at;
            let lease = lease_of_response(res, t);
            let stored = next(w, UploadEvent::Leased(Ok(res)))->Some_0.0;
            let second = next(World { upload: later, ..stored }, UploadEvent::Start { now });
            &&& stored.bucket.upload_url == Some(lease)
            &&& second is Some
            &&& now - t < 86_400_000 ==> {
                &&& second->Some_0.1 == UploadActionView::Upload(
                    upload_request_of(lease.url, lease.token, later.content, later.name),
                )
                &&& second->Some_0.0.bucket == stored.bucket
            }
            &&& now - t >= 86_400_000 ==> {
                ||| second->Some_0.1 is GetUploadUrl
                ||| second->Some_0.1 is Authorize
            }
        }),
{
}

/// Content only ever leaves with a lease that is usable when its upload
/// began: whenever a step sends content, the bucket then holds a lease that
/// is younger than the window, and the request carries the address and the
/// token of that lease. This holds of every upload by itself, however many
/// uploads share the bucket and however often its lease was replaced.
pub proof fn lemma_content_leaves_with_usable_lease(w: World, event: UploadEvent)
    ensures
        match next(w, event) {
            Some((after, UploadActionView::Upload(req))) => {
                &&& after.bucket.upload_url is Some
                &&& is_fresh(after.bucket.upload_url->Some_0, after.upload.started_at)
                &&& req.url == after.bucket.upload_url->Some_0.url
                &&& req.authorization == after.bucket.upload_url->Some_0.token
            },
            _ => true,
        },
{
}

/// Session and lease change only when an exchange has fully succeeded: the
/// session only when an authorize reply with a success status arrives for an
/// upload that waits for one, the lease only when an upload endpoint arrives
/// for an upload that waits for one. A failure, a start and a finished upload
/// leave both as they are.
pub proof fn lemma_caches_change_only_on_success(w: World, event: UploadEvent)
    ensures
        match next(w, event) {
            Some((after, _)) => {
                &&& after.account != w.account ==> {
                    &&& w.upload.state == UploadState::Authorizing
                    &&& event matches UploadEvent::Authorized(Ok(reply))
                    &&& is_success_status(reply.status)
                }
                &&& after.bucket != w.bucket ==> {
                    &&& w.upload.state == UploadState::Leasing
                    &&& event matches UploadEvent::Leased(Ok(_))
                }
            },
            None => true,
        },
{
}

/// When every exchange succeeds, an upload ends after at most four steps with
/// the file that the service's answer describes.
pub proof fn lemma_upload_completes(
    w: World,
    now: i64,
    session: AuthorizeReply,
    lease: GetUploadUrlResponse,
    stored: UploadFileResponse,
)
    requires
        w.upload.state == UploadState::Idle,
        is_success_status(session.status),
    ensures
        ({
            let (w1, a1) = next(w, UploadEvent::Start { now })->Some_0;
            let (w2, a2) = if a1 is Authorize {
                next(w1, UploadEvent::Authorized(Ok(session)))->Some_0
            } else {
                (w1, a1)
            };
            let (w3, a3) = if a2 is GetUploadUrl {
                next(w2, UploadEvent::Leased(Ok(lease)))->Some_0
            } else {
                (w2, a2)
            };
            let (w4, a4) = next(w3, UploadEvent::Uploaded(Ok(stored)))->Some_0;
            &&& a3 is Upload
            &&& a3->Upload_0.body == w.upload.content
            &&& a3->Upload_0.file_name == w.upload.name
            &&& a4 == UploadActionView::Done(Ok(file_of_response(stored)))
            &&& w4.upload.state == UploadState::Finished
        }),
{
}

} // verus!
