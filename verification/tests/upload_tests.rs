use rustblaze::bucket::{
    Bucket, GetUploadUrlResponse, ListBucketsBuckets, UploadFileResponse,
};
use rustblaze::client::{
    AuthorizeAccountApiInfo, AuthorizeAccountApiInfoStorageApi, AuthorizeAccountResponse,
    AuthorizeReply, Client,
};
use rustblaze::error::{Error, ErrorKind, ErrorResponse};
use rustblaze::file::File;
use rustblaze::upload::{Upload, UploadAction, UploadEvent, UploadState};

fn client() -> Client {
    Client::new("key-id".to_string(), "key-secret".to_string())
}

fn bucket() -> Bucket {
    Bucket::from_list_buckets_buckets(ListBucketsBuckets {
        account_id: "acct".to_string(),
        bucket_id: "b-1".to_string(),
        bucket_name: "photos".to_string(),
    })
}

fn session(token: &str) -> AuthorizeReply {
    reply(200, token)
}

fn reply(status: u16, token: &str) -> AuthorizeReply {
    AuthorizeReply {
        status,
        body: AuthorizeAccountResponse {
            account_id: "acct".to_string(),
            api_info: AuthorizeAccountApiInfo {
                storage_api: AuthorizeAccountApiInfoStorageApi {
                    url: "https://api001.example".to_string(),
                    download_url: "https://f001.example".to_string(),
                },
            },
            token: token.to_string(),
        },
    }
}

fn endpoint(n: usize) -> GetUploadUrlResponse {
    GetUploadUrlResponse {
        upload_url: format!("https://pod.example/upload/{}", n),
        authorization_token: format!("lease-{}", n),
    }
}

fn stored(name: &str, len: usize) -> UploadFileResponse {
    UploadFileResponse {
        account_id: "acct".to_string(),
        bucket_id: "b-1".to_string(),
        content_length: len,
        content_sha1: None,
        content_md5: None,
        content_type: None,
        file_id: format!("id-of-{}", name),
        file_name: name.to_string(),
        upload_timestamp: 1_700_000_000_500,
    }
}

fn failure(code: &str, message: &str) -> Error {
    Error::from(ErrorResponse {
        status: 400,
        code: code.to_string(),
        message: message.to_string(),
    })
}

fn done(action: Option<UploadAction>) -> Result<File, Error> {
    match action {
        Some(UploadAction::Done(result)) => result,
        other => panic!("the upload has not ended: {:?}", other),
    }
}

const T: i64 = 1_700_000_000_000;

#[test]
fn cold_upload_authorizes_leases_and_sends() {
    let mut c = client();
    let mut b = bucket();
    let mut up = b.upload_file(b"abc".to_vec(), "a.txt".to_string());
    assert_eq!(up.state(), UploadState::Idle);

    match up.step(&mut c, &mut b, UploadEvent::Start { now: T }) {
        Some(UploadAction::Authorize(req)) => {
            assert_eq!(req.url, "https://api.backblazeb2.com/b2api/v3/b2_authorize_account");
            assert_eq!(req.key.id, "key-id");
            assert_eq!(req.key.secret, "key-secret");
        }
        other => panic!("expected the authorize exchange, got {:?}", other),
    }
    assert_eq!(up.state(), UploadState::Authorizing);
    assert!(c.authorized().is_none());

    match up.step(&mut c, &mut b, UploadEvent::Authorized(Ok(session("tok")))) {
        Some(UploadAction::GetUploadUrl(req)) => {
            assert_eq!(req.url, "https://api001.example/b2api/v3/b2_get_upload_url?bucketId=b-1");
            assert_eq!(req.authorization, "tok");
        }
        other => panic!("expected the request for an endpoint, got {:?}", other),
    }
    assert_eq!(up.state(), UploadState::Leasing);
    assert_eq!(c.authorized().unwrap().token, "tok");
    assert!(b.upload_url().is_none());

    match up.step(&mut c, &mut b, UploadEvent::Leased(Ok(endpoint(1)))) {
        Some(UploadAction::Upload(req)) => {
            assert_eq!(req.url, "https://pod.example/upload/1");
            assert_eq!(req.authorization, "lease-1");
            assert_eq!(req.file_name, "a.txt");
            assert_eq!(req.content_type, "b2/x-auto");
            assert_eq!(req.content_length, 3);
            assert_eq!(req.content_sha1, "a9993e364706816aba3e25717850c26c9cd0d89d");
            assert_eq!(req.body, b"abc".to_vec());
        }
        other => panic!("expected the upload, got {:?}", other),
    }
    assert_eq!(up.state(), UploadState::Sending);
    let lease = b.upload_url().unwrap();
    assert_eq!(lease.token, "lease-1");
    assert_eq!(lease.generated_at, T);

    let file = done(up.step(&mut c, &mut b, UploadEvent::Uploaded(Ok(stored("a.txt", 3))))).unwrap();
    assert_eq!(file.id, "id-of-a.txt");
    assert_eq!(file.name, "a.txt");
    assert_eq!(file.size, 3);
    assert_eq!(file.upload_timestamp, 1_700_000_000_500);
    assert_eq!(up.state(), UploadState::Finished);
}

#[test]
fn upload_with_session_skips_the_authorize_exchange() {
    let mut c = client();
    c.authorize_account(Ok(session("tok"))).unwrap();
    let mut b = bucket();
    for n in 0..2 {
        let mut other = bucket();
        let mut up = Upload::new(vec![1, 2], format!("f{}", n));
        match up.step(&mut c, &mut other, UploadEvent::Start { now: T }) {
            Some(UploadAction::GetUploadUrl(req)) => assert_eq!(req.authorization, "tok"),
            other => panic!("expected the request for an endpoint, got {:?}", other),
        }
        assert_eq!(up.state(), UploadState::Leasing);
    }
    let mut up = Upload::new(vec![1, 2], "f".to_string());
    assert!(matches!(
        up.step(&mut c, &mut b, UploadEvent::Start { now: T }),
        Some(UploadAction::GetUploadUrl(_))
    ));
    assert_eq!(c.authorized().unwrap().token, "tok");
}

#[test]
fn upload_with_usable_lease_sends_at_once() {
    let mut c = client();
    let mut b = bucket();
    b.get_upload_url(T, Ok(endpoint(7))).unwrap();
    let mut up = Upload::new(Vec::new(), "empty".to_string());
    match up.step(&mut c, &mut b, UploadEvent::Start { now: T + 86_399_999 }) {
        Some(UploadAction::Upload(req)) => {
            assert_eq!(req.url, "https://pod.example/upload/7");
            assert_eq!(req.authorization, "lease-7");
            assert_eq!(req.file_name, "empty");
            assert_eq!(req.content_length, 0);
            assert_eq!(req.content_sha1, "da39a3ee5e6b4b0d3255bfef95601890afd80709");
            assert!(req.body.is_empty());
        }
        other => panic!("expected the upload, got {:?}", other),
    }
    assert_eq!(up.state(), UploadState::Sending);
    assert!(c.authorized().is_none());
    assert_eq!(b.upload_url().unwrap().generated_at, T);
}

#[test]
fn upload_with_expired_lease_fetches_a_new_one() {
    let mut c = client();
    c.authorize_account(Ok(session("tok"))).unwrap();
    let mut b = bucket();
    b.get_upload_url(T, Ok(endpoint(1))).unwrap();
    let mut up = Upload::new(b"x".to_vec(), "x".to_string());
    assert!(matches!(
        up.step(&mut c, &mut b, UploadEvent::Start { now: T + 86_400_000 }),
        Some(UploadAction::GetUploadUrl(_))
    ));
    assert_eq!(b.upload_url().unwrap().token, "lease-1");
    match up.step(&mut c, &mut b, UploadEvent::Leased(Ok(endpoint(2)))) {
        Some(UploadAction::Upload(req)) => {
            assert_eq!(req.url, "https://pod.example/upload/2");
            assert_eq!(req.authorization, "lease-2");
        }
        other => panic!("expected the upload, got {:?}", other),
    }
    let lease = b.upload_url().unwrap();
    assert_eq!(lease.token, "lease-2");
    assert_eq!(lease.generated_at, T + 86_400_000);
}

#[test]
fn failed_authorize_ends_the_upload_and_stores_nothing() {
    let mut c = client();
    let mut b = bucket();
    let mut up = Upload::new(b"x".to_vec(), "x".to_string());
    up.step(&mut c, &mut b, UploadEvent::Start { now: T });
    let e = done(up.step(
        &mut c,
        &mut b,
        UploadEvent::Authorized(Err(failure("unauthorized", "bad key"))),
    ))
    .unwrap_err();
    assert_eq!(e.kind(), ErrorKind::Unauthorized);
    assert_eq!(e.message(), "bad key");
    assert_eq!(up.state(), UploadState::Finished);
    assert!(c.authorized().is_none());
    assert!(b.upload_url().is_none());
}

#[test]
fn authorize_reply_without_success_status_ends_the_upload() {
    for status in [100u16, 304, 404] {
        let mut c = client();
        let mut b = bucket();
        let mut up = Upload::new(b"x".to_vec(), "x".to_string());
        up.step(&mut c, &mut b, UploadEvent::Start { now: T });
        let e = done(up.step(&mut c, &mut b, UploadEvent::Authorized(Ok(reply(status, "tok")))))
            .unwrap_err();
        assert_eq!(e.kind(), ErrorKind::Unknown);
        assert_eq!(e.message(), "unknown error related to communication");
        assert_eq!(up.state(), UploadState::Finished);
        assert!(c.authorized().is_none());
        assert!(b.upload_url().is_none());
    }
}

#[test]
fn failed_lease_ends_the_upload_and_keeps_the_stale_lease() {
    let mut c = client();
    c.authorize_account(Ok(session("tok"))).unwrap();
    let mut b = bucket();
    b.get_upload_url(T, Ok(endpoint(1))).unwrap();
    let mut up = Upload::new(b"x".to_vec(), "x".to_string());
    up.step(&mut c, &mut b, UploadEvent::Start { now: T + 90_000_000 });
    let e = done(up.step(
        &mut c,
        &mut b,
        UploadEvent::Leased(Err(failure("expired_auth_token", "expired"))),
    ))
    .unwrap_err();
    assert_eq!(e.kind(), ErrorKind::ExpiredAuthToken);
    assert_eq!(e.message(), "expired");
    let kept = b.upload_url().unwrap();
    assert_eq!(kept.token, "lease-1");
    assert_eq!(kept.generated_at, T);
    assert_eq!(c.authorized().unwrap().token, "tok");
}

#[test]
fn failed_send_ends_the_upload() {
    let mut c = client();
    let mut b = bucket();
    b.get_upload_url(T, Ok(endpoint(1))).unwrap();
    let mut up = Upload::new(b"x".to_vec(), "x".to_string());
    up.step(&mut c, &mut b, UploadEvent::Start { now: T });
    let e = done(up.step(
        &mut c,
        &mut b,
        UploadEvent::Uploaded(Err(Error::of_transport_kind(ErrorKind::Timeout))),
    ))
    .unwrap_err();
    assert_eq!(e.kind(), ErrorKind::Timeout);
    assert_eq!(e.message(), "timed out");
    assert_eq!(up.state(), UploadState::Finished);
    assert_eq!(b.upload_url().unwrap().token, "lease-1");
}

#[test]
fn an_event_out_of_turn_changes_nothing() {
    let mut c = client();
    let mut b = bucket();
    let mut up = Upload::new(b"x".to_vec(), "x".to_string());
    assert!(up.step(&mut c, &mut b, UploadEvent::Leased(Ok(endpoint(1)))).is_none());
    assert!(up.step(&mut c, &mut b, UploadEvent::Authorized(Ok(session("t")))).is_none());
    assert!(up.step(&mut c, &mut b, UploadEvent::Uploaded(Ok(stored("x", 1)))).is_none());
    assert_eq!(up.state(), UploadState::Idle);
    assert!(c.authorized().is_none());
    assert!(b.upload_url().is_none());

    up.step(&mut c, &mut b, UploadEvent::Start { now: T });
    assert_eq!(up.state(), UploadState::Authorizing);
    assert!(up.step(&mut c, &mut b, UploadEvent::Start { now: T }).is_none());
    assert!(up.step(&mut c, &mut b, UploadEvent::Leased(Ok(endpoint(1)))).is_none());
    assert_eq!(up.state(), UploadState::Authorizing);
    assert!(b.upload_url().is_none());
}

#[test]
fn a_finished_upload_takes_no_more_steps() {
    let mut c = client();
    let mut b = bucket();
    b.get_upload_url(T, Ok(endpoint(1))).unwrap();
    let mut up = Upload::new(b"x".to_vec(), "x".to_string());
    up.step(&mut c, &mut b, UploadEvent::Start { now: T });
    done(up.step(&mut c, &mut b, UploadEvent::Uploaded(Ok(stored("x", 1))))).unwrap();
    assert!(up.step(&mut c, &mut b, UploadEvent::Start { now: T }).is_none());
    assert!(up.step(&mut c, &mut b, UploadEvent::Uploaded(Ok(stored("x", 1)))).is_none());
    assert_eq!(up.state(), UploadState::Finished);
}

#[test]
fn interleaved_uploads_all_complete_with_usable_leases() {
    let n: usize = 5;
    let mut c = client();
    c.authorize_account(Ok(session("tok"))).unwrap();
    let mut b = bucket();
    let mut uploads: Vec<Upload> =
        (0..n).map(|i| Upload::new(vec![i as u8; i], format!("file-{}", i))).collect();

    // Every upload begins before any lease has arrived: each asks for one.
    for (i, up) in uploads.iter_mut().enumerate() {
        let now = T + i as i64;
        assert!(matches!(
            up.step(&mut c, &mut b, UploadEvent::Start { now }),
            Some(UploadAction::GetUploadUrl(_))
        ));
    }
    // The answers arrive in reverse order; the last one stored wins.
    let mut requests = Vec::new();
    for i in (0..n).rev() {
        match uploads[i].step(&mut c, &mut b, UploadEvent::Leased(Ok(endpoint(i)))) {
            Some(UploadAction::Upload(req)) => {
                let lease = b.upload_url().unwrap();
                assert_eq!(req.url, lease.url);
                assert_eq!(req.authorization, lease.token);
                assert_eq!(req.authorization, format!("lease-{}", i));
                assert_eq!(lease.generated_at, T + i as i64);
                assert!(T + (i as i64) - lease.generated_at < 86_400_000);
                requests.push((i, req));
            }
            other => panic!("expected the upload, got {:?}", other),
        }
    }
    assert_eq!(b.upload_url().unwrap().token, "lease-0");
    for (i, req) in requests {
        assert_eq!(req.file_name, format!("file-{}", i));
        assert_eq!(req.content_length, i);
        let name = req.file_name.clone();
        let file = done(uploads[i].step(
            &mut c,
            &mut b,
            UploadEvent::Uploaded(Ok(stored(&name, req.content_length))),
        ))
        .unwrap();
        assert_eq!(file.name, format!("file-{}", i));
        assert_eq!(file.size, i);
        assert_eq!(uploads[i].state(), UploadState::Finished);
    }
    // A later upload finds the surviving lease and sends at once.
    let mut late = Upload::new(b"late".to_vec(), "late".to_string());
    match late.step(&mut c, &mut b, UploadEvent::Start { now: T + 1_000 }) {
        Some(UploadAction::Upload(req)) => assert_eq!(req.authorization, "lease-0"),
        other => panic!("expected the upload, got {:?}", other),
    }
}

#[test]
fn one_fetch_serves_uploads_that_begin_after_it() {
    let n: usize = 4;
    let mut c = client();
    c.authorize_account(Ok(session("tok"))).unwrap();
    let mut b = bucket();
    let mut uploads: Vec<Upload> =
        (0..n).map(|i| b.upload_file(vec![7u8; i + 1], format!("file-{}", i))).collect();
    let mut fetches = 0;
    let mut sends = 0;
    for (i, up) in uploads.iter_mut().enumerate() {
        let now = T + 1_000 * i as i64;
        let mut action = up.step(&mut c, &mut b, UploadEvent::Start { now });
        if let Some(UploadAction::GetUploadUrl(_)) = action {
            fetches += 1;
            action = up.step(&mut c, &mut b, UploadEvent::Leased(Ok(endpoint(i))));
        }
        match action {
            Some(UploadAction::Upload(req)) => {
                sends += 1;
                let lease = b.upload_url().unwrap();
                assert_eq!(req.authorization, "lease-0");
                assert_eq!(req.url, lease.url);
                assert_eq!(lease.generated_at, T);
                assert!(now - lease.generated_at < 86_400_000);
            }
            other => panic!("expected the upload, got {:?}", other),
        }
        let file =
            done(up.step(&mut c, &mut b, UploadEvent::Uploaded(Ok(stored("f", i + 1))))).unwrap();
        assert_eq!(file.size, i + 1);
    }
    assert_eq!(fetches, 1);
    assert_eq!(sends, n);
    assert!(uploads.iter().all(|up| up.state() == UploadState::Finished));
}

#[test]
fn interleaved_cold_uploads_fetch_at_most_once_each() {
    let n: usize = 3;
    let mut c = client();
    let mut b = bucket();
    let mut uploads: Vec<Upload> =
        (0..n).map(|i| Upload::new(vec![i as u8], format!("f{}", i))).collect();
    let mut authorizes = 0;
    let mut fetches = 0;
    // All begin with neither session nor lease: each asks to authorize.
    for up in uploads.iter_mut() {
        if let Some(UploadAction::Authorize(_)) =
            up.step(&mut c, &mut b, UploadEvent::Start { now: T })
        {
            authorizes += 1;
        }
    }
    assert_eq!(authorizes, n);
    for (i, up) in uploads.iter_mut().enumerate() {
        match up.step(&mut c, &mut b, UploadEvent::Authorized(Ok(session(&format!("tok-{}", i))))) {
            Some(UploadAction::GetUploadUrl(req)) => {
                fetches += 1;
                assert_eq!(req.authorization, format!("tok-{}", i));
            }
            other => panic!("expected the request for an endpoint, got {:?}", other),
        }
    }
    assert_eq!(c.authorized().unwrap().token, "tok-2");
    for (i, up) in uploads.iter_mut().enumerate() {
        match up.step(&mut c, &mut b, UploadEvent::Leased(Ok(endpoint(i)))) {
            Some(UploadAction::Upload(req)) => {
                assert_eq!(req.authorization, format!("lease-{}", i));
                assert_eq!(b.upload_url().unwrap().token, format!("lease-{}", i));
            }
            other => panic!("expected the upload, got {:?}", other),
        }
        assert!(up.step(&mut c, &mut b, UploadEvent::Leased(Ok(endpoint(9)))).is_none());
    }
    assert!(1 <= fetches && fetches <= n);
    assert_eq!(b.upload_url().unwrap().token, "lease-2");
    for up in uploads.iter_mut() {
        done(up.step(&mut c, &mut b, UploadEvent::Uploaded(Ok(stored("f", 1))))).unwrap();
    }
}
