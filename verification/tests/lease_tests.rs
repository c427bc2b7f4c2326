use rustblaze::bucket::{
    Bucket, GetUploadUrlResponse, LeaseStep, ListBucketsBuckets, UploadUrl, UploadUrlInner,
    LEASE_TTL_MS,
};
use rustblaze::error::{Error, ErrorKind, ErrorResponse};

fn bucket() -> Bucket {
    Bucket::from_list_buckets_buckets(ListBucketsBuckets {
        account_id: "acct".to_string(),
        bucket_id: "b-1".to_string(),
        bucket_name: "photos".to_string(),
    })
}

fn endpoint(n: u32) -> GetUploadUrlResponse {
    GetUploadUrlResponse {
        upload_url: format!("https://pod.example/upload/{}", n),
        authorization_token: format!("lease-{}", n),
    }
}

fn failure() -> Error {
    Error::from(ErrorResponse {
        status: 400,
        code: "bad_bucket_id".to_string(),
        message: "no such bucket".to_string(),
    })
}

#[test]
fn the_window_is_a_day() {
    assert_eq!(LEASE_TTL_MS, 86_400_000);
    assert_eq!(LEASE_TTL_MS, 24 * 60 * 60 * 1000);
}

#[test]
fn upload_url_starts_empty() {
    assert!(UploadUrl::new().get().is_none());
    assert!(UploadUrl::default().get().is_none());
}

#[test]
fn upload_url_set_hands_back_and_keeps() {
    let mut place = UploadUrl::new();
    let kept = place.set(UploadUrlInner {
        url: "u".to_string(),
        token: "t".to_string(),
        generated_at: 5,
    });
    assert_eq!(kept.url, "u");
    assert_eq!(kept.token, "t");
    assert_eq!(kept.generated_at, 5);
    let got = place.get().unwrap();
    assert_eq!(got.url, "u");
    assert_eq!(got.token, "t");
    assert_eq!(got.generated_at, 5);
    place.set(UploadUrlInner { url: "u2".to_string(), token: "t2".to_string(), generated_at: 6 });
    assert_eq!(place.get().unwrap().url, "u2");
    assert_eq!(place.get().unwrap().generated_at, 6);
}

#[test]
fn bucket_without_lease_refreshes() {
    let b = bucket();
    assert_eq!(b.id(), "b-1");
    assert_eq!(b.name(), "photos");
    assert!(b.upload_url().is_none());
    assert!(matches!(b.get_or_try_get_upload_url(1_000), LeaseStep::Refresh));
}

#[test]
fn fetched_lease_is_issued_at_the_given_time() {
    let mut b = bucket();
    let lease = b.get_upload_url(1_700_000_000_000, Ok(endpoint(1))).unwrap();
    assert_eq!(lease.url, "https://pod.example/upload/1");
    assert_eq!(lease.token, "lease-1");
    assert_eq!(lease.generated_at, 1_700_000_000_000);
    let kept = b.upload_url().unwrap();
    assert_eq!(kept.url, "https://pod.example/upload/1");
    assert_eq!(kept.token, "lease-1");
    assert_eq!(kept.generated_at, 1_700_000_000_000);
    assert_eq!(b.id(), "b-1");
    assert_eq!(b.name(), "photos");
}

#[test]
fn lease_is_reused_below_the_window() {
    let t: i64 = 1_700_000_000_000;
    let mut b = bucket();
    b.get_upload_url(t, Ok(endpoint(1))).unwrap();
    for later in [t, t + 1, t + 3_600_000, t + 86_399_999] {
        match b.get_or_try_get_upload_url(later) {
            LeaseStep::Reuse(lease) => {
                assert_eq!(lease.url, "https://pod.example/upload/1");
                assert_eq!(lease.token, "lease-1");
                assert_eq!(lease.generated_at, t);
            }
            LeaseStep::Refresh => panic!("the lease is younger than the window"),
        }
    }
}

#[test]
fn lease_is_replaced_from_the_end_of_the_window() {
    let t: i64 = 1_700_000_000_000;
    let mut b = bucket();
    b.get_upload_url(t, Ok(endpoint(1))).unwrap();
    for later in [t + 86_400_000, t + 86_400_001, t + 10 * 86_400_000, i64::MAX] {
        assert!(matches!(b.get_or_try_get_upload_url(later), LeaseStep::Refresh));
    }
    let fresh = b.get_upload_url(t + 86_400_000, Ok(endpoint(2))).unwrap();
    assert_eq!(fresh.token, "lease-2");
    assert_eq!(fresh.generated_at, t + 86_400_000);
    assert!(matches!(b.get_or_try_get_upload_url(t + 86_400_001), LeaseStep::Reuse(_)));
}

#[test]
fn lease_from_the_future_is_reused() {
    let mut b = bucket();
    b.get_upload_url(5_000, Ok(endpoint(1))).unwrap();
    assert!(matches!(b.get_or_try_get_upload_url(4_000), LeaseStep::Reuse(_)));
    assert!(matches!(b.get_or_try_get_upload_url(i64::MIN), LeaseStep::Reuse(_)));
}

#[test]
fn freshness_at_the_ends_of_the_clock() {
    let mut b = bucket();
    b.get_upload_url(i64::MIN, Ok(endpoint(1))).unwrap();
    assert!(matches!(b.get_or_try_get_upload_url(i64::MAX), LeaseStep::Refresh));
    assert!(matches!(b.get_or_try_get_upload_url(i64::MIN + 86_399_999), LeaseStep::Reuse(_)));
    assert!(matches!(b.get_or_try_get_upload_url(i64::MIN + 86_400_000), LeaseStep::Refresh));
}

#[test]
fn failed_refresh_keeps_the_stale_lease() {
    let t: i64 = 1_000;
    let mut b = bucket();
    b.get_upload_url(t, Ok(endpoint(1))).unwrap();
    let e = b.get_upload_url(t + 86_400_000, Err(failure())).unwrap_err();
    assert_eq!(e.kind(), ErrorKind::BadBucketId);
    assert_eq!(e.message(), "no such bucket");
    let kept = b.upload_url().unwrap();
    assert_eq!(kept.token, "lease-1");
    assert_eq!(kept.generated_at, t);
    assert!(matches!(b.get_or_try_get_upload_url(t + 86_400_000), LeaseStep::Refresh));
}

#[test]
fn failed_refresh_on_empty_bucket_stores_nothing() {
    let mut b = bucket();
    assert!(b.get_upload_url(1, Err(failure())).is_err());
    assert!(b.upload_url().is_none());
}

#[test]
fn deciding_does_not_change_the_bucket() {
    let mut b = bucket();
    b.get_upload_url(10, Ok(endpoint(1))).unwrap();
    let _ = b.get_or_try_get_upload_url(10 + 86_400_000);
    assert_eq!(b.upload_url().unwrap().token, "lease-1");
    assert_eq!(b.id(), "b-1");
    assert_eq!(b.name(), "photos");
    assert_eq!(b.upload_url().unwrap().generated_at, 10);
}
