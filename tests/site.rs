use nekoweb_rs::site::SiteRecord;
use nekoweb_rs::{Client, Method, Site, Timestamp};
use std::time::{Duration, UNIX_EPOCH};

const API: &str = "https://nekoweb.org/api";

#[test]
fn site_record_timestamps_round_trip() {
    let site = Site::from_record(SiteRecord {
        domain: "example.nekoweb.org".to_string(),
        updates: 12,
        followers: 3,
        views: 456,
        created_at: 1700000000000,
        updated_at: 1700000000123,
    });
    assert_eq!(site.domain, "example.nekoweb.org");
    assert_eq!((site.updates, site.followers, site.views), (12, 3, 456));
    assert_eq!(site.created_at.as_millis(), 1700000000000);
    assert_eq!(site.updated_at.as_millis(), 1700000000123);
    let t = UNIX_EPOCH + Duration::from_millis(site.updated_at.as_millis());
    assert_eq!(t.duration_since(UNIX_EPOCH).unwrap().as_millis(), 1700000000123);
}

#[test]
fn timestamp_extremes() {
    assert_eq!(Timestamp::from_millis(0).as_millis(), 0);
    assert_eq!(Timestamp::from_millis(u64::MAX).as_millis(), u64::MAX);
}

#[test]
fn site_requests() {
    let anon = Client::new("t");
    let r = anon.get_site("alice");
    assert_eq!(r.method, Method::Get);
    assert_eq!(r.url, format!("{API}/site/info/alice"));
    assert!(r.auth.is_none());

    let c = Client::new("t").authenticate("SECRET-REDACTED".to_string());
    let own = c.get_site(None);
    assert_eq!(own.url, format!("{API}/site/info"));
    assert_eq!(own.auth.as_deref(), Some("SECRET-REDACTED"));
    let other = c.get_site(Some("bob"));
    assert_eq!(other.url, format!("{API}/site/info/bob"));
}
