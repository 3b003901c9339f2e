//! Metadata of a hosted site.
use vstd::prelude::*;

use crate::request::{auth_get, plain_get, Request};
use crate::{Authenticated, Client, Unauthenticated};

verus! {

/// A point in time, as milliseconds since the Unix epoch.
pub struct Timestamp {
    millis: u64,
}

impl View for Timestamp {
    type V = nat;

    /// Milliseconds since the Unix epoch.
    closed spec fn view(&self) -> nat {
        self.millis as nat
    }
}

impl Timestamp {
    /// The point `millis` milliseconds after the Unix epoch.
    pub fn from_millis(millis: u64) -> (r: Timestamp)
        ensures
            r@ == millis,
    {
        Timestamp { millis }
    }

    /// Milliseconds since the Unix epoch, exactly as the timestamp was made.
    pub fn as_millis(&self) -> (r: u64)
        ensures
            r == self@,
    {
        self.millis
    }
}

/// A timestamp made from `millis` reads back as exactly `millis`: its
/// milliseconds always fit in a `u64`, so nothing is lost either way.
pub proof fn lemma_timestamp_round_trip(millis: u64, t: Timestamp)
    requires
        t@ == millis,
    ensures
        t@ <= u64::MAX,
        t@ as u64 == millis,
{
}

/// The fields of a site as the server sends them, timestamps in milliseconds
/// since the Unix epoch.
pub struct SiteRecord {
    pub domain: String,
    pub updates: u64,
    pub followers: u64,
    pub views: u64,
    pub created_at: u64,
    pub updated_at: u64,
}

/// Metadata of a hosted site.
pub struct Site {
    pub domain: String,
    pub updates: u64,
    pub followers: u64,
    pub views: u64,
    pub created_at: Timestamp,
    pub updated_at: Timestamp,
}

impl Site {
    /// The site that `record` describes, its timestamps converted to points in
    /// time with millisecond precision.
    pub fn from_record(record: SiteRecord) -> (r: Site)
        ensures
            r.domain@ == record.domain@,
            r.updates == record.updates,
            r.followers == record.followers,
            r.views == record.views,
            r.created_at@ == record.created_at,
            r.updated_at@ == record.updated_at,
    {
        Site {
            domain: record.domain,
            updates: record.updates,
            followers: record.followers,
            views: record.views,
            created_at: Timestamp::from_millis(record.created_at),
            updated_at: Timestamp::from_millis(record.updated_at),
        }
    }
}

/// The path of the site information of `username`, or of the caller's own
/// site where there is none.
pub open spec fn site_path(username: Option<Seq<char>>) -> Seq<char> {
    match username {
        Some(u) => "/site/info/"@ + u,
        None => "/site/info"@,
    }
}

fn site_path_of(username: Option<&str>) -> (r: String)
    ensures
        r@ == site_path(match username {
            Some(u) => Some(u@),
            None => None,
        }),
{
    match username {
        Some(u) => String::from_str("/site/info/").concat(u),
        None => String::from_str("/site/info"),
    }
}

impl Client<Authenticated> {
    /// Asks for the site of `username`, or for the client's own site.
    pub fn get_site(&self, username: Option<&str>) -> (r: Request)
        ensures
            r@ == auth_get(
                self.base(),
                self.token(),
                site_path(match username {
                    Some(u) => Some(u@),
                    None => None,
                }),
            ),
    {
        let path = site_path_of(username);
        self.get_auth(path.as_str())
    }
}

impl Client<Unauthenticated> {
    /// Asks for the site of `username`; no credential is sent.
    pub fn get_site(&self, username: &str) -> (r: Request)
        ensures
            r@ == plain_get(self.base(), site_path(Some(username@))),
    {
        let path = site_path_of(Some(username));
        self.get(path.as_str())
    }
}

} // verus!
