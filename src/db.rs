use vstd::prelude::*;
use crate::clock::Timestamp;
use crate::table::{Record, Table};

verus! {

/// A short identifier and the URL it stands for.
#[derive(Debug, Clone)]
pub struct ShortLink {
    pub short_id: String,
    pub url: String,
    pub created_at: Timestamp,
}

#[derive(Debug, Clone)]
pub struct User {
    pub user_id: String,
    pub device_id: String,
    pub name: String,
    pub email: String,
    pub mobile: String,
    pub created_at: Timestamp,
}

#[derive(Debug, Clone)]
pub struct Device {
    pub device_id: String,
    pub created_at: Timestamp,
}

/// One visit through a short link. `short_url` holds the short identifier.
#[derive(Debug, Clone)]
pub struct Scan {
    pub scan_id: String,
    pub short_url: String,
    pub user_id: String,
    pub device_id: String,
    pub timestamp: Timestamp,
}

impl Record for ShortLink {
    open spec fn key_of(&self) -> Seq<char> {
        self.short_id@
    }

    fn key(&self) -> (r: &String) {
        &self.short_id
    }

    fn duplicate(&self) -> (r: Self) {
        ShortLink { short_id: self.short_id.clone(), url: self.url.clone(), created_at: self.created_at }
    }
}

impl Record for User {
    open spec fn key_of(&self) -> Seq<char> {
        self.user_id@
    }

    fn key(&self) -> (r: &String) {
        &self.user_id
    }

    fn duplicate(&self) -> (r: Self) {
        User {
            user_id: self.user_id.clone(),
            device_id: self.device_id.clone(),
            name: self.name.clone(),
            email: self.email.clone(),
            mobile: self.mobile.clone(),
            created_at: self.created_at,
        }
    }
}

impl Record for Device {
    open spec fn key_of(&self) -> Seq<char> {
        self.device_id@
    }

    fn key(&self) -> (r: &String) {
        &self.device_id
    }

    fn duplicate(&self) -> (r: Self) {
        Device { device_id: self.device_id.clone(), created_at: self.created_at }
    }
}

impl Record for Scan {
    open spec fn key_of(&self) -> Seq<char> {
        self.scan_id@
    }

    fn key(&self) -> (r: &String) {
        &self.scan_id
    }

    fn duplicate(&self) -> (r: Self) {
        Scan {
            scan_id: self.scan_id.clone(),
            short_url: self.short_url.clone(),
            user_id: self.user_id.clone(),
            device_id: self.device_id.clone(),
            timestamp: self.timestamp,
        }
    }
}

/// The four tables of the service.
pub struct Database {
    pub shortened_links: Table<ShortLink>,
    pub users: Table<User>,
    pub devices: Table<Device>,
    pub scans: Table<Scan>,
}

/// The contents of a [`Database`], table by table, each keyed by its records' ids.
pub struct DbView {
    pub links: Map<Seq<char>, ShortLink>,
    pub users: Map<Seq<char>, User>,
    pub devices: Map<Seq<char>, Device>,
    pub scans: Map<Seq<char>, Scan>,
}

impl View for Database {
    type V = DbView;

    open spec fn view(&self) -> DbView {
        DbView {
            links: self.shortened_links@,
            users: self.users@,
            devices: self.devices@,
            scans: self.scans@,
        }
    }
}

impl Database {
    pub open spec fn wf(&self) -> bool {
        &&& self.shortened_links.wf()
        &&& self.users.wf()
        &&& self.devices.wf()
        &&& self.scans.wf()
    }

    pub fn new() -> (r: Self)
        ensures
            r.wf(),
            r@.links.is_empty(),
            r@.users.is_empty(),
            r@.devices.is_empty(),
            r@.scans.is_empty(),
    {
        Database {
            shortened_links: Table::new(),
            users: Table::new(),
            devices: Table::new(),
            scans: Table::new(),
        }
    }
}

/// A submitted registration form.
#[derive(Debug, Clone)]
pub struct UserForm {
    pub short_id: String,
    pub device_id: String,
    pub name: String,
    pub email: String,
    pub mobile: String,
}

/// A request to shorten a URL.
#[derive(Debug, Clone)]
pub struct CreateShortenRequest {
    pub url: String,
}

/// The answer to a shorten request.
#[derive(Debug, Clone)]
pub struct CreateShortenResponse {
    pub short_url: String,
    pub timestamp: Timestamp,
}

} // verus!
