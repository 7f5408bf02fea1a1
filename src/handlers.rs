use vstd::prelude::*;
use vstd::string::*;
use crate::clock::{now, Timestamp};
use crate::db::{
    CreateShortenRequest, CreateShortenResponse, Database, DbView, Device, Scan, ShortLink, User,
    UserForm,
};
use crate::error::AppError;
use crate::ids::{is_generated_id, new_id};
use crate::table::{lists_exactly, Record};
use crate::text::{blank, is_blank, join_path, joined};

verus! {

/// Page data for a device step: the short link and the device in play.
#[derive(Debug, Clone)]
pub struct FormPage {
    pub short_id: String,
    pub device_id: String,
}

/// Page data for the last step of a visit, before the visitor moves on to `url`.
#[derive(Debug, Clone)]
pub struct RedirectPage {
    pub device_id: String,
    pub user_id: String,
    pub name: String,
    pub email: String,
    pub mobile: String,
    pub scan_id: String,
    pub short_url: String,
    pub timestamp: Timestamp,
    pub url: String,
}

/// The answer to a direct scan.
#[derive(Debug, Clone)]
pub struct ScanReceipt {
    pub scan_id: String,
    pub url: String,
    pub timestamp: Timestamp,
}

/// Copies of the four tables.
#[derive(Debug, Clone)]
pub struct DbSnapshot {
    pub shortened_links: Vec<ShortLink>,
    pub users: Vec<User>,
    pub devices: Vec<Device>,
    pub scans: Vec<Scan>,
}

pub open spec fn not_found_text(short_id: Seq<char>) -> Seq<char> {
    "Short URL not found: "@ + short_id
}

/// `r` is a validation error with message `msg`.
pub open spec fn invalid_with<T>(r: Result<T, AppError>, msg: Seq<char>) -> bool {
    match r {
        Err(AppError::ValidationError(m)) => m@ == msg,
        _ => false,
    }
}

/// `r` says that no link is stored under `short_id`.
pub open spec fn link_missing<T>(r: Result<T, AppError>, short_id: Seq<char>) -> bool {
    match r {
        Err(AppError::NotFound(m)) => m@ == not_found_text(short_id),
        _ => false,
    }
}

/// A device table after `d` is stored unless its id is already held.
pub open spec fn with_device(devices: Map<Seq<char>, Device>, d: Device) -> Map<Seq<char>, Device> {
    if devices.contains_key(d.device_id@) {
        devices
    } else {
        devices.insert(d.device_id@, d)
    }
}

/// The database after a link is shortened.
pub open spec fn after_shorten(db: DbView, link: ShortLink) -> DbView {
    DbView { links: db.links.insert(link.short_id@, link), ..db }
}

/// The database after a device is registered, first record kept.
pub open spec fn after_device(db: DbView, d: Device) -> DbView {
    DbView { devices: with_device(db.devices, d), ..db }
}

/// The database after a scan is recorded.
pub open spec fn after_scan(db: DbView, s: Scan) -> DbView {
    DbView { scans: db.scans.insert(s.scan_id@, s), ..db }
}

/// The database after a user is registered.
pub open spec fn after_user(db: DbView, u: User) -> DbView {
    DbView { users: db.users.insert(u.user_id@, u), ..db }
}

/// One of the form's required fields is blank.
pub open spec fn form_incomplete(form: UserForm) -> bool {
    blank(form.name@) || blank(form.email@) || blank(form.mobile@)
}

/// The database once a complete form is taken in, before its scan is recorded:
/// the device is known and the user stored.
pub open spec fn after_registration(db: DbView, form: UserForm, user_id: String, now: Timestamp) -> DbView {
    after_user(
        after_device(db, (Device { device_id: form.device_id, created_at: now })),
        (User {
            user_id,
            device_id: form.device_id,
            name: form.name,
            email: form.email,
            mobile: form.mobile,
            created_at: now,
        }),
    )
}

pub open spec fn same_db(a: DbView, b: DbView) -> bool {
    a.links == b.links && a.users == b.users && a.devices == b.devices && a.scans == b.scans
}

fn not_found(short_id: &String) -> (e: AppError)
    ensures
        e matches AppError::NotFound(m) && m@ == not_found_text(short_id@),
{
    let mut m = String::from_str("Short URL not found: ");
    m.append(short_id.as_str());
    AppError::NotFound(m)
}

fn invalid(msg: &str) -> (e: AppError)
    ensures
        e matches AppError::ValidationError(m) && m@ == msg@,
{
    AppError::ValidationError(String::from_str(msg))
}

/// Stores `url` under `short_id` and answers with the short URL under `base_url`.
pub fn shorten(db: &mut Database, base_url: &String, url: String, short_id: String, now: Timestamp) -> (r: CreateShortenResponse)
    requires
        old(db).wf(),
    ensures
        final(db).wf(),
        same_db(final(db)@, after_shorten(old(db)@, (ShortLink { short_id, url, created_at: now }))),
        r.short_url@ == joined(base_url@, short_id@),
        r.timestamp == now,
{
    let short_url = join_path(base_url, &short_id);
    db.shortened_links.insert(ShortLink { short_id, url, created_at: now });
    CreateShortenResponse { short_url, timestamp: now }
}

/// Shortens the request's URL under a fresh identifier.
pub fn handle_shorten(db: &mut Database, base_url: &String, body: CreateShortenRequest) -> (r: CreateShortenResponse)
    requires
        old(db).wf(),
    ensures
        final(db).wf(),
        exists|l: ShortLink|
            {
                &&& is_generated_id(l.short_id@)
                &&& l.url == body.url
                &&& l.created_at == r.timestamp
                &&& same_db(final(db)@, after_shorten(old(db)@, l))
                &&& r.short_url@ == joined(base_url@, l.short_id@)
            },
{
    let short_id = new_id();
    let t = now();
    let ghost l = ShortLink { short_id, url: body.url, created_at: t };
    let r = shorten(db, base_url, body.url, short_id, t);
    assert(is_generated_id(l.short_id@));
    r
}

/// Succeeds exactly when `short_id` names a stored link.
pub fn handle_redirect(db: &Database, short_id: &String) -> (r: Result<(), AppError>)
    requires
        db.wf(),
    ensures
        r is Ok <==> db@.links.contains_key(short_id@),
        r is Err ==> link_missing(r, short_id@),
{
    if db.shortened_links.contains(short_id) {
        Ok(())
    } else {
        Err(not_found(short_id))
    }
}

/// Registers the device, unless it is already known, and hands both ids on
/// to the registration form.
pub fn check_device(db: &mut Database, device_id: Option<String>, short_id: Option<String>, now: Timestamp) -> (r: Result<FormPage, AppError>)
    requires
        old(db).wf(),
    ensures
        final(db).wf(),
        device_id is None ==> same_db(final(db)@, old(db)@) && invalid_with(r, "Missing device_id"@),
        device_id is Some && short_id is None ==> same_db(final(db)@, old(db)@) && invalid_with(r, "Missing short_id"@),
        device_id is Some && short_id is Some ==> {
            &&& same_db(final(db)@, after_device(old(db)@, (Device { device_id: device_id->Some_0, created_at: now })))
            &&& r is Ok
            &&& r->Ok_0.device_id == device_id->Some_0
            &&& r->Ok_0.short_id == short_id->Some_0
        },
{
    let device_id = match device_id {
        Some(d) => d,
        None => return Err(invalid("Missing device_id")),
    };
    let short_id = match short_id {
        Some(s) => s,
        None => return Err(invalid("Missing short_id")),
    };
    db.devices.insert_if_absent(Device { device_id: device_id.clone(), created_at: now });
    Ok(FormPage { short_id, device_id })
}

/// [`check_device`] at the current time.
pub fn handle_check_device(db: &mut Database, device_id: Option<String>, short_id: Option<String>) -> (r: Result<FormPage, AppError>)
    requires
        old(db).wf(),
    ensures
        final(db).wf(),
        device_id is None ==> same_db(final(db)@, old(db)@) && invalid_with(r, "Missing device_id"@),
        device_id is Some && short_id is None ==> same_db(final(db)@, old(db)@) && invalid_with(r, "Missing short_id"@),
        device_id is Some && short_id is Some ==> {
            &&& exists|t: Timestamp| same_db(final(db)@, after_device(old(db)@, (Device { device_id: device_id->Some_0, created_at: t })))
            &&& r is Ok
            &&& r->Ok_0.device_id == device_id->Some_0
            &&& r->Ok_0.short_id == short_id->Some_0
        },
{
    let t = now();
    check_device(db, device_id, short_id, t)
}

/// Registers `device_id` as a device and hands it to the new-device form. A
/// device already known keeps its first record.
pub fn get_form(db: &mut Database, short_id: String, device_id: String, now: Timestamp) -> (r: FormPage)
    requires
        old(db).wf(),
    ensures
        final(db).wf(),
        same_db(final(db)@, after_device(old(db)@, (Device { device_id, created_at: now }))),
        r.short_id == short_id,
        r.device_id == device_id,
{
    db.devices.insert_if_absent(Device { device_id: device_id.clone(), created_at: now });
    FormPage { short_id, device_id }
}

/// [`get_form`] with a fresh device id at the current time.
pub fn handle_get_form(db: &mut Database, short_id: String) -> (r: FormPage)
    requires
        old(db).wf(),
    ensures
        final(db).wf(),
        is_generated_id(r.device_id@),
        r.short_id == short_id,
        exists|t: Timestamp| same_db(final(db)@, after_device(old(db)@, (Device { device_id: r.device_id, created_at: t }))),
{
    let device_id = new_id();
    let t = now();
    get_form(db, short_id, device_id, t)
}

/// Takes in a registration form: checks that name, email and mobile are not
/// blank, makes sure the device is known, stores the user, then records a
/// scan of the short link and answers with the link's target. A missing link
/// fails after the device and the user have been stored.
pub fn user_form(db: &mut Database, form: UserForm, user_id: String, scan_id: String, now: Timestamp) -> (r: Result<RedirectPage, AppError>)
    requires
        old(db).wf(),
    ensures
        final(db).wf(),
        form_incomplete(form) ==> invalid_with(r, "All fields are required"@) && same_db(final(db)@, old(db)@),
        !form_incomplete(form) && !old(db)@.links.contains_key(form.short_id@) ==> {
            &&& link_missing(r, form.short_id@)
            &&& same_db(final(db)@, after_registration(old(db)@, form, user_id, now))
        },
        !form_incomplete(form) && old(db)@.links.contains_key(form.short_id@) ==> {
            &&& same_db(
                final(db)@,
                after_scan(
                    after_registration(old(db)@, form, user_id, now),
                    (Scan {
                        scan_id,
                        short_url: form.short_id,
                        user_id,
                        device_id: form.device_id,
                        timestamp: now,
                    }),
                ),
            )
            &&& r is Ok
            &&& (RedirectPage {
                device_id: form.device_id,
                user_id,
                name: form.name,
                email: form.email,
                mobile: form.mobile,
                scan_id,
                short_url: form.short_id,
                timestamp: now,
                url: old(db)@.links[form.short_id@].url,
            }) == r->Ok_0
        },
{
    if is_blank(&form.name) || is_blank(&form.email) || is_blank(&form.mobile) {
        return Err(invalid("All fields are required"));
    }
    let ghost old_links = db@.links;
    db.devices.insert_if_absent(Device { device_id: form.device_id.clone(), created_at: now });
    db.users.insert(
        User {
            user_id: user_id.clone(),
            device_id: form.device_id.clone(),
            name: form.name.clone(),
            email: form.email.clone(),
            mobile: form.mobile.clone(),
            created_at: now,
        },
    );
    let url = match db.shortened_links.get(&form.short_id) {
        Some(link) => link.url.clone(),
        None => return Err(not_found(&form.short_id)),
    };
    db.scans.insert(
        Scan {
            scan_id: scan_id.clone(),
            short_url: form.short_id.clone(),
            user_id: user_id.clone(),
            device_id: form.device_id.clone(),
            timestamp: now,
        },
    );
    Ok(RedirectPage {
        device_id: form.device_id,
        user_id,
        name: form.name,
        email: form.email,
        mobile: form.mobile,
        scan_id,
        short_url: form.short_id,
        timestamp: now,
        url,
    })
}

/// [`user_form`] with fresh user and scan ids at the current time.
pub fn handle_user_form(db: &mut Database, form: UserForm) -> (r: Result<RedirectPage, AppError>)
    requires
        old(db).wf(),
    ensures
        final(db).wf(),
        form_incomplete(form) ==> invalid_with(r, "All fields are required"@) && same_db(final(db)@, old(db)@),
        !form_incomplete(form) && !old(db)@.links.contains_key(form.short_id@) ==> {
            &&& link_missing(r, form.short_id@)
            &&& final(db)@.scans == old(db)@.scans
            &&& exists|u: String, t: Timestamp| is_generated_id(u@) && same_db(final(db)@, after_registration(old(db)@, form, u, t))
        },
        !form_incomplete(form) && old(db)@.links.contains_key(form.short_id@) ==> {
            &&& r is Ok
            &&& is_generated_id(r->Ok_0.user_id@)
            &&& is_generated_id(r->Ok_0.scan_id@)
            &&& r->Ok_0.url == old(db)@.links[form.short_id@].url
            &&& r->Ok_0.short_url == form.short_id
            &&& r->Ok_0.device_id == form.device_id
            &&& r->Ok_0.name == form.name
            &&& r->Ok_0.email == form.email
            &&& r->Ok_0.mobile == form.mobile
            &&& same_db(
                final(db)@,
                after_scan(
                    after_registration(old(db)@, form, r->Ok_0.user_id, r->Ok_0.timestamp),
                    (Scan {
                        scan_id: r->Ok_0.scan_id,
                        short_url: form.short_id,
                        user_id: r->Ok_0.user_id,
                        device_id: form.device_id,
                        timestamp: r->Ok_0.timestamp,
                    }),
                ),
            )
        },
{
    let user_id = new_id();
    let scan_id = new_id();
    let t = now();
    user_form(db, form, user_id, scan_id, t)
}

/// Records a scan of the short link for the given device and user, neither of
/// which is looked up, and answers with the link's target.
pub fn direct_scan(
    db: &mut Database,
    device_id: Option<String>,
    user_id: Option<String>,
    short_id: Option<String>,
    scan_id: String,
    now: Timestamp,
) -> (r: Result<ScanReceipt, AppError>)
    requires
        old(db).wf(),
    ensures
        final(db).wf(),
        device_id is None ==> invalid_with(r, "Missing device_id"@) && same_db(final(db)@, old(db)@),
        device_id is Some && user_id is None ==> invalid_with(r, "Missing user_id"@) && same_db(final(db)@, old(db)@),
        device_id is Some && user_id is Some && short_id is None ==> invalid_with(r, "Missing short_id"@) && same_db(final(db)@, old(db)@),
        device_id is Some && user_id is Some && short_id is Some && !old(db)@.links.contains_key(short_id->Some_0@) ==> {
            &&& link_missing(r, short_id->Some_0@)
            &&& same_db(final(db)@, old(db)@)
        },
        device_id is Some && user_id is Some && short_id is Some && old(db)@.links.contains_key(short_id->Some_0@) ==> {
            &&& same_db(
                final(db)@,
                after_scan(
                    old(db)@,
                    (Scan {
                        scan_id,
                        short_url: short_id->Some_0,
                        user_id: user_id->Some_0,
                        device_id: device_id->Some_0,
                        timestamp: now,
                    }),
                ),
            )
            &&& r is Ok
            &&& (ScanReceipt { scan_id, url: old(db)@.links[short_id->Some_0@].url, timestamp: now }) == r->Ok_0
        },
{
    let device_id = match device_id {
        Some(d) => d,
        None => return Err(invalid("Missing device_id")),
    };
    let user_id = match user_id {
        Some(u) => u,
        None => return Err(invalid("Missing user_id")),
    };
    let short_id = match short_id {
        Some(s) => s,
        None => return Err(invalid("Missing short_id")),
    };
    let url = match db.shortened_links.get(&short_id) {
        Some(link) => link.url.clone(),
        None => return Err(not_found(&short_id)),
    };
    db.scans.insert(Scan { scan_id: scan_id.clone(), short_url: short_id, user_id, device_id, timestamp: now });
    Ok(ScanReceipt { scan_id, url, timestamp: now })
}

/// [`direct_scan`] with a fresh scan id at the current time.
pub fn handle_direct_scan(db: &mut Database, device_id: Option<String>, user_id: Option<String>, short_id: Option<String>) -> (r: Result<ScanReceipt, AppError>)
    requires
        old(db).wf(),
    ensures
        final(db).wf(),
        device_id is None ==> invalid_with(r, "Missing device_id"@) && same_db(final(db)@, old(db)@),
        device_id is Some && user_id is None ==> invalid_with(r, "Missing user_id"@) && same_db(final(db)@, old(db)@),
        device_id is Some && user_id is Some && short_id is None ==> invalid_with(r, "Missing short_id"@) && same_db(final(db)@, old(db)@),
        device_id is Some && user_id is Some && short_id is Some && !old(db)@.links.contains_key(short_id->Some_0@) ==> {
            &&& link_missing(r, short_id->Some_0@)
            &&& same_db(final(db)@, old(db)@)
        },
        device_id is Some && user_id is Some && short_id is Some && old(db)@.links.contains_key(short_id->Some_0@) ==> {
            &&& r is Ok
            &&& is_generated_id(r->Ok_0.scan_id@)
            &&& r->Ok_0.url == old(db)@.links[short_id->Some_0@].url
            &&& same_db(
                final(db)@,
                after_scan(
                    old(db)@,
                    (Scan {
                        scan_id: r->Ok_0.scan_id,
                        short_url: short_id->Some_0,
                        user_id: user_id->Some_0,
                        device_id: device_id->Some_0,
                        timestamp: r->Ok_0.timestamp,
                    }),
                ),
            )
        },
{
    let scan_id = new_id();
    let t = now();
    direct_scan(db, device_id, user_id, short_id, scan_id, t)
}

/// Copies of all four tables.
pub fn handle_visualize_db(db: &Database) -> (r: DbSnapshot)
    requires
        db.wf(),
    ensures
        lists_exactly(r.shortened_links@, db@.links),
        lists_exactly(r.users@, db@.users),
        lists_exactly(r.devices@, db@.devices),
        lists_exactly(r.scans@, db@.scans),
{
    DbSnapshot {
        shortened_links: db.shortened_links.snapshot(),
        users: db.users.snapshot(),
        devices: db.devices.snapshot(),
        scans: db.scans.snapshot(),
    }
}

} // verus!
