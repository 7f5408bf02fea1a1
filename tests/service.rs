use qr_tracker::config::{decimal_text, parse_port};
use qr_tracker::handlers::{
    check_device, direct_scan, get_form, handle_check_device, handle_direct_scan, handle_get_form,
    handle_redirect, handle_shorten, handle_user_form, handle_visualize_db, shorten, user_form,
};
use qr_tracker::ids::new_id;
use qr_tracker::text::is_blank;
use qr_tracker::{AppError, Config, CreateShortenRequest, Database, Device, Timestamp, UserForm};

fn t(secs: i64) -> Timestamp {
    Timestamp { secs, nanos: 0 }
}

fn base() -> String {
    "http://127.0.0.1:3030".to_string()
}

fn form(short_id: &str, device_id: &str, name: &str, email: &str, mobile: &str) -> UserForm {
    UserForm {
        short_id: short_id.to_string(),
        device_id: device_id.to_string(),
        name: name.to_string(),
        email: email.to_string(),
        mobile: mobile.to_string(),
    }
}

fn is_url_safe(c: char) -> bool {
    c.is_ascii_alphanumeric() || c == '_' || c == '-'
}

fn validation_message(e: &AppError) -> String {
    match e {
        AppError::ValidationError(m) => m.clone(),
        other => panic!("expected a validation error, got {:?}", other),
    }
}

#[test]
fn config_defaults() {
    let c = Config::new(None, None, None, "./templates".to_string());
    assert_eq!(c.server_host, "127.0.0.1");
    assert_eq!(c.server_port, 3030);
    assert_eq!(c.get_base_url(), "http://127.0.0.1:3030");
    assert_eq!(c.templates_path, "./templates");
}

#[test]
fn config_from_set_values() {
    let c = Config::new(Some("0.0.0.0".to_string()), Some("8080".to_string()), None, "t".to_string());
    assert_eq!(c.server_port, 8080);
    assert_eq!(c.get_base_url(), "http://0.0.0.0:8080");
    let c = Config::new(None, Some("9".to_string()), Some("https://s.example".to_string()), "t".to_string());
    assert_eq!(c.server_port, 9);
    assert_eq!(c.get_base_url(), "https://s.example");
}

#[test]
fn config_bad_port_falls_back() {
    for p in ["", "abc", "70000", "65536", "-1", "+", "80 "] {
        let c = Config::new(None, Some(p.to_string()), None, "t".to_string());
        assert_eq!(c.server_port, 3030, "port text {:?}", p);
    }
}

#[test]
fn port_parsing() {
    assert_eq!(parse_port(&"8080".to_string()), Some(8080));
    assert_eq!(parse_port(&"+80".to_string()), Some(80));
    assert_eq!(parse_port(&"0".to_string()), Some(0));
    assert_eq!(parse_port(&"00042".to_string()), Some(42));
    assert_eq!(parse_port(&"65535".to_string()), Some(65535));
    assert_eq!(parse_port(&"65536".to_string()), None);
    assert_eq!(parse_port(&"99999999999".to_string()), None);
    assert_eq!(parse_port(&"12a".to_string()), None);
    assert_eq!(parse_port(&"".to_string()), None);
}

#[test]
fn decimal_forms() {
    assert_eq!(decimal_text(0), "0");
    assert_eq!(decimal_text(7), "7");
    assert_eq!(decimal_text(3030), "3030");
    assert_eq!(decimal_text(65535), "65535");
}

#[test]
fn error_texts() {
    assert_eq!(AppError::NotFound("x".to_string()).to_string(), "Not found: x");
    assert_eq!(AppError::DatabaseError("lock".to_string()).to_string(), "Database error: lock");
    assert_eq!(AppError::ValidationError("v".to_string()).to_string(), "Validation error: v");
    assert_eq!(AppError::TemplateError("t".to_string()).to_string(), "Template error: t");
}

#[test]
fn blank_text() {
    assert!(is_blank(&"".to_string()));
    assert!(is_blank(&"  \t\n".to_string()));
    assert!(is_blank(&"\u{3000}".to_string()));
    assert!(!is_blank(&" a ".to_string()));
    assert!(!is_blank(&"A".to_string()));
}

#[test]
fn generated_ids_have_their_shape() {
    for _ in 0..50 {
        let id = new_id();
        assert_eq!(id.chars().count(), 10);
        assert!(id.chars().all(is_url_safe), "{}", id);
    }
}

#[test]
fn shorten_stores_link_under_given_id() {
    let mut db = Database::new();
    let r = shorten(&mut db, &base(), "https://example.com/x".to_string(), "AbC123XyZ9".to_string(), t(5));
    assert_eq!(r.short_url, "http://127.0.0.1:3030/AbC123XyZ9");
    assert_eq!(r.timestamp, t(5));
    let link = db.shortened_links.get(&"AbC123XyZ9".to_string()).unwrap();
    assert_eq!(link.url, "https://example.com/x");
    assert_eq!(db.shortened_links.len(), 1);
}

#[test]
fn shorten_then_redirect_finds_the_link() {
    let mut db = Database::new();
    let url = "https://example.com/a?b=1&c=2#frag".to_string();
    let r = handle_shorten(&mut db, &base(), CreateShortenRequest { url: url.clone() });
    let prefix = "http://127.0.0.1:3030/";
    assert!(r.short_url.starts_with(prefix));
    let id = r.short_url.rsplit('/').next().unwrap().to_string();
    assert_eq!(id.chars().count(), 10);
    assert!(id.chars().all(is_url_safe));
    assert!(handle_redirect(&db, &id).is_ok());
    assert_eq!(db.shortened_links.get(&id).unwrap().url, url);
}

#[test]
fn redirect_unknown_is_not_found() {
    let db = Database::new();
    match handle_redirect(&db, &"nope".to_string()) {
        Err(AppError::NotFound(m)) => assert_eq!(m, "Short URL not found: nope"),
        other => panic!("unexpected {:?}", other),
    }
}

#[test]
fn check_device_registers_once() {
    let mut db = Database::new();
    let p = check_device(&mut db, Some("dev1".to_string()), Some("s".to_string()), t(1)).unwrap();
    assert_eq!(p.device_id, "dev1");
    assert_eq!(p.short_id, "s");
    check_device(&mut db, Some("dev1".to_string()), Some("s".to_string()), t(2)).unwrap();
    assert_eq!(db.devices.len(), 1);
    assert_eq!(db.devices.get(&"dev1".to_string()).unwrap().created_at, t(1));
    handle_check_device(&mut db, Some("dev1".to_string()), Some("s".to_string())).unwrap();
    assert_eq!(db.devices.len(), 1);
}

#[test]
fn check_device_missing_fields() {
    let mut db = Database::new();
    let e = check_device(&mut db, None, Some("s".to_string()), t(1)).unwrap_err();
    assert_eq!(validation_message(&e), "Missing device_id");
    let e = check_device(&mut db, Some("d".to_string()), None, t(1)).unwrap_err();
    assert_eq!(validation_message(&e), "Missing short_id");
    assert_eq!(db.devices.len(), 0);
}

#[test]
fn get_form_registers_new_device() {
    let mut db = Database::new();
    let p = get_form(&mut db, "s".to_string(), "devX".to_string(), t(3));
    assert_eq!(p.device_id, "devX");
    assert_eq!(p.short_id, "s");
    assert!(db.devices.contains(&"devX".to_string()));
    let p = handle_get_form(&mut db, "s".to_string());
    assert_eq!(p.device_id.chars().count(), 10);
    assert!(db.devices.contains(&p.device_id));
    assert_eq!(db.devices.len(), 2);
}

#[test]
fn get_form_keeps_first_device_record() {
    let mut db = Database::new();
    get_form(&mut db, "s".to_string(), "devX".to_string(), t(3));
    get_form(&mut db, "s".to_string(), "devX".to_string(), t(4));
    assert_eq!(db.devices.len(), 1);
    assert_eq!(db.devices.get(&"devX".to_string()).unwrap().created_at, t(3));
}

#[test]
fn user_form_blank_fields_rejected_without_writes() {
    let mut db = Database::new();
    shorten(&mut db, &base(), "https://e.com".to_string(), "s1".to_string(), t(0));
    for f in [
        form("s1", "dev9", "", "a@b.com", "1"),
        form("s1", "dev9", "A", "   ", "1"),
        form("s1", "dev9", "A", "a@b.com", "\t"),
    ] {
        let e = user_form(&mut db, f, "u1".to_string(), "sc1".to_string(), t(1)).unwrap_err();
        assert_eq!(validation_message(&e), "All fields are required");
    }
    assert_eq!(db.users.len(), 0);
    assert_eq!(db.scans.len(), 0);
    assert_eq!(db.devices.len(), 0);
}

#[test]
fn user_form_unknown_link_records_no_scan() {
    let mut db = Database::new();
    let r = user_form(&mut db, form("zz", "dev1", "A", "a@b.com", "1"), "u1".to_string(), "sc1".to_string(), t(1));
    match r {
        Err(AppError::NotFound(m)) => assert_eq!(m, "Short URL not found: zz"),
        other => panic!("unexpected {:?}", other),
    }
    assert_eq!(db.scans.len(), 0);
    assert_eq!(db.users.len(), 1);
    assert_eq!(db.devices.len(), 1);
}

#[test]
fn user_form_records_scan() {
    let mut db = Database::new();
    shorten(&mut db, &base(), "https://example.com/x".to_string(), "s1".to_string(), t(0));
    let page = user_form(&mut db, form("s1", "dev1", "A", "a@b.com", "1"), "u1".to_string(), "sc1".to_string(), t(7)).unwrap();
    assert_eq!(page.url, "https://example.com/x");
    assert_eq!(page.user_id, "u1");
    assert_eq!(page.scan_id, "sc1");
    assert_eq!(page.short_url, "s1");
    assert_eq!(page.timestamp, t(7));
    let scan = db.scans.get(&"sc1".to_string()).unwrap();
    assert_eq!(scan.user_id, "u1");
    assert_eq!(scan.device_id, "dev1");
    assert_eq!(scan.short_url, "s1");
    let user = db.users.get(&"u1".to_string()).unwrap();
    assert_eq!(user.name, "A");
    assert_eq!(user.email, "a@b.com");
    assert_eq!(user.mobile, "1");
    assert!(db.devices.contains(&"dev1".to_string()));
}

#[test]
fn direct_scan_records_scan() {
    let mut db = Database::new();
    shorten(&mut db, &base(), "https://example.com/y".to_string(), "s2".to_string(), t(0));
    let r = direct_scan(&mut db, Some("d".to_string()), Some("u".to_string()), Some("s2".to_string()), "sc".to_string(), t(9)).unwrap();
    assert_eq!(r.scan_id, "sc");
    assert_eq!(r.url, "https://example.com/y");
    assert_eq!(r.timestamp, t(9));
    assert_eq!(db.scans.len(), 1);
    assert_eq!(db.users.len(), 0);
    assert_eq!(db.devices.len(), 0);
    let r = handle_direct_scan(&mut db, Some("d".to_string()), Some("u".to_string()), Some("s2".to_string())).unwrap();
    assert_eq!(r.scan_id.chars().count(), 10);
    assert_eq!(db.scans.len(), 2);
}

#[test]
fn direct_scan_errors() {
    let mut db = Database::new();
    let s = || Some("x".to_string());
    let e = direct_scan(&mut db, None, s(), s(), "sc".to_string(), t(0)).unwrap_err();
    assert_eq!(validation_message(&e), "Missing device_id");
    let e = direct_scan(&mut db, s(), None, s(), "sc".to_string(), t(0)).unwrap_err();
    assert_eq!(validation_message(&e), "Missing user_id");
    let e = direct_scan(&mut db, s(), s(), None, "sc".to_string(), t(0)).unwrap_err();
    assert_eq!(validation_message(&e), "Missing short_id");
    match direct_scan(&mut db, s(), s(), s(), "sc".to_string(), t(0)) {
        Err(AppError::NotFound(m)) => assert_eq!(m, "Short URL not found: x"),
        other => panic!("unexpected {:?}", other),
    }
    assert_eq!(db.scans.len(), 0);
}

#[test]
fn visualize_counts_links_and_scans() {
    let mut db = Database::new();
    let mut ids = Vec::new();
    for i in 0..3 {
        let r = handle_shorten(&mut db, &base(), CreateShortenRequest { url: format!("https://e.com/{}", i) });
        ids.push(r.short_url.rsplit('/').next().unwrap().to_string());
    }
    for i in 0..5 {
        handle_direct_scan(&mut db, Some("d".to_string()), Some("u".to_string()), Some(ids[i % 3].clone())).unwrap();
    }
    let snap = handle_visualize_db(&db);
    assert_eq!(snap.shortened_links.len(), 3);
    assert_eq!(snap.scans.len(), 5);
    assert_eq!(snap.users.len(), 0);
    assert_eq!(snap.devices.len(), 0);
}

#[test]
fn visit_walkthrough() {
    let mut db = Database::new();
    let r = shorten(&mut db, &base(), "https://example.com/x".to_string(), "AbC123XyZ9".to_string(), t(0));
    assert_eq!(r.short_url, "http://127.0.0.1:3030/AbC123XyZ9");
    assert!(handle_redirect(&db, &"AbC123XyZ9".to_string()).is_ok());
    check_device(&mut db, Some("dev1".to_string()), Some("AbC123XyZ9".to_string()), t(1)).unwrap();
    assert!(db.devices.contains(&"dev1".to_string()));
    let page = handle_user_form(&mut db, form("AbC123XyZ9", "dev1", "A", "a@b.com", "1")).unwrap();
    assert_eq!(page.url, "https://example.com/x");
    let snap = handle_visualize_db(&db);
    assert_eq!(snap.shortened_links.len(), 1);
    assert_eq!(snap.devices.len(), 1);
    assert_eq!(snap.users.len(), 1);
    assert_eq!(snap.scans.len(), 1);
    let d: &Device = &snap.devices[0];
    assert_eq!(d.device_id, "dev1");
}

#[test]
fn table_insert_replaces_record() {
    let mut db = Database::new();
    shorten(&mut db, &base(), "https://one".to_string(), "k".to_string(), t(0));
    shorten(&mut db, &base(), "https://two".to_string(), "k".to_string(), t(1));
    assert_eq!(db.shortened_links.len(), 1);
    assert_eq!(db.shortened_links.get(&"k".to_string()).unwrap().url, "https://two");
}
