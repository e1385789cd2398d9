use idc_launcher::database::{database_url, require_connection, User, UtcTimestamp, DATABASE_NOT_CONNECTED};

#[test]
fn database_url_with_port() {
    assert_eq!(
        database_url("root", "pw", "db.local", Some("3307".to_string()), "idc"),
        "mysql://root:pw@db.local:3307/idc"
    );
}

#[test]
fn database_url_default_port() {
    assert_eq!(
        database_url("root", "pw", "db.local", None, "idc"),
        "mysql://root:pw@db.local:3306/idc"
    );
}

#[test]
fn connection_required() {
    let none: Option<u32> = None;
    assert_eq!(require_connection(&none), Err("Base de données non connectée".to_string()));
    assert_eq!(DATABASE_NOT_CONNECTED, "Base de données non connectée");
    let some = Some(5u32);
    assert_eq!(require_connection(&some), Ok(&5u32));
}

#[test]
fn user_from_insert_keeps_fields() {
    let at = UtcTimestamp { secs: 1_700_000_000, nanos: 123 };
    let user = User::from_insert(42, "1234", "steve", at);
    assert_eq!(user.id, 42);
    assert_eq!(user.discord_id, "1234");
    assert_eq!(user.username, "steve");
    assert_eq!(user.created_at, at);
}

#[test]
fn user_from_insert_wraps_large_ids() {
    let at = UtcTimestamp { secs: 0, nanos: 0 };
    assert_eq!(User::from_insert(i64::MAX as u64, "a", "b", at).id, i64::MAX);
    assert_eq!(User::from_insert(1u64 << 63, "a", "b", at).id, i64::MIN);
    assert_eq!(User::from_insert(u64::MAX, "a", "b", at).id, -1);
    assert_eq!(User::from_insert(0, "a", "b", at).id, 0);
}
