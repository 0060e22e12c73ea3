use omnikv::database::Database;
use omnikv::kv::KVCommand;

fn s(x: &str) -> String {
    x.to_string()
}

#[test]
fn new_database_holds_one_pair() {
    let mut db = Database::new();
    assert_eq!(db.handle_command(KVCommand::Get(s("1"))), Some(Some(s("2"))));
    assert_eq!(db.handle_command(KVCommand::Get(s("2"))), Some(None));
}

#[test]
fn put_then_get_reads_value() {
    let mut db = Database::new();
    assert_eq!(db.handle_command(KVCommand::Put(s("k"), s("v"))), None);
    assert_eq!(db.handle_command(KVCommand::Get(s("k"))), Some(Some(s("v"))));
}

#[test]
fn put_overrides_earlier_put() {
    let mut db = Database::new();
    db.handle_command(KVCommand::Put(s("k"), s("a")));
    db.handle_command(KVCommand::Put(s("k"), s("b")));
    assert_eq!(db.handle_command(KVCommand::Get(s("k"))), Some(Some(s("b"))));
}

#[test]
fn delete_then_get_reads_nothing() {
    let mut db = Database::new();
    assert_eq!(db.handle_command(KVCommand::Delete(s("1"))), None);
    assert_eq!(db.handle_command(KVCommand::Get(s("1"))), Some(None));
}

#[test]
fn delete_of_absent_key_changes_nothing() {
    let mut db = Database::new();
    db.handle_command(KVCommand::Delete(s("zz")));
    assert_eq!(db.handle_command(KVCommand::Get(s("1"))), Some(Some(s("2"))));
}

#[test]
fn other_keys_untouched_by_put() {
    let mut db = Database::new();
    db.handle_command(KVCommand::Put(s("x"), s("9")));
    assert_eq!(db.handle_command(KVCommand::Get(s("1"))), Some(Some(s("2"))));
}

#[test]
fn cas_swaps_when_value_matches() {
    let mut db = Database::new();
    let cmd = KVCommand::Cas { key: s("1"), from: s("2"), to: s("3"), create_if_not_exists: false };
    assert_eq!(db.handle_command(cmd), None);
    assert_eq!(db.handle_command(KVCommand::Get(s("1"))), Some(Some(s("3"))));
}

#[test]
fn cas_keeps_value_when_it_differs() {
    let mut db = Database::new();
    assert!(!db.cas(s("1"), "5", s("3"), false));
    assert_eq!(db.get("1"), Some(s("2")));
}

#[test]
fn cas_creates_absent_key_only_when_asked() {
    let mut db = Database::new();
    assert!(!db.cas(s("new"), "0", s("7"), false));
    assert_eq!(db.get("new"), None);
    assert!(db.cas(s("new"), "0", s("7"), true));
    assert_eq!(db.get("new"), Some(s("7")));
}
