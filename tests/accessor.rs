use leptosfire::accessor::Accessor;
use leptosfire::reply::assigned_id;
use leptosfire::error::{AccessorError, TransportError};
use leptosfire::store::{push_decimal, Entry, MemoryStore};
use leptosfire::view::ListCache;
use leptosfire::user::{users_collection, User};

fn users_store() -> MemoryStore<User> {
    MemoryStore::new("u".to_string())
}

fn ids(es: &[Entry<User>]) -> Vec<String> {
    let mut v: Vec<String> = es.iter().map(|e| e.id.clone()).collect();
    v.sort();
    v
}

#[test]
fn insert_list_remove_scenario() {
    let mut store = users_store();
    let mut acc = Accessor::new(users_collection());
    assert_eq!(acc.collection, "users");
    let id = acc.upsert(&mut store, User { admin: true }, None).unwrap();
    assert_eq!(id, "u1");
    let all = acc.list_all(&store).unwrap();
    assert_eq!(all.len(), 1);
    assert_eq!(all[0].id, "u1");
    assert_eq!(all[0].record, User { admin: true });
    acc.remove(&mut store, &"u1".to_string()).unwrap();
    assert!(acc.list_all(&store).unwrap().is_empty());
}

#[test]
fn get_one_missing_is_not_found() {
    let mut store = users_store();
    let mut acc = Accessor::new(users_collection());
    acc.upsert(&mut store, User { admin: false }, None).unwrap();
    acc.upsert(&mut store, User { admin: true }, Some("alice".to_string())).unwrap();
    let r = acc.get_one(&store, &"nonexistent".to_string());
    assert!(matches!(r, Err(AccessorError::NotFound)));
}

#[test]
fn upsert_then_get_one_round_trip() {
    let mut store = users_store();
    let mut acc = Accessor::new(users_collection());
    let id = acc.upsert(&mut store, User { admin: true }, None).unwrap();
    assert_eq!(acc.get_one(&store, &id).unwrap(), User { admin: true });
    let id2 = acc.upsert(&mut store, User { admin: false }, Some("bob".to_string())).unwrap();
    assert_eq!(id2, "bob");
    assert_eq!(acc.get_one(&store, &id2).unwrap(), User { admin: false });
}

#[test]
fn upsert_overwrites_in_full() {
    let mut store = users_store();
    let mut acc = Accessor::new(users_collection());
    acc.upsert(&mut store, User { admin: true }, Some("bob".to_string())).unwrap();
    acc.upsert(&mut store, User { admin: false }, Some("bob".to_string())).unwrap();
    assert_eq!(acc.get_one(&store, &"bob".to_string()).unwrap(), User { admin: false });
    assert_eq!(acc.list_all(&store).unwrap().len(), 1);
}

#[test]
fn remove_then_get_one_is_not_found() {
    let mut store = users_store();
    let mut acc = Accessor::new(users_collection());
    let id = acc.upsert(&mut store, User { admin: true }, None).unwrap();
    acc.remove(&mut store, &id).unwrap();
    assert!(matches!(acc.get_one(&store, &id), Err(AccessorError::NotFound)));
}

#[test]
fn list_of_empty_collection_is_empty() {
    let store = users_store();
    let acc = Accessor::new(users_collection());
    assert!(acc.list_all(&store).unwrap().is_empty());
    let r = acc.finish_list::<User>(Ok(None)).unwrap();
    assert!(r.is_empty());
}

#[test]
fn counter_moves_once_per_successful_mutation() {
    let mut store = users_store();
    let mut acc = Accessor::new(users_collection());
    assert_eq!(acc.version(), 0);
    let id = acc.upsert(&mut store, User { admin: true }, None).unwrap();
    assert_eq!(acc.version(), 1);
    acc.get_one(&store, &id).unwrap();
    acc.list_all(&store).unwrap();
    assert_eq!(acc.version(), 1);
    acc.remove(&mut store, &id).unwrap();
    assert_eq!(acc.version(), 2);
    let failed = acc.finish_upsert(Err(TransportError::new("network".to_string())));
    assert!(failed.is_err());
    assert_eq!(acc.version(), 2);
    let failed = acc.finish_remove(Err(TransportError::new("network".to_string())));
    assert!(failed.is_err());
    assert_eq!(acc.version(), 2);
}

#[test]
fn remove_twice_is_not_an_error() {
    let mut store = users_store();
    let mut acc = Accessor::new(users_collection());
    let id = acc.upsert(&mut store, User { admin: true }, None).unwrap();
    assert!(acc.remove(&mut store, &id).is_ok());
    assert!(acc.remove(&mut store, &id).is_ok());
    assert!(matches!(acc.get_one(&store, &id), Err(AccessorError::NotFound)));
    assert!(acc.list_all(&store).unwrap().is_empty());
}

#[test]
fn assigned_ids_count_up() {
    let mut store = users_store();
    let mut acc = Accessor::new(users_collection());
    let mut got: Vec<String> = Vec::new();
    for _ in 0..12 {
        got.push(acc.upsert(&mut store, User { admin: false }, None).unwrap());
    }
    assert_eq!(got[0], "u1");
    assert_eq!(got[9], "u10");
    assert_eq!(got[11], "u12");
    assert_eq!(ids(&acc.list_all(&store).unwrap()).len(), 12);
}

#[test]
fn assigned_id_in_use_fails_and_changes_nothing() {
    let mut store = users_store();
    let mut acc = Accessor::new(users_collection());
    acc.upsert(&mut store, User { admin: false }, Some("u1".to_string())).unwrap();
    let r = acc.upsert(&mut store, User { admin: true }, None);
    match r {
        Err(AccessorError::Remote(m)) => assert_eq!(m, "identifier already in use"),
        _ => panic!("expected a remote error"),
    }
    assert_eq!(acc.version(), 1);
    assert_eq!(acc.get_one(&store, &"u1".to_string()).unwrap(), User { admin: false });
}

#[test]
fn transport_errors_become_remote() {
    let acc = Accessor::new(users_collection());
    let r = acc.finish_get_one::<User>(Err(TransportError::new("timeout".to_string())));
    match r {
        Err(AccessorError::Remote(m)) => assert_eq!(m, "timeout"),
        _ => panic!("expected a remote error"),
    }
    let r = acc.finish_list::<User>(Err(TransportError::new("bad status".to_string())));
    match r {
        Err(e) => assert_eq!(e.message(), "bad status"),
        _ => panic!("expected a remote error"),
    }
}

#[test]
fn empty_reply_for_document_is_not_found() {
    let acc = Accessor::new(users_collection());
    let r = acc.finish_get_one::<User>(Ok(None));
    assert!(matches!(r, Err(AccessorError::NotFound)));
    assert!(r.err().unwrap().is_not_found());
    assert_eq!(AccessorError::NotFound.message(), "not found");
    let r = acc.finish_get_one(Ok(Some(User { admin: true })));
    assert_eq!(r.unwrap(), User { admin: true });
}

#[test]
fn finish_list_keeps_entries() {
    let acc = Accessor::new(users_collection());
    let v = vec![
        Entry { id: "a".to_string(), record: User { admin: true } },
        Entry { id: "b".to_string(), record: User { admin: false } },
    ];
    let r = acc.finish_list(Ok(Some(v))).unwrap();
    assert_eq!(ids(&r), vec!["a".to_string(), "b".to_string()]);
}

#[test]
fn paths_join_collection_and_id() {
    let acc = Accessor::new(users_collection());
    assert_eq!(acc.collection_path(), "users");
    assert_eq!(acc.document_path(&"u1".to_string()), "users/u1");
    assert_eq!(acc.document_path(&"".to_string()), "users/");
}

#[test]
fn decimal_digits() {
    let mut s = "x".to_string();
    push_decimal(&mut s, 0);
    assert_eq!(s, "x0");
    let mut s = String::new();
    push_decimal(&mut s, 9071);
    assert_eq!(s, "9071");
    let mut s = String::new();
    push_decimal(&mut s, u64::MAX);
    assert_eq!(s, "18446744073709551615");
}

#[test]
fn push_reply_gives_assigned_id() {
    let reply: Vec<char> = "{\"name\":\"-NabC12\"}".chars().collect();
    let id: String = assigned_id(&reply).unwrap().into_iter().collect();
    assert_eq!(id, "-NabC12");
    let empty: Vec<char> = "{\"name\":\"\"}".chars().collect();
    assert_eq!(assigned_id(&empty).unwrap().len(), 0);
    for bad in ["", "null", "{\"name\":\"a\"b\"}", "{\"nome\":\"ab\"}", "{\"name\":\"ab\"]", "{\"name\":ab}"] {
        let v: Vec<char> = bad.chars().collect();
        assert!(assigned_id(&v).is_none(), "{}", bad);
    }
}

#[test]
fn list_view_fetches_again_after_a_mutation() {
    let mut store = users_store();
    let mut acc = Accessor::new(users_collection());
    let mut cache: ListCache<User> = ListCache::new();
    assert!(cache.needs_fetch(acc.version()));
    cache.fetched(acc.version(), acc.list_all(&store));
    assert!(!cache.needs_fetch(acc.version()));
    assert!(cache.entries.is_empty());
    acc.upsert(&mut store, User { admin: true }, None).unwrap();
    assert!(cache.needs_fetch(acc.version()));
    cache.fetched(acc.version(), acc.list_all(&store));
    assert!(!cache.needs_fetch(acc.version()));
    assert_eq!(cache.entries.len(), 1);
    cache.fetched(7, Err(AccessorError::NotFound));
    assert_eq!(cache.seen, Some(1));
    assert_eq!(cache.entries.len(), 1);
}
