use std::collections::HashMap;

use email_creds::error::{fmt_err, APIError, ErrorKind, StoreError};
use email_creds::models::{
    CollectionTrait, EmailList, FieldUpdates, Subscriber, User, UserCreationRequest,
    UserUpdateRequest,
};
use email_creds::object_id::RecordId;
use email_creds::storage::{
    connection_uri, list_step, parse_id, resolve_backend, resolve_find_one, resolve_insert,
    DeleteOutcome, InsertOutcome, ListStep, UpdateOutcome, DEFAULT_CONNECTION_URI,
};

fn driver_error(text: &str) -> mongodb::error::Error {
    mongodb::error::Error::from(std::io::Error::new(std::io::ErrorKind::Other, text.to_string()))
}

/// A stand-in for the database: user records filed by identifier bytes.
#[derive(Default)]
struct Users {
    records: HashMap<[u8; 12], (String, String)>,
}

impl Users {
    fn insert(&mut self, user: User) -> Result<InsertOutcome, StoreError> {
        let id = user.record_id();
        self.records.insert(id.bytes, (user.username, user.password));
        resolve_insert(id, Ok(()))
    }

    fn get_by_id(&self, id: &str) -> Result<User, StoreError> {
        let key = parse_id(id)?;
        let found = self.records.get(&key.bytes).map(|(u, p)| User {
            _id: key,
            username: u.clone(),
            password: p.clone(),
        });
        resolve_find_one(Ok(found))
    }

    fn update_by_id(&mut self, id: &str, patch: &FieldUpdates) -> Result<UpdateOutcome, StoreError> {
        let key = parse_id(id)?;
        let outcome = match self.records.get_mut(&key.bytes) {
            None => UpdateOutcome { matched_count: 0, modified_count: 0 },
            Some(rec) => {
                let before = rec.clone();
                for (name, value) in &patch.fields {
                    match name.as_str() {
                        "username" => rec.0 = value.clone(),
                        "password" => rec.1 = value.clone(),
                        _ => {}
                    }
                }
                let modified = if *rec == before { 0 } else { 1 };
                UpdateOutcome { matched_count: 1, modified_count: modified }
            }
        };
        resolve_backend(Ok(outcome))
    }

    fn delete_by_id(&mut self, id: &str) -> Result<DeleteOutcome, StoreError> {
        let key = parse_id(id)?;
        let n = if self.records.remove(&key.bytes).is_some() { 1 } else { 0 };
        resolve_backend(Ok(DeleteOutcome { deleted_count: n }))
    }
}

const SOME_ID: &str = "65a1f0c2b3d4e5f60718293a";

#[test]
fn parse_id_reads_lower_case_digits() {
    let id = parse_id(SOME_ID).unwrap();
    assert_eq!(
        id.bytes,
        [0x65, 0xa1, 0xf0, 0xc2, 0xb3, 0xd4, 0xe5, 0xf6, 0x07, 0x18, 0x29, 0x3a]
    );
}

#[test]
fn parse_id_reads_upper_and_mixed_case() {
    let upper = parse_id("65A1F0C2B3D4E5F60718293A").unwrap();
    let mixed = parse_id("65a1F0c2B3d4E5f60718293A").unwrap();
    assert_eq!(upper.bytes, parse_id(SOME_ID).unwrap().bytes);
    assert_eq!(mixed.bytes, upper.bytes);
}

#[test]
fn parse_id_refuses_wrong_length() {
    for bad in ["", "65a1f0c2b3d4e5f60718293", "65a1f0c2b3d4e5f60718293a0", "65a1f0c2b3d4e5f60718293a00"] {
        let e = parse_id(bad).unwrap_err();
        assert_eq!(e.kind, ErrorKind::InvalidArgument);
        assert!(!e.message.is_empty());
    }
}

#[test]
fn parse_id_refuses_non_hex_characters() {
    for bad in ["65a1f0c2b3d4e5f60718293g", "zza1f0c2b3d4e5f60718293a", "65a1f0c2b3d4e5f6071829é", "65a1f0c2 3d4e5f60718293a"] {
        assert_eq!(parse_id(bad).unwrap_err().kind, ErrorKind::InvalidArgument);
    }
}

#[test]
fn to_hex_gives_lower_case_digits() {
    let id = RecordId { bytes: [0, 1, 2, 3, 0xAB, 0xCD, 0xEF, 0x10, 0x7f, 0x80, 0xfe, 0xff] };
    assert_eq!(id.to_hex(), "00010203abcdef107f80feff");
}

#[test]
fn generated_id_is_well_formed_and_reads_back() {
    let id = RecordId::generate();
    let hex = id.to_hex();
    assert_eq!(hex.len(), 24);
    assert!(hex.chars().all(|c| c.is_ascii_hexdigit() && !c.is_ascii_uppercase()));
    assert_eq!(parse_id(&hex).unwrap(), id);
}

#[test]
fn generated_ids_differ() {
    assert_ne!(RecordId::generate(), RecordId::generate());
}

#[test]
fn resolve_find_one_gives_the_record() {
    let r: Result<u32, StoreError> = resolve_find_one(Ok(Some(7u32)));
    assert_eq!(r.unwrap(), 7);
}

#[test]
fn resolve_find_one_reports_absence_as_not_found() {
    let e = resolve_find_one::<u32>(Ok(None)).unwrap_err();
    assert_eq!(e.kind, ErrorKind::NotFound);
    assert_eq!(e.message, "document not found");
}

#[test]
fn resolve_find_one_reports_driver_failure() {
    let e = resolve_find_one::<u32>(Err(driver_error("connection reset"))).unwrap_err();
    assert_eq!(e.kind, ErrorKind::BackendError);
    assert!(e.message.contains("connection reset"));
}

#[test]
fn backend_failure_message_is_the_driver_text() {
    let e = driver_error("no primary available");
    let text = e.to_string();
    let r = resolve_backend::<DeleteOutcome>(Err(e)).unwrap_err();
    assert_eq!(r.kind, ErrorKind::BackendError);
    assert_eq!(r.message, text);
    let mut items = Vec::new();
    items.push(1u32);
    let e = driver_error("cursor killed");
    let text = e.to_string();
    match list_step(items, Some(Err(e))) {
        ListStep::Finished(Err(r)) => assert_eq!(r.message, text),
        _ => panic!("a failure ends the read"),
    }
}

#[test]
fn invalid_id_message_is_the_parse_error_text() {
    let text = mongodb::bson::oid::ObjectId::parse_str("abc").unwrap_err().to_string();
    assert_eq!(parse_id("abc").unwrap_err().message, text);
}

#[test]
fn resolve_backend_passes_counts_and_failures() {
    let ok = resolve_backend(Ok(UpdateOutcome { matched_count: 1, modified_count: 0 })).unwrap();
    assert_eq!((ok.matched_count, ok.modified_count), (1, 0));
    let e = resolve_backend::<DeleteOutcome>(Err(driver_error("timed out"))).unwrap_err();
    assert_eq!(e.kind, ErrorKind::BackendError);
    assert!(e.message.contains("timed out"));
}

#[test]
fn resolve_insert_reports_assigned_id() {
    let id = parse_id(SOME_ID).unwrap();
    assert_eq!(resolve_insert(id, Ok(())).unwrap().generated_id, id);
    let e = resolve_insert(id, Err(driver_error("duplicate key"))).unwrap_err();
    assert_eq!(e.kind, ErrorKind::BackendError);
}

#[test]
fn list_step_gathers_until_the_end() {
    let mut docs: Vec<u32> = Vec::new();
    let mut items = vec![Some(Ok(1u32)), Some(Ok(2)), Some(Ok(3)), None].into_iter();
    let result = loop {
        match list_step(docs, items.next().unwrap()) {
            ListStep::Continue(v) => docs = v,
            ListStep::Finished(r) => break r,
        }
    };
    assert_eq!(result.unwrap(), vec![1, 2, 3]);
}

#[test]
fn list_step_empty_collection() {
    match list_step::<u32>(Vec::new(), None) {
        ListStep::Finished(Ok(v)) => assert!(v.is_empty()),
        _ => panic!("an empty stream ends with no records"),
    }
}

#[test]
fn list_step_failure_discards_partial_results() {
    match list_step(vec![1u32, 2], Some(Err(driver_error("bad document")))) {
        ListStep::Finished(Err(e)) => {
            assert_eq!(e.kind, ErrorKind::BackendError);
            assert!(e.message.contains("bad document"));
        }
        _ => panic!("a failure ends the read"),
    }
}

#[test]
fn connection_uri_prefers_configured_value() {
    assert_eq!(connection_uri(Some("mongodb://db:27017".to_string())), "mongodb://db:27017");
    assert_eq!(connection_uri(None), "mongodb://localhost:27018/?directConnection=true");
    assert_eq!(connection_uri(None), DEFAULT_CONNECTION_URI);
}

#[test]
fn fmt_err_keeps_kind_and_message() {
    let e = fmt_err("boom".to_string(), ErrorKind::BackendError);
    assert_eq!(e.kind, ErrorKind::BackendError);
    assert_eq!(e.message, "boom");
}

#[test]
fn api_error_carries_the_message() {
    assert_eq!(APIError::new("bad".to_string()).error, "bad");
    let e = parse_id("nope").unwrap_err();
    let msg = e.message.clone();
    assert_eq!(APIError::from_err(e).error, msg);
}

#[test]
fn http_status_by_kind() {
    assert_eq!(ErrorKind::InvalidArgument.http_status(), 400);
    assert_eq!(ErrorKind::NotFound.http_status(), 404);
    assert_eq!(ErrorKind::BackendError.http_status(), 500);
}

fn pairs(f: &FieldUpdates) -> Vec<(&str, &str)> {
    f.fields.iter().map(|(a, b)| (a.as_str(), b.as_str())).collect()
}

#[test]
fn to_doc_sets_only_given_fields() {
    let both = UserUpdateRequest { username: Some("b".to_string()), password: Some("q".to_string()) };
    assert_eq!(pairs(&both.to_doc()), vec![("username", "b"), ("password", "q")]);
    let name = UserUpdateRequest { username: Some("b".to_string()), password: None };
    assert_eq!(pairs(&name.to_doc()), vec![("username", "b")]);
    let pass = UserUpdateRequest { username: None, password: Some("new".to_string()) };
    assert_eq!(pairs(&pass.to_doc()), vec![("password", "new")]);
    let none = UserUpdateRequest { username: None, password: None };
    assert!(none.to_doc().fields.is_empty());
}

#[test]
fn user_new_from_request() {
    let u = User::new_from(UserCreationRequest { username: "alice".to_string(), password: "secret".to_string() });
    assert_eq!(u.username, "alice");
    assert_eq!(u.password, "secret");
    assert_eq!(u.record_id(), u._id);
}

#[test]
fn collection_names() {
    assert_eq!(User::collection_name(), "user");
    assert_eq!(EmailList::collection_name(), "email_list");
    assert_eq!(Subscriber::collection_name(), "subscriber");
    let owner = RecordId::generate();
    let list = EmailList { _id: RecordId::generate(), user_id: owner, name: "news".to_string() };
    assert_eq!(list.record_id(), list._id);
    let sub = Subscriber {
        _id: RecordId::generate(),
        email_list_id: list._id,
        name: "bob".to_string(),
        email_addr: "bob@example.com".to_string(),
    };
    assert_eq!(sub.record_id(), sub._id);
}

#[test]
fn absent_id_is_not_found() {
    let users = Users::default();
    assert_eq!(users.get_by_id(SOME_ID).unwrap_err().kind, ErrorKind::NotFound);
}

#[test]
fn malformed_id_is_refused_by_every_operation() {
    let mut users = Users::default();
    let patch = UserUpdateRequest { username: Some("x".to_string()), password: None }.to_doc();
    assert_eq!(users.get_by_id("xyz").unwrap_err().kind, ErrorKind::InvalidArgument);
    assert_eq!(users.update_by_id("xyz", &patch).unwrap_err().kind, ErrorKind::InvalidArgument);
    assert_eq!(users.delete_by_id("xyz").unwrap_err().kind, ErrorKind::InvalidArgument);
}

#[test]
fn insert_then_get_round_trip() {
    let mut users = Users::default();
    let id = users.insert(User::new("carol".to_string(), "pw".to_string())).unwrap().generated_id;
    let got = users.get_by_id(&id.to_hex()).unwrap();
    assert_eq!((got._id, got.username.as_str(), got.password.as_str()), (id, "carol", "pw"));
}

#[test]
fn delete_twice_counts_one_then_zero() {
    let mut users = Users::default();
    let id = users.insert(User::new("dave".to_string(), "pw".to_string())).unwrap().generated_id;
    let hex = id.to_hex();
    assert_eq!(users.delete_by_id(&hex).unwrap().deleted_count, 1);
    assert_eq!(users.delete_by_id(&hex).unwrap().deleted_count, 0);
}

#[test]
fn patch_leaves_other_fields() {
    let mut users = Users::default();
    let id = users.insert(User::new("a".to_string(), "p".to_string())).unwrap().generated_id;
    let patch = UserUpdateRequest { username: Some("b".to_string()), password: None }.to_doc();
    users.update_by_id(&id.to_hex(), &patch).unwrap();
    let got = users.get_by_id(&id.to_hex()).unwrap();
    assert_eq!((got.username.as_str(), got.password.as_str()), ("b", "p"));
}

#[test]
fn absent_id_writes_count_zero() {
    let mut users = Users::default();
    let patch = UserUpdateRequest { username: Some("b".to_string()), password: None }.to_doc();
    let u = users.update_by_id(SOME_ID, &patch).unwrap();
    assert_eq!((u.matched_count, u.modified_count), (0, 0));
    assert_eq!(users.delete_by_id(SOME_ID).unwrap().deleted_count, 0);
}

#[test]
fn user_lifecycle_scenario() {
    let mut users = Users::default();
    let created = User::new("alice".to_string(), "secret".to_string());
    let i = users.insert(created).unwrap().generated_id;
    let hex = i.to_hex();
    let got = users.get_by_id(&hex).unwrap();
    assert_eq!((got.username.as_str(), got.password.as_str(), got._id), ("alice", "secret", i));
    let patch = UserUpdateRequest { username: None, password: Some("new".to_string()) }.to_doc();
    let u = users.update_by_id(&hex, &patch).unwrap();
    assert_eq!((u.matched_count, u.modified_count), (1, 1));
    let got = users.get_by_id(&hex).unwrap();
    assert_eq!((got.username.as_str(), got.password.as_str()), ("alice", "new"));
    assert_eq!(users.delete_by_id(&hex).unwrap().deleted_count, 1);
    assert_eq!(users.get_by_id(&hex).unwrap_err().kind, ErrorKind::NotFound);
}
