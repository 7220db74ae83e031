//! Transaction lifecycle behavior: startup outcomes, result caching,
//! idempotent teardown, user resolution, and the environment and item
//! views.

use authkit::Demux;
use authkit::ErrorCode;
use authkit::ItemType;
use authkit::Pam;
use authkit::PamBuilder;
use authkit::PamConversation;
use authkit::PamEnv;

fn fresh_transaction() -> Pam<Demux<PamConversation>> {
    let conv = Demux::new(PamConversation::new(b"alice".to_vec(), b"secret".to_vec()));
    Pam::start(b"login1".to_vec(), None, conv, 0, false).unwrap()
}

#[test]
fn start_translates_native_failures() {
    let conv = Demux::new(PamConversation::new(b"a".to_vec(), b"b".to_vec()));
    match Pam::start(b"svc".to_vec(), None, conv, 6, false) {
        Err(e) => assert_eq!(e, ErrorCode::PermissionDenied),
        Ok(_) => panic!("a failing native start must not open a transaction"),
    }
}

#[test]
fn start_rejects_a_null_handle_despite_success() {
    let conv = Demux::new(PamConversation::new(b"a".to_vec(), b"b".to_vec()));
    match Pam::start(b"svc".to_vec(), None, conv, 0, true) {
        Err(e) => assert_eq!(e, ErrorCode::BufferError),
        Ok(_) => panic!("a null handle must not open a transaction"),
    }
}

#[test]
fn start_stores_service_and_username_items() {
    let conv = Demux::new(PamConversation::new(b"a".to_vec(), b"b".to_vec()));
    let txn = Pam::start(b"svc".to_vec(), Some(b"carol".to_vec()), conv, 0, false).unwrap();
    assert_eq!(txn.items().get_item(ItemType::Service), Some(b"svc".to_vec()));
    assert_eq!(txn.items().get_item(ItemType::User), Some(b"carol".to_vec()));
    assert_eq!(txn.items().get_item(ItemType::Tty), None);
}

#[test]
fn builder_collects_service_and_username() {
    let conv = Demux::new(PamConversation::new(b"a".to_vec(), b"b".to_vec()));
    let txn = PamBuilder::new(b"svc".to_vec())
        .username(b"dave".to_vec())
        .build(conv, 0, false)
        .unwrap();
    assert_eq!(txn.items().get_item(ItemType::User), Some(b"dave".to_vec()));
}

#[test]
fn last_result_is_cached_and_reported_at_teardown() {
    let mut txn = fresh_transaction();
    assert_eq!(txn.record_result(0), Ok(()));
    assert_eq!(txn.record_result(7), Err(ErrorCode::AuthenticationError));
    assert_eq!(txn.end(), Some(7));
}

#[test]
fn teardown_happens_exactly_once() {
    let mut txn = fresh_transaction();
    assert_eq!(txn.end(), Some(0));
    assert_eq!(txn.end(), None);
    assert_eq!(txn.end(), None);
}

#[test]
fn silent_teardown_carries_the_silent_bit() {
    let mut txn = fresh_transaction();
    assert_eq!(txn.record_result(11), Err(ErrorCode::MaxTries));
    assert_eq!(txn.end_silent(), Some(11 | 0x40000000));
    assert_eq!(txn.end_silent(), None);
}

#[test]
fn username_returns_the_stored_item_without_prompting() {
    let conv = Demux::new(PamConversation::new(b"alice".to_vec(), b"secret".to_vec()));
    let mut txn = Pam::start(b"svc".to_vec(), Some(b"carol".to_vec()), conv, 0, false).unwrap();
    assert_eq!(txn.username(None), Ok(b"carol".to_vec()));
}

#[test]
fn username_prompts_the_conversation_and_caches_the_reply() {
    let mut txn = fresh_transaction();
    assert_eq!(txn.items().get_item(ItemType::User), None);
    assert_eq!(txn.username(Some(&b"Who?".to_vec())), Ok(b"alice".to_vec()));
    assert_eq!(txn.items().get_item(ItemType::User), Some(b"alice".to_vec()));
    // a second call reads the cached item
    assert_eq!(txn.username(None), Ok(b"alice".to_vec()));
}

#[test]
fn username_reply_with_embedded_nul_is_a_buffer_error() {
    let conv = Demux::new(PamConversation::new(b"al\0ice".to_vec(), b"secret".to_vec()));
    let mut txn = Pam::start(b"svc".to_vec(), None, conv, 0, false).unwrap();
    assert_eq!(txn.username(None), Err(ErrorCode::BufferError));
    assert_eq!(txn.items().get_item(ItemType::User), None);
}

#[test]
fn environment_insert_get_remove() {
    let mut txn = fresh_transaction();
    assert_eq!(txn.environ_mut().insert(&b"USER".to_vec(), &b"alice".to_vec()), None);
    assert_eq!(txn.environ().get(&b"USER".to_vec()), Some(b"alice".to_vec()));
    assert_eq!(txn.environ_mut().remove(&b"USER".to_vec()), Some(b"alice".to_vec()));
    assert_eq!(txn.environ().get(&b"USER".to_vec()), None);
}

#[test]
fn environment_insert_reports_the_prior_value() {
    let mut env = PamEnv::new();
    assert_eq!(env.insert(&b"TERM".to_vec(), &b"linux".to_vec()), None);
    assert_eq!(
        env.insert(&b"TERM".to_vec(), &b"vt100".to_vec()),
        Some(b"linux".to_vec())
    );
    assert_eq!(env.get(&b"TERM".to_vec()), Some(b"vt100".to_vec()));
    assert_eq!(env.remove(&b"HOME".to_vec()), None);
}

#[test]
fn environment_iteration_keeps_entry_order() {
    let mut env = PamEnv::new();
    env.insert(&b"A".to_vec(), &b"1".to_vec());
    env.insert(&b"B".to_vec(), &b"2".to_vec());
    env.insert(&b"A".to_vec(), &b"3".to_vec());
    let pairs = env.iter();
    assert_eq!(
        pairs,
        vec![(b"A".to_vec(), b"3".to_vec()), (b"B".to_vec(), b"2".to_vec())]
    );
}

#[test]
fn item_slots_are_independent() {
    let mut txn = fresh_transaction();
    txn.items_mut().set_item(ItemType::Tty, Some(&b"tty3".to_vec()));
    txn.items_mut().set_item(ItemType::RemoteHost, Some(&b"far.example".to_vec()));
    assert_eq!(txn.items().get_item(ItemType::Tty), Some(b"tty3".to_vec()));
    assert_eq!(txn.items().get_item(ItemType::RemoteHost), Some(b"far.example".to_vec()));
    txn.items_mut().set_item(ItemType::Tty, None);
    assert_eq!(txn.items().get_item(ItemType::Tty), None);
    assert_eq!(txn.items().get_item(ItemType::RemoteHost), Some(b"far.example".to_vec()));
}

#[test]
fn item_type_codes_round_trip() {
    let all = [
        ItemType::Service,
        ItemType::User,
        ItemType::Tty,
        ItemType::RemoteHost,
        ItemType::Conversation,
        ItemType::AuthTok,
        ItemType::OldAuthTok,
        ItemType::RemoteUser,
        ItemType::UserPrompt,
    ];
    for (i, &t) in all.iter().enumerate() {
        let code = (i + 1) as i32;
        assert_eq!(t.to_code(), code);
        assert_eq!(ItemType::from_code(code), Ok(t));
    }
    assert_eq!(ItemType::from_code(10), Err(ErrorCode::SystemError));
    assert_eq!(ItemType::from_code(0), Err(ErrorCode::SystemError));
}
