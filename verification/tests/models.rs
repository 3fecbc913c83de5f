use perms_core::dummy::{DummyDB, DummyDb};
use perms_core::memory::MemoryDb;
use perms_core::models::message::{Content, Masquerade, Message, SystemMessage, Timestamp};
use perms_core::models::server::{Member, MemberCompositeKey, PartialMember, Role, Server};
use perms_core::traits::{AbstractServerMember, AbstractSimpleModel, Database};
use perms_core::values::{
    DEFAULT_PERMISSION_SAVED_MESSAGES, GRANT_ALL_SAFE, Override, PermissionValue,
};
use perms_core::Error;

#[test]
fn override_keeps_its_bit_sets() {
    let o = Override::new(0b0110, 0b1001);
    assert_eq!(o.allow(), 0b0110);
    assert_eq!(o.deny(), 0b1001);
    assert_eq!(o.rank(7), 7);
}

#[test]
fn apply_clears_denies_then_sets_allows() {
    let mut v = PermissionValue(0b1111);
    v.apply(Override::new(0, 0b0011));
    assert_eq!(v.value(), 0b1100);
    v.apply(Override::new(0b0001, 0));
    assert_eq!(v.value(), 0b1101);
}

#[test]
fn grant_all_safe_value_is_stable() {
    assert_eq!(GRANT_ALL_SAFE, 0x000F_FFFF_FFFF_FFFFu64);
    assert_eq!(DEFAULT_PERMISSION_SAVED_MESSAGES, GRANT_ALL_SAFE);
}

#[test]
fn masquerade_length_rules() {
    let ok = Masquerade::new(Some("alias".to_string()), None);
    assert!(ok.validate());
    let empty_name = Masquerade::new(Some(String::new()), None);
    assert!(!empty_name.validate());
    let long_name = Masquerade::new(Some("x".repeat(33)), None);
    assert!(!long_name.validate());
    let long_avatar = Masquerade::new(None, Some("y".repeat(129)));
    assert!(!long_avatar.validate());
    let max_avatar = Masquerade::new(None, Some("y".repeat(128)));
    assert!(max_avatar.validate());
    let none = Masquerade::new(None, None);
    assert!(none.validate());
}

#[test]
fn memory_db_round_trips_servers_and_members() {
    let mut db = MemoryDb::new();
    db.add_server(Server {
        id: "s1".to_string(),
        owner: "u1".to_string(),
        default_permissions: 42,
        roles: vec![Role {
            id: "r1".to_string(),
            permissions: Override::new(1, 2),
            rank: 3,
        }],
    });
    db.add_member(Member {
        id: MemberCompositeKey {
            server: "s1".to_string(),
            user: "u2".to_string(),
        },
        nickname: Some("nick".to_string()),
        avatar: None,
        roles: Some(vec!["r1".to_string()]),
    });

    let s = db.fetch_server(&"s1".to_string()).unwrap();
    assert_eq!(s.owner, "u1");
    assert_eq!(s.default_permissions, 42);
    assert_eq!(s.roles.len(), 1);
    assert_eq!(s.roles[0].rank, 3);

    let m = db
        .fetch_member(&"s1".to_string(), &"u2".to_string())
        .unwrap();
    assert_eq!(m.nickname.as_deref(), Some("nick"));
    assert_eq!(m.roles, Some(vec!["r1".to_string()]));

    assert_eq!(
        db.fetch_server(&"nope".to_string()).unwrap_err(),
        Error::NotFound
    );
    assert_eq!(
        db.fetch_member(&"s1".to_string(), &"u9".to_string())
            .unwrap_err(),
        Error::NotFound
    );
}

#[test]
fn memory_db_later_entity_shadows_earlier() {
    let mut db = MemoryDb::new();
    db.add_server(Server {
        id: "s1".to_string(),
        owner: "u1".to_string(),
        default_permissions: 1,
        roles: vec![],
    });
    db.add_server(Server {
        id: "s1".to_string(),
        owner: "u2".to_string(),
        default_permissions: 2,
        roles: vec![],
    });
    let s = db.fetch_server(&"s1".to_string()).unwrap();
    assert_eq!(s.owner, "u2");
    assert_eq!(s.default_permissions, 2);
}

#[test]
fn dummy_member_adapter_returns_bare_member() {
    let db = DummyDB;
    let m = db
        .fetch_member(&"s1".to_string(), &"u1".to_string())
        .unwrap();
    assert_eq!(m.id.server, "s1");
    assert_eq!(m.id.user, "u1");
    assert!(m.roles.is_none());
    assert!(db.insert_member(&"s1".to_string(), &"u1".to_string()).is_ok());
    assert!(db.delete_member(&"s1".to_string(), &"u1".to_string()).is_ok());
    let many = db
        .fetch_members(&"s1".to_string(), &["a".to_string(), "b".to_string()])
        .unwrap();
    assert_eq!(many.len(), 2);
    assert_eq!(many[1].id.user, "b");
}

#[test]
fn dummy_simple_adapter_returns_fixed_record() {
    let db = DummyDb;
    let simple = db.fetch_simple().unwrap();
    assert_eq!(simple.number, 74);
    assert_eq!(simple.value, "Whoa!");
    assert!(db.insert_simple(&simple).is_ok());
}

#[test]
fn message_models_hold_their_fields() {
    let msg = Message {
        id: "m1".to_string(),
        nonce: None,
        channel: "c1".to_string(),
        author: "u1".to_string(),
        content: Content::SystemMessage(SystemMessage::UserJoined {
            id: "u2".to_string(),
        }),
        edited: Some(Timestamp(1_700_000_000_000)),
        mentions: Some(vec!["u2".to_string()]),
        replies: None,
        masquerade: Some(Masquerade::new(Some("alias".to_string()), None)),
    };
    assert_eq!(msg.channel, "c1");
    assert_eq!(msg.edited, Some(Timestamp(1_700_000_000_000)));
    match msg.content {
        Content::SystemMessage(SystemMessage::UserJoined { ref id }) => assert_eq!(id, "u2"),
        _ => panic!("wrong content variant"),
    }
    assert!(msg.masquerade.unwrap().validate());
}

#[test]
fn dummy_adapter_writes_accept_and_count_is_zero() {
    let db = DummyDB;
    let partial = PartialMember {
        nickname: Some("n".to_string()),
        avatar: None,
        roles: None,
    };
    assert_eq!(db.update_member(&"m1".to_string(), &partial, vec![]), Ok(()));
    assert_eq!(db.fetch_member_count(&"s1".to_string()), Ok(0));
}
