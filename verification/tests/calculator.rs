use perms_core::calculator::PermissionCalculator;
use perms_core::memory::MemoryDb;
use perms_core::models::channel::Channel;
use perms_core::models::server::{Member, MemberCompositeKey, Role, Server, User};
use perms_core::values::{
    DEFAULT_PERMISSION_DIRECT_MESSAGE, DEFAULT_PERMISSION_SAVED_MESSAGES, GRANT_ALL_SAFE, Override,
};
use perms_core::Error;

fn user(id: &str) -> User {
    User { id: id.to_string() }
}

fn server(id: &str, owner: &str, default: u64, roles: Vec<Role>) -> Server {
    Server {
        id: id.to_string(),
        owner: owner.to_string(),
        default_permissions: default,
        roles,
    }
}

fn role(id: &str, allow: u64, deny: u64, rank: i64) -> Role {
    Role {
        id: id.to_string(),
        permissions: Override::new(allow, deny),
        rank,
    }
}

fn member(server_id: &str, user_id: &str, roles: Option<Vec<&str>>) -> Member {
    Member {
        id: MemberCompositeKey {
            server: server_id.to_string(),
            user: user_id.to_string(),
        },
        nickname: None,
        avatar: None,
        roles: roles.map(|rs| rs.into_iter().map(|r| r.to_string()).collect()),
    }
}

fn text_channel(
    id: &str,
    server_id: &str,
    default_permissions: Option<Override>,
    role_permissions: Vec<(&str, Override)>,
) -> Channel {
    Channel::TextChannel {
        id: id.to_string(),
        server: server_id.to_string(),
        default_permissions,
        role_permissions: role_permissions
            .into_iter()
            .map(|(r, o)| (r.to_string(), o))
            .collect(),
    }
}

#[test]
fn owner_gets_grant_all_safe_without_member_fetch() {
    // The database holds the server but no member record at all: the owner
    // short-circuit must succeed without ever fetching a member.
    let mut db = MemoryDb::new();
    db.add_server(server("s1", "u1", 0b0001, vec![role("r1", 0b0010, 0, 1)]));
    let s = server("s1", "u1", 0b0001, vec![role("r1", 0b0010, 0, 1)]);
    let mut calc = PermissionCalculator::for_server(user("u1"), s);
    let v = calc.calc(&db).unwrap();
    assert_eq!(v.value(), GRANT_ALL_SAFE);
    assert!(calc.member.is_none());
}

#[test]
fn member_with_empty_roles_gets_server_default() {
    let mut db = MemoryDb::new();
    db.add_member(member("s1", "u2", Some(vec![])));
    let s = server("s1", "u1", 0b0101, vec![role("r1", 0b0010, 0, 1)]);
    let mut calc = PermissionCalculator::for_server(user("u2"), s);
    assert_eq!(calc.calc(&db).unwrap().value(), 0b0101);
}

#[test]
fn member_without_role_set_gets_server_default() {
    let mut db = MemoryDb::new();
    db.add_member(member("s1", "u2", None));
    let s = server("s1", "u1", 0b0101, vec![role("r1", 0b0010, 0, 1)]);
    let mut calc = PermissionCalculator::for_server(user("u2"), s);
    assert_eq!(calc.calc(&db).unwrap().value(), 0b0101);
}

#[test]
fn lower_rank_role_wins_conflicting_bit() {
    // R1 (rank 1) denies the bit, R2 (rank 5) allows it: the lower-ranked
    // role is applied last and wins, whichever order the roles are stored in.
    let mut db = MemoryDb::new();
    db.add_member(member("s1", "u2", Some(vec!["r1", "r2"])));
    let roles1 = vec![role("r1", 0, 0b0001, 1), role("r2", 0b0001, 0, 5)];
    let s1 = server("s1", "u1", 0, roles1);
    let mut calc1 = PermissionCalculator::for_server(user("u2"), s1);
    assert_eq!(calc1.calc(&db).unwrap().value(), 0);

    let roles2 = vec![role("r2", 0b0001, 0, 5), role("r1", 0, 0b0001, 1)];
    let s2 = server("s1", "u1", 0, roles2);
    let mut calc2 = PermissionCalculator::for_server(user("u2"), s2);
    assert_eq!(calc2.calc(&db).unwrap().value(), 0);

    // Flipped decisions: R1 allows, R2 denies; R1 still wins.
    let roles3 = vec![role("r1", 0b0001, 0, 1), role("r2", 0, 0b0001, 5)];
    let s3 = server("s1", "u1", 0, roles3);
    let mut calc3 = PermissionCalculator::for_server(user("u2"), s3);
    assert_eq!(calc3.calc(&db).unwrap().value(), 0b0001);
}

#[test]
fn equal_rank_roles_apply_in_storage_order() {
    // With equal ranks the sort is stable, so the role stored later is
    // applied later and settles the bit.
    let mut db = MemoryDb::new();
    db.add_member(member("s1", "u2", Some(vec!["r1", "r2"])));
    let s = server(
        "s1",
        "u1",
        0,
        vec![role("r1", 0b0001, 0, 3), role("r2", 0, 0b0001, 3)],
    );
    let mut calc = PermissionCalculator::for_server(user("u2"), s);
    assert_eq!(calc.calc(&db).unwrap().value(), 0);
}

#[test]
fn calc_is_idempotent_without_second_fetch() {
    let mut db = MemoryDb::new();
    db.add_member(member("s1", "u2", Some(vec![])));
    let s = server("s1", "u1", 0b0110, vec![]);
    let mut calc = PermissionCalculator::for_server(user("u2"), s);
    let first = calc.calc(&db).unwrap();
    // The second call runs against an empty database: it can only return the
    // same value by observing the memo, not by fetching anything again.
    let empty = MemoryDb::new();
    let second = calc.calc(&empty).unwrap();
    assert_eq!(first, second);
    assert_eq!(second.value(), 0b0110);
}

#[test]
fn missing_member_is_not_found() {
    let db = MemoryDb::new();
    let s = server("s1", "u1", 0b0001, vec![]);
    let mut calc = PermissionCalculator::for_server(user("u2"), s);
    assert_eq!(calc.calc(&db).unwrap_err(), Error::NotFound);
}

#[test]
fn missing_server_is_not_found() {
    let db = MemoryDb::new();
    let ch = text_channel("c1", "s1", None, vec![]);
    let mut calc = PermissionCalculator::for_channel(user("u2"), ch);
    assert_eq!(calc.calc(&db).unwrap_err(), Error::NotFound);
}

#[test]
fn saved_messages_is_fixed_and_side_effect_free() {
    // No entities stored anywhere: the fixed constant comes back and neither
    // slot is populated, for any perspective.
    let db = MemoryDb::new();
    let ch = Channel::SavedMessages {
        id: "c1".to_string(),
        user: "u9".to_string(),
    };
    let mut calc = PermissionCalculator::for_channel(user("u2"), ch);
    assert_eq!(
        calc.calc(&db).unwrap().value(),
        DEFAULT_PERMISSION_SAVED_MESSAGES
    );
    assert!(calc.server.is_none());
    assert!(calc.member.is_none());
}

#[test]
fn direct_message_is_fixed_and_side_effect_free() {
    let db = MemoryDb::new();
    let ch = Channel::DirectMessage {
        id: "c1".to_string(),
    };
    let mut calc = PermissionCalculator::for_channel(user("u7"), ch);
    assert_eq!(
        calc.calc(&db).unwrap().value(),
        DEFAULT_PERMISSION_DIRECT_MESSAGE
    );
    assert!(calc.server.is_none());
    assert!(calc.member.is_none());
}

#[test]
fn group_without_explicit_permissions_falls_back_to_direct_message() {
    let db = MemoryDb::new();
    let ch = Channel::Group {
        id: "c1".to_string(),
        owner: "u1".to_string(),
        permissions: None,
    };
    let mut calc = PermissionCalculator::for_channel(user("u2"), ch);
    assert_eq!(
        calc.calc(&db).unwrap().value(),
        DEFAULT_PERMISSION_DIRECT_MESSAGE
    );
}

#[test]
fn group_with_explicit_permissions_returns_them() {
    let db = MemoryDb::new();
    let ch = Channel::Group {
        id: "c1".to_string(),
        owner: "u1".to_string(),
        permissions: Some(0b1010),
    };
    let mut calc = PermissionCalculator::for_channel(user("u2"), ch);
    assert_eq!(calc.calc(&db).unwrap().value(), 0b1010);
}

#[test]
fn group_owner_gets_grant_all_safe() {
    let db = MemoryDb::new();
    let ch = Channel::Group {
        id: "c1".to_string(),
        owner: "u1".to_string(),
        permissions: Some(0b1010),
    };
    let mut calc = PermissionCalculator::for_channel(user("u1"), ch);
    assert_eq!(calc.calc(&db).unwrap().value(), GRANT_ALL_SAFE);
}

#[test]
fn server_owner_bypasses_channel_overrides() {
    // The channel carries a default override and role overrides, but the
    // perspective owns the server: grant-all-safe comes back untouched.
    let mut db = MemoryDb::new();
    db.add_server(server(
        "s1",
        "u1",
        0b0001,
        vec![role("r1", 0, 0b0001, 1)],
    ));
    let ch = text_channel(
        "c1",
        "s1",
        Some(Override::new(0, 0b0001)),
        vec![("r1", Override::new(0, 0b0001))],
    );
    let mut calc = PermissionCalculator::for_channel(user("u1"), ch);
    assert_eq!(calc.calc(&db).unwrap().value(), GRANT_ALL_SAFE);
}

#[test]
fn channel_default_override_layers_on_server_base() {
    // Base server permission 0b0001, channel default override adds 0b0010,
    // no matching role overrides: result 0b0011.
    let mut db = MemoryDb::new();
    db.add_server(server("s1", "u1", 0b0001, vec![]));
    db.add_member(member("s1", "u2", Some(vec![])));
    let ch = text_channel("c1", "s1", Some(Override::new(0b0010, 0)), vec![]);
    let mut calc = PermissionCalculator::for_channel(user("u2"), ch);
    assert_eq!(calc.calc(&db).unwrap().value(), 0b0011);
}

#[test]
fn channel_role_overrides_follow_rank_precedence() {
    // Channel overrides are keyed by the rank of the role on the server: the
    // lower-ranked role's channel override is applied last.
    let mut db = MemoryDb::new();
    db.add_server(server(
        "s1",
        "u1",
        0,
        vec![role("r1", 0, 0, 1), role("r2", 0, 0, 5)],
    ));
    db.add_member(member("s1", "u2", Some(vec!["r1", "r2"])));
    let ch = text_channel(
        "c1",
        "s1",
        None,
        vec![
            ("r1", Override::new(0, 0b0001)),
            ("r2", Override::new(0b0001, 0)),
        ],
    );
    let mut calc = PermissionCalculator::for_channel(user("u2"), ch);
    assert_eq!(calc.calc(&db).unwrap().value(), 0);
}

#[test]
fn voice_channel_resolves_like_text_channel() {
    let mut db = MemoryDb::new();
    db.add_server(server("s1", "u1", 0b0001, vec![]));
    db.add_member(member("s1", "u2", Some(vec![])));
    let ch = Channel::VoiceChannel {
        id: "c1".to_string(),
        server: "s1".to_string(),
        default_permissions: Some(Override::new(0b0010, 0)),
        role_permissions: vec![],
    };
    let mut calc = PermissionCalculator::for_channel(user("u2"), ch);
    assert_eq!(calc.calc(&db).unwrap().value(), 0b0011);
}

#[test]
fn preset_member_slot_avoids_member_fetch() {
    // The member slot is pre-resolved; the database holds only the server.
    let mut db = MemoryDb::new();
    db.add_server(server("s1", "u1", 0b0100, vec![]));
    let ch = text_channel("c1", "s1", None, vec![]);
    let mut calc = PermissionCalculator::for_channel(user("u2"), ch)
        .with_member(member("s1", "u2", Some(vec![])));
    assert_eq!(calc.calc(&db).unwrap().value(), 0b0100);
}

#[test]
fn preset_server_slot_avoids_server_fetch() {
    // The server slot is pre-resolved; the database holds only the member.
    let mut db = MemoryDb::new();
    db.add_member(member("s1", "u2", Some(vec![])));
    let ch = text_channel("c1", "s1", None, vec![]);
    let mut calc = PermissionCalculator::for_channel(user("u2"), ch)
        .with_server(server("s1", "u1", 0b1000, vec![]));
    assert_eq!(calc.calc(&db).unwrap().value(), 0b1000);
}

#[test]
fn role_overrides_compose_allow_and_deny() {
    // One role: deny clears before allow sets, on top of the default.
    let mut db = MemoryDb::new();
    db.add_member(member("s1", "u2", Some(vec!["r1"])));
    let s = server("s1", "u1", 0b1100, vec![role("r1", 0b0001, 0b0100, 2)]);
    let mut calc = PermissionCalculator::for_server(user("u2"), s);
    assert_eq!(calc.calc(&db).unwrap().value(), 0b1001);
}

#[test]
fn calc_twice_on_text_channel_observes_memo() {
    // Second call on a server-bound channel target runs against an empty
    // database: only the memo can produce the same value.
    let mut db = MemoryDb::new();
    db.add_server(server("s1", "u1", 0b0001, vec![]));
    db.add_member(member("s1", "u2", Some(vec![])));
    let ch = text_channel("c1", "s1", Some(Override::new(0b0010, 0)), vec![]);
    let mut calc = PermissionCalculator::for_channel(user("u2"), ch);
    let first = calc.calc(&db).unwrap();
    let empty = MemoryDb::new();
    let second = calc.calc(&empty).unwrap();
    assert_eq!(first, second);
    assert_eq!(second.value(), 0b0011);
}

#[test]
fn dangling_override_for_unassigned_role_is_ignored() {
    // The channel keys an override by a role id that exists neither on the
    // server nor among the member's roles: it is never looked up and the
    // result is unaffected.
    let mut db = MemoryDb::new();
    db.add_server(server("s1", "u1", 0b0001, vec![role("r1", 0b0100, 0, 1)]));
    db.add_member(member("s1", "u2", Some(vec!["r1"])));
    let ch = text_channel(
        "c1",
        "s1",
        None,
        vec![
            ("rx", Override::new(0, 0b0001)),
            ("r1", Override::new(0b0010, 0)),
        ],
    );
    let mut calc = PermissionCalculator::for_channel(user("u2"), ch);
    assert_eq!(calc.calc(&db).unwrap().value(), 0b0111);
}
