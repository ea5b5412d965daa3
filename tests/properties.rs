use abac_registry::access_registry::{
    AccessRegistry, EntitlementGranted, EntitlementLevel, EntitlementRevoked, Error,
    SessionCreated, SessionRevoked,
};
use abac_registry::attribute_store::{
    AnchorAdded, AnchorRemoved, AttributeRemoved, AttributeSet, AttributeStore, RootUpdated,
    WriterAuthorized, WriterRevoked, MAX_STRING_LENGTH,
};
use abac_registry::attribute_store::Error as StoreError;
use abac_registry::env::{Address, CallContext};

const LEVELS: [EntitlementLevel; 4] = [
    EntitlementLevel::NoAccess,
    EntitlementLevel::Basic,
    EntitlementLevel::Premium,
    EntitlementLevel::Vip,
];

fn addr(b: u8) -> Address {
    Address::from([b; 20])
}

fn ctx(b: u8) -> CallContext {
    CallContext::new(addr(b), 0)
}

fn s(text: &str) -> String {
    String::from(text)
}

#[test]
fn ungranted_principal_reads_no_access() {
    let reg = AccessRegistry::new(&ctx(0x0A));
    let p = addr(0x11);
    assert_eq!(reg.get_entitlement(p), EntitlementLevel::NoAccess);
    assert!(reg.has_entitlement(p, EntitlementLevel::NoAccess));
    assert!(!reg.has_entitlement(p, EntitlementLevel::Basic));
    assert!(!reg.has_entitlement(p, EntitlementLevel::Vip));
}

#[test]
fn vip_holds_every_tier() {
    let owner = ctx(0x0A);
    let mut reg = AccessRegistry::new(&owner);
    let p = addr(0x11);
    assert_eq!(
        reg.grant_entitlement(&owner, p, EntitlementLevel::Vip),
        Ok(EntitlementGranted { account: p, level: EntitlementLevel::Vip })
    );
    assert_eq!(reg.get_entitlement(p), EntitlementLevel::Vip);
    for level in LEVELS {
        assert!(reg.has_entitlement(p, level));
    }
}

#[test]
fn tiers_compare_by_ordinal() {
    let owner = ctx(0x0A);
    let mut reg = AccessRegistry::new(&owner);
    let p = addr(0x11);
    reg.grant_entitlement(&owner, p, EntitlementLevel::Basic).unwrap();
    let held: Vec<bool> = LEVELS.iter().map(|l| reg.has_entitlement(p, *l)).collect();
    assert_eq!(held, vec![true, true, false, false]);
}

#[test]
fn grant_overwrites_earlier_level() {
    let owner = ctx(0x0A);
    let mut reg = AccessRegistry::new(&owner);
    let p = addr(0x11);
    reg.grant_entitlement(&owner, p, EntitlementLevel::Vip).unwrap();
    reg.grant_entitlement(&owner, p, EntitlementLevel::Basic).unwrap();
    assert_eq!(reg.get_entitlement(p), EntitlementLevel::Basic);
    assert!(!reg.has_entitlement(p, EntitlementLevel::Premium));
}

#[test]
fn revoke_after_premium_reads_no_access() {
    let owner = ctx(0x0A);
    let mut reg = AccessRegistry::new(&owner);
    let p = addr(0x11);
    reg.grant_entitlement(&owner, p, EntitlementLevel::Premium).unwrap();
    assert_eq!(
        reg.revoke_entitlement(&owner, p),
        Ok(EntitlementRevoked { account: p })
    );
    assert_eq!(reg.get_entitlement(p), EntitlementLevel::NoAccess);
}

#[test]
fn default_level_is_no_access() {
    assert_eq!(EntitlementLevel::default(), EntitlementLevel::NoAccess);
}

#[test]
fn registry_refuses_non_owner_without_change() {
    let owner = ctx(0x0A);
    let stranger = ctx(0x0B);
    let mut reg = AccessRegistry::new(&owner);
    let p = addr(0x11);
    let sid = [0x05u8; 32];
    reg.grant_entitlement(&owner, p, EntitlementLevel::Basic).unwrap();
    reg.create_session(&owner, sid, vec![1, 2, 3], [0x06; 32], 50).unwrap();

    assert_eq!(
        reg.grant_entitlement(&stranger, p, EntitlementLevel::Vip),
        Err(Error::NotOwner)
    );
    assert_eq!(reg.revoke_entitlement(&stranger, p), Err(Error::NotOwner));
    assert_eq!(
        reg.create_session(&stranger, sid, vec![9], [0x07; 32], 99),
        Err(Error::NotOwner)
    );
    assert_eq!(reg.revoke_session(&stranger, sid), Err(Error::NotOwner));
    // a missing session is not revealed to a non-owner
    assert_eq!(reg.revoke_session(&stranger, [0x44; 32]), Err(Error::NotOwner));

    assert_eq!(reg.get_entitlement(p), EntitlementLevel::Basic);
    let grant = reg.get_session(sid).unwrap();
    assert_eq!(grant.eph_pub_key, vec![1, 2, 3]);
    assert_eq!(grant.scope_id, [0x06; 32]);
    assert_eq!(grant.expires_at_block, 50);
    assert!(!grant.is_revoked);
    assert_eq!(reg.owner(), addr(0x0A));
}

#[test]
fn created_session_reads_back_and_revocation_is_repeatable() {
    let owner = CallContext::new(addr(0x0A), 77);
    let mut reg = AccessRegistry::new(&owner);
    let sid = [0x21u8; 32];
    let key = vec![0x02u8; 33];
    assert_eq!(
        reg.create_session(&owner, sid, key.clone(), [0x31; 32], 1234),
        Ok(SessionCreated { session_id: sid, expires_at_block: 1234 })
    );
    let grant = reg.get_session(sid).unwrap();
    assert_eq!(grant.eph_pub_key, key);
    assert_eq!(grant.scope_id, [0x31; 32]);
    assert_eq!(grant.expires_at_block, 1234);
    assert_eq!(grant.created_at_block, 77);
    assert!(!grant.is_revoked);

    assert_eq!(reg.revoke_session(&owner, [0x99; 32]), Err(Error::SessionNotFound));

    let later = CallContext::new(addr(0x0A), 90);
    assert_eq!(
        reg.revoke_session(&later, sid),
        Ok(SessionRevoked { session_id: sid })
    );
    assert_eq!(
        reg.revoke_session(&later, sid),
        Ok(SessionRevoked { session_id: sid })
    );
    let grant = reg.get_session(sid).unwrap();
    assert!(grant.is_revoked);
    assert_eq!(grant.eph_pub_key, key);
    assert_eq!(grant.created_at_block, 77);
    assert_eq!(grant.expires_at_block, 1234);
}

#[test]
fn create_session_overwrites_and_unrevokes_nothing_else() {
    let owner = CallContext::new(addr(0x0A), 3);
    let mut reg = AccessRegistry::new(&owner);
    let sid = [0x21u8; 32];
    reg.create_session(&owner, sid, vec![1], [0x01; 32], 10).unwrap();
    reg.revoke_session(&owner, sid).unwrap();
    let again = CallContext::new(addr(0x0A), 8);
    reg.create_session(&again, sid, vec![2, 2], [0x02; 32], 20).unwrap();
    let grant = reg.get_session(sid).unwrap();
    assert_eq!(grant.eph_pub_key, vec![2, 2]);
    assert_eq!(grant.scope_id, [0x02; 32]);
    assert_eq!(grant.expires_at_block, 20);
    assert_eq!(grant.created_at_block, 8);
    assert!(!grant.is_revoked);
}

#[test]
fn overlong_strings_are_refused_before_authorization() {
    let owner = ctx(0x0A);
    let mut store = AttributeStore::new(&owner);
    let subject = addr(0x11);
    let long = "x".repeat(MAX_STRING_LENGTH + 1);
    store.set_attribute(&owner, subject, s("org"), s("role"), s("admin")).unwrap();

    assert_eq!(
        store.set_attribute(&owner, subject, long.clone(), s("role"), s("v")),
        Err(StoreError::InputTooLong)
    );
    assert_eq!(
        store.set_attribute(&owner, subject, s("org"), long.clone(), s("v")),
        Err(StoreError::InputTooLong)
    );
    assert_eq!(
        store.set_attribute(&owner, subject, s("org"), s("role"), long.clone()),
        Err(StoreError::InputTooLong)
    );
    // length is checked before standing
    assert_eq!(
        store.set_attribute(&ctx(0x0B), subject, s("org"), s("role"), long),
        Err(StoreError::InputTooLong)
    );
    assert_eq!(
        store.get_attribute(subject, s("org"), s("role")),
        Some(s("admin"))
    );
}

#[test]
fn strings_at_the_bound_are_accepted() {
    let owner = ctx(0x0A);
    let mut store = AttributeStore::new(&owner);
    let subject = addr(0x11);
    let exact = "y".repeat(MAX_STRING_LENGTH);
    assert!(store
        .set_attribute(&owner, subject, exact.clone(), exact.clone(), exact.clone())
        .is_ok());
    assert_eq!(store.get_attribute(subject, exact.clone(), exact.clone()), Some(exact));
}

#[test]
fn bound_counts_characters_not_bytes() {
    let owner = ctx(0x0A);
    let mut store = AttributeStore::new(&owner);
    let subject = addr(0x11);
    // 256 two-byte characters: 512 bytes
    let wide = "é".repeat(MAX_STRING_LENGTH);
    assert!(store
        .set_attribute(&owner, subject, s("org"), s("name"), wide.clone())
        .is_ok());
    assert_eq!(store.get_attribute(subject, s("org"), s("name")), Some(wide));
    let too_wide = "é".repeat(MAX_STRING_LENGTH + 1);
    assert_eq!(
        store.set_attribute(&owner, subject, s("org"), s("name"), too_wide),
        Err(StoreError::InputTooLong)
    );
}

#[test]
fn attribute_writers_are_subject_owner_and_delegates() {
    let owner = ctx(0x0A);
    let mut store = AttributeStore::new(&owner);
    let subject = addr(0x11);
    let delegate = addr(0x22);
    let other = addr(0x33);

    assert_eq!(
        store.set_attribute(&ctx(0x11), subject, s("org"), s("a"), s("1")),
        Ok(AttributeSet { account: subject, namespace: s("org"), key: s("a"), value: s("1") })
    );
    assert!(store.set_attribute(&owner, subject, s("org"), s("b"), s("2")).is_ok());
    assert_eq!(
        store.set_attribute(&ctx(0x22), subject, s("org"), s("c"), s("3")),
        Err(StoreError::NotAuthorized)
    );
    assert_eq!(
        store.authorize_writer(&ctx(0x11), delegate),
        WriterAuthorized { account: subject, writer: delegate }
    );
    assert!(store.set_attribute(&ctx(0x22), subject, s("org"), s("c"), s("3")).is_ok());
    assert_eq!(
        store.set_attribute(&ctx(0x33), subject, s("org"), s("d"), s("4")),
        Err(StoreError::NotAuthorized)
    );
    assert_eq!(
        store.remove_attribute(&ctx(0x33), subject, s("org"), s("a")),
        Err(StoreError::NotAuthorized)
    );
    assert_eq!(store.get_attribute(subject, s("org"), s("a")), Some(s("1")));
    assert_eq!(store.get_attribute(subject, s("org"), s("b")), Some(s("2")));
    assert_eq!(store.get_attribute(subject, s("org"), s("c")), Some(s("3")));
    assert_eq!(store.get_attribute(subject, s("org"), s("d")), None);
    // delegation runs one way only
    assert!(!store.can_write(subject, delegate));
    assert!(!store.can_write(other, subject));
}

#[test]
fn writer_delegation_can_be_withdrawn() {
    let owner = ctx(0x0A);
    let mut store = AttributeStore::new(&owner);
    let subject = addr(0x11);
    let writer = addr(0x22);
    store.authorize_writer(&ctx(0x11), writer);
    store.authorize_writer(&ctx(0x11), writer);
    assert!(store.can_write(writer, subject));
    assert_eq!(
        store.revoke_writer(&ctx(0x11), writer),
        WriterRevoked { account: subject, writer }
    );
    assert!(!store.can_write(writer, subject));
    // withdrawing again, or one never made, is accepted
    store.revoke_writer(&ctx(0x11), writer);
    store.revoke_writer(&ctx(0x11), addr(0x44));
    assert!(!store.can_write(writer, subject));
    // the owner and the subject keep their standing
    assert!(store.can_write(addr(0x0A), subject));
    assert!(store.can_write(subject, subject));
}

#[test]
fn removing_an_absent_attribute_is_a_no_op() {
    let owner = ctx(0x0A);
    let mut store = AttributeStore::new(&owner);
    let subject = addr(0x11);
    assert_eq!(
        store.remove_attribute(&ctx(0x11), subject, s("org"), s("missing")),
        Ok(AttributeRemoved { account: subject, namespace: s("org"), key: s("missing") })
    );
    assert_eq!(store.get_attribute(subject, s("org"), s("missing")), None);
}

#[test]
fn attributes_are_keyed_by_subject_namespace_and_key() {
    let owner = ctx(0x0A);
    let mut store = AttributeStore::new(&owner);
    store.set_attribute(&owner, addr(1), s("ns1"), s("k"), s("a")).unwrap();
    store.set_attribute(&owner, addr(1), s("ns2"), s("k"), s("b")).unwrap();
    store.set_attribute(&owner, addr(2), s("ns1"), s("k"), s("c")).unwrap();
    store.set_attribute(&owner, addr(1), s("ns1"), s("k"), s("d")).unwrap();
    assert_eq!(store.get_attribute(addr(1), s("ns1"), s("k")), Some(s("d")));
    assert_eq!(store.get_attribute(addr(1), s("ns2"), s("k")), Some(s("b")));
    assert_eq!(store.get_attribute(addr(2), s("ns1"), s("k")), Some(s("c")));
    store.remove_attribute(&owner, addr(1), s("ns1"), s("k")).unwrap();
    assert_eq!(store.get_attribute(addr(1), s("ns1"), s("k")), None);
    assert_eq!(store.get_attribute(addr(1), s("ns2"), s("k")), Some(s("b")));
    assert_eq!(store.get_attribute(addr(2), s("ns1"), s("k")), Some(s("c")));
}

#[test]
fn anchor_standing_follows_registration() {
    let owner = ctx(0x0A);
    let mut store = AttributeStore::new(&owner);
    let anchor = addr(0x22);
    let subject = addr(0x11);
    assert!(store.get_root(subject).is_none());
    assert_eq!(
        store.set_root(&ctx(0x22), subject, [1; 32]),
        Err(StoreError::NotAuthorizedAnchor)
    );
    assert_eq!(store.add_anchor(&owner, anchor), Ok(AnchorAdded { anchor }));
    assert_eq!(
        store.set_root(&ctx(0x22), subject, [2; 32]),
        Ok(RootUpdated { account: subject, root: [2; 32] })
    );
    assert_eq!(store.get_root(subject), Some([2; 32]));
    assert_eq!(store.remove_anchor(&owner, anchor), Ok(AnchorRemoved { anchor }));
    assert_eq!(
        store.set_root(&ctx(0x22), subject, [3; 32]),
        Err(StoreError::NotAuthorizedAnchor)
    );
    assert_eq!(store.get_root(subject), Some([2; 32]));
    // the owner is an anchor without registration, and stays one
    assert!(store.is_authorized_anchor(addr(0x0A)));
    store.remove_anchor(&owner, addr(0x0A)).unwrap();
    assert!(store.set_root(&owner, subject, [4; 32]).is_ok());
    assert_eq!(store.get_root(subject), Some([4; 32]));
}

#[test]
fn anchor_changes_refused_for_non_owner_without_change() {
    let owner = ctx(0x0A);
    let mut store = AttributeStore::new(&owner);
    let anchor = addr(0x22);
    store.add_anchor(&owner, anchor).unwrap();
    assert_eq!(store.remove_anchor(&ctx(0x22), anchor), Err(StoreError::NotOwner));
    assert_eq!(store.add_anchor(&ctx(0x22), addr(0x33)), Err(StoreError::NotOwner));
    assert!(store.is_authorized_anchor(anchor));
    assert!(!store.is_authorized_anchor(addr(0x33)));
}

#[test]
fn deployment_walkthrough() {
    let o = ctx(0x0A);
    let a = addr(0x11);
    let b = addr(0x22);
    let c = addr(0x33);
    let mut registry = AccessRegistry::new(&o);
    let mut store = AttributeStore::new(&o);

    registry.grant_entitlement(&o, a, EntitlementLevel::Premium).unwrap();
    assert_eq!(registry.get_entitlement(a), EntitlementLevel::Premium);

    store.add_anchor(&o, b).unwrap();
    assert!(store.set_root(&ctx(0x22), a, [0xAB; 32]).is_ok());
    assert_eq!(store.get_root(a), Some([0xAB; 32]));

    assert!(store.set_attribute(&ctx(0x11), a, s("org"), s("role"), s("admin")).is_ok());
    assert_eq!(
        store.set_attribute(&ctx(0x33), a, s("org"), s("role"), s("x")),
        Err(StoreError::NotAuthorized)
    );
    store.authorize_writer(&ctx(0x11), c);
    assert!(store.set_attribute(&ctx(0x33), a, s("org"), s("role"), s("x")).is_ok());
    assert_eq!(store.get_attribute(a, s("org"), s("role")), Some(s("x")));
}

#[test]
fn addresses_compare_by_every_byte() {
    let mut bytes = [0x10u8; 20];
    let a = Address::from(bytes);
    bytes[19] = 0x11;
    let b = Address::new(bytes);
    assert_ne!(a, b);
    assert_eq!(a, Address::from([0x10u8; 20]));
    assert_eq!(Address::default(), Address::from([0u8; 20]));
}
