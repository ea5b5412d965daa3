//! The entitlement registry and the session-grant manager: an owner-governed
//! map from principals to ordered access tiers, and owner-issued,
//! time-bounded session grants with soft revocation.

use vstd::prelude::*;
use crate::env::{Address, CallContext};
use crate::table::Table;

verus! {

/// Ordered access tiers; a principal never granted one reads as `NoAccess`.
#[derive(Clone, Copy, Debug, PartialEq, Eq, Structural)]
pub enum EntitlementLevel {
    NoAccess,
    Basic,
    Premium,
    Vip,
}

impl EntitlementLevel {
    /// The tier's ordinal: tiers are totally ordered by it.
    pub open spec fn rank(self) -> nat {
        match self {
            EntitlementLevel::NoAccess => 0,
            EntitlementLevel::Basic => 1,
            EntitlementLevel::Premium => 2,
            EntitlementLevel::Vip => 3,
        }
    }
}

impl Default for EntitlementLevel {
    fn default() -> (r: EntitlementLevel)
        ensures
            r == EntitlementLevel::NoAccess,
    {
        EntitlementLevel::NoAccess
    }
}

impl View for EntitlementLevel {
    type V = EntitlementLevel;

    open spec fn view(&self) -> EntitlementLevel {
        *self
    }
}

/// A session grant: binds an ephemeral public key and a resource scope for
/// delegated access. Whoever consumes it proves possession of the key and
/// compares the expiry with the current block height.
#[derive(Clone, Debug, PartialEq, Eq)]
pub struct SessionGrant {
    /// The ephemeral public key, stored as given (normally a 33-byte
    /// compressed curve point).
    pub eph_pub_key: Vec<u8>,
    /// The resource scope that the session may access.
    pub scope_id: [u8; 32],
    /// The block height at which the session expires.
    pub expires_at_block: u64,
    /// Whether the session has been revoked; once set it stays set.
    pub is_revoked: bool,
    /// The block height at which the session was created.
    pub created_at_block: u64,
}

/// The value that a `SessionGrant` holds.
pub struct SessionGrantView {
    pub eph_pub_key: Seq<u8>,
    pub scope_id: [u8; 32],
    pub expires_at_block: u64,
    pub is_revoked: bool,
    pub created_at_block: u64,
}

impl View for SessionGrant {
    type V = SessionGrantView;

    open spec fn view(&self) -> SessionGrantView {
        SessionGrantView {
            eph_pub_key: self.eph_pub_key@,
            scope_id: self.scope_id,
            expires_at_block: self.expires_at_block,
            is_revoked: self.is_revoked,
            created_at_block: self.created_at_block,
        }
    }
}

impl SessionGrant {
    /// A copy of this grant, with the revocation flag given.
    fn copy_with_revoked(&self, is_revoked: bool) -> (r: SessionGrant)
        ensures
            r@ == (SessionGrantView { is_revoked, ..self@ }),
    {
        let eph_pub_key = self.eph_pub_key.clone();
        assert(eph_pub_key@ =~= self.eph_pub_key@);
        SessionGrant {
            eph_pub_key,
            scope_id: self.scope_id,
            expires_at_block: self.expires_at_block,
            is_revoked,
            created_at_block: self.created_at_block,
        }
    }
}

/// Emitted when the owner grants an entitlement.
#[derive(Clone, Copy, Debug, PartialEq)]
pub struct EntitlementGranted {
    pub account: Address,
    pub level: EntitlementLevel,
}

/// Emitted when the owner revokes an entitlement.
#[derive(Clone, Copy, Debug, PartialEq)]
pub struct EntitlementRevoked {
    pub account: Address,
}

/// Emitted when the owner creates (or overwrites) a session grant.
#[derive(Clone, Copy, Debug, PartialEq)]
pub struct SessionCreated {
    pub session_id: [u8; 32],
    pub expires_at_block: u64,
}

/// Emitted when the owner revokes a session grant.
#[derive(Clone, Copy, Debug, PartialEq)]
pub struct SessionRevoked {
    pub session_id: [u8; 32],
}

/// Why a registry operation was refused.
#[derive(Clone, Copy, Debug, PartialEq, Eq, Structural)]
pub enum Error {
    /// The caller is not the owner.
    NotOwner,
    /// No entitlement is recorded; lookups return `NoAccess` instead, so no
    /// operation reports this.
    EntitlementNotFound,
    /// No session grant is recorded under the id.
    SessionNotFound,
}

/// The registry's state as a value.
pub struct RegistryModel {
    pub owner: Address,
    pub entitlements: Map<Address, EntitlementLevel>,
    pub sessions: Map<Seq<u8>, SessionGrantView>,
}

impl RegistryModel {
    /// The tier of `account`: what was last granted, `NoAccess` if nothing was.
    pub open spec fn level_of(self, account: Address) -> EntitlementLevel {
        if self.entitlements.contains_key(account) {
            self.entitlements[account]
        } else {
            EntitlementLevel::NoAccess
        }
    }

    /// Whether the tier of `account` is `required` or above.
    pub open spec fn has_at_least(self, account: Address, required: EntitlementLevel) -> bool {
        self.level_of(account).rank() >= required.rank()
    }

    /// The grant recorded under `session_id`, if any.
    pub open spec fn session(self, session_id: Seq<u8>) -> Option<SessionGrantView> {
        if self.sessions.contains_key(session_id) {
            Some(self.sessions[session_id])
        } else {
            None
        }
    }

    /// The state after granting `level` to `account`.
    pub open spec fn granted(self, account: Address, level: EntitlementLevel) -> RegistryModel {
        RegistryModel { entitlements: self.entitlements.insert(account, level), ..self }
    }

    /// The state after revoking the entitlement of `account`.
    pub open spec fn revoked(self, account: Address) -> RegistryModel {
        RegistryModel { entitlements: self.entitlements.remove(account), ..self }
    }

    /// The state after recording a fresh, unrevoked grant under `session_id`.
    pub open spec fn session_created(
        self,
        session_id: Seq<u8>,
        eph_pub_key: Seq<u8>,
        scope_id: [u8; 32],
        expires_at_block: u64,
        created_at_block: u64,
    ) -> RegistryModel {
        let grant = SessionGrantView {
            eph_pub_key,
            scope_id,
            expires_at_block,
            is_revoked: false,
            created_at_block,
        };
        RegistryModel { sessions: self.sessions.insert(session_id, grant), ..self }
    }

    /// The state after marking the grant under `session_id` revoked, all its
    /// other fields kept.
    pub open spec fn session_revoked(self, session_id: Seq<u8>) -> RegistryModel {
        let grant = SessionGrantView { is_revoked: true, ..self.sessions[session_id] };
        RegistryModel { sessions: self.sessions.insert(session_id, grant), ..self }
    }
}

/// The entitlement and session-grant registry.
pub struct AccessRegistry {
    entitlements: Table<Address, EntitlementLevel>,
    sessions: Table<[u8; 32], SessionGrant>,
    owner: Address,
}

impl View for AccessRegistry {
    type V = RegistryModel;

    closed spec fn view(&self) -> RegistryModel {
        RegistryModel {
            owner: self.owner,
            entitlements: self.entitlements@,
            sessions: self.sessions@,
        }
    }
}

impl AccessRegistry {
    pub closed spec fn wf(&self) -> bool {
        self.entitlements.wf() && self.sessions.wf()
    }

    /// A registry owned by the deploying caller, with no records.
    pub fn new(ctx: &CallContext) -> (r: AccessRegistry)
        ensures
            r.wf(),
            r@.owner == ctx.caller,
            r@.entitlements == Map::<Address, EntitlementLevel>::empty(),
            r@.sessions == Map::<Seq<u8>, SessionGrantView>::empty(),
    {
        AccessRegistry { entitlements: Table::new(), sessions: Table::new(), owner: ctx.caller }
    }

    /// Grants `level` to `account`, replacing any earlier grant. Owner only.
    pub fn grant_entitlement(
        &mut self,
        ctx: &CallContext,
        account: Address,
        level: EntitlementLevel,
    ) -> (r: Result<EntitlementGranted, Error>)
        requires
            old(self).wf(),
        ensures
            final(self).wf(),
            ctx.caller == old(self)@.owner ==> r == Ok::<EntitlementGranted, Error>(
                (EntitlementGranted { account, level }),
            ) && final(self)@ == old(self)@.granted(account, level),
            ctx.caller != old(self)@.owner ==> r == Err::<EntitlementGranted, Error>(
                Error::NotOwner,
            ) && final(self)@ == old(self)@,
    {
        if ctx.caller != self.owner {
            return Err(Error::NotOwner);
        }
        self.entitlements.insert(account, level);
        Ok(EntitlementGranted { account, level })
    }

    /// Removes the entitlement of `account`, which then reads as `NoAccess`.
    /// Owner only.
    pub fn revoke_entitlement(&mut self, ctx: &CallContext, account: Address) -> (r: Result<
        EntitlementRevoked,
        Error,
    >)
        requires
            old(self).wf(),
        ensures
            final(self).wf(),
            ctx.caller == old(self)@.owner ==> r == Ok::<EntitlementRevoked, Error>(
                (EntitlementRevoked { account }),
            ) && final(self)@ == old(self)@.revoked(account),
            ctx.caller != old(self)@.owner ==> r == Err::<EntitlementRevoked, Error>(
                Error::NotOwner,
            ) && final(self)@ == old(self)@,
    {
        if ctx.caller != self.owner {
            return Err(Error::NotOwner);
        }
        self.entitlements.remove(&account);
        Ok(EntitlementRevoked { account })
    }

    /// The tier of `account`; `NoAccess` if it was never granted one.
    pub fn get_entitlement(&self, account: Address) -> (r: EntitlementLevel)
        requires
            self.wf(),
        ensures
            r == self@.level_of(account),
    {
        match self.entitlements.get(&account) {
            Some(level) => *level,
            None => EntitlementLevel::NoAccess,
        }
    }

    /// Whether the tier of `account` is `required_level` or above.
    pub fn has_entitlement(&self, account: Address, required_level: EntitlementLevel) -> (r: bool)
        requires
            self.wf(),
        ensures
            r == self@.has_at_least(account, required_level),
    {
        let current_level = self.get_entitlement(account);
        Self::level_value(current_level) >= Self::level_value(required_level)
    }

    pub fn owner(&self) -> (r: Address)
        ensures
            r == self@.owner,
    {
        self.owner
    }

    /// The ordinal of a tier.
    fn level_value(level: EntitlementLevel) -> (r: u8)
        ensures
            r as nat == level.rank(),
    {
        match level {
            EntitlementLevel::NoAccess => 0,
            EntitlementLevel::Basic => 1,
            EntitlementLevel::Premium => 2,
            EntitlementLevel::Vip => 3,
        }
    }

    /// Records an unrevoked grant under `session_id`, stamped with the current
    /// block height, replacing any grant already there. Owner only.
    pub fn create_session(
        &mut self,
        ctx: &CallContext,
        session_id: [u8; 32],
        eph_pub_key: Vec<u8>,
        scope_id: [u8; 32],
        expires_at_block: u64,
    ) -> (r: Result<SessionCreated, Error>)
        requires
            old(self).wf(),
        ensures
            final(self).wf(),
            ctx.caller == old(self)@.owner ==> r == Ok::<SessionCreated, Error>(
                (SessionCreated { session_id, expires_at_block }),
            ) && final(self)@ == old(self)@.session_created(
                session_id@,
                eph_pub_key@,
                scope_id,
                expires_at_block,
                ctx.block_number,
            ),
            ctx.caller != old(self)@.owner ==> r == Err::<SessionCreated, Error>(Error::NotOwner)
                && final(self)@ == old(self)@,
    {
        if ctx.caller != self.owner {
            return Err(Error::NotOwner);
        }
        let grant = SessionGrant {
            eph_pub_key,
            scope_id,
            expires_at_block,
            is_revoked: false,
            created_at_block: ctx.block_number,
        };
        self.sessions.insert(session_id, grant);
        Ok(SessionCreated { session_id, expires_at_block })
    }

    /// The grant recorded under `session_id`, revoked or not.
    pub fn get_session(&self, session_id: [u8; 32]) -> (r: Option<SessionGrant>)
        requires
            self.wf(),
        ensures
            match r {
                Some(grant) => self@.session(session_id@) == Some(grant@),
                None => self@.session(session_id@) is None,
            },
    {
        match self.sessions.get(&session_id) {
            Some(grant) => Some(grant.copy_with_revoked(grant.is_revoked)),
            None => None,
        }
    }

    /// Marks the grant under `session_id` revoked, keeping the record. Owner
    /// only; revoking a revoked grant succeeds again.
    pub fn revoke_session(&mut self, ctx: &CallContext, session_id: [u8; 32]) -> (r: Result<
        SessionRevoked,
        Error,
    >)
        requires
            old(self).wf(),
        ensures
            final(self).wf(),
            ctx.caller != old(self)@.owner ==> r == Err::<SessionRevoked, Error>(Error::NotOwner)
                && final(self)@ == old(self)@,
            ctx.caller == old(self)@.owner && !old(self)@.sessions.contains_key(session_id@) ==> r
                == Err::<SessionRevoked, Error>(Error::SessionNotFound) && final(self)@ == old(
                self,
            )@,
            ctx.caller == old(self)@.owner && old(self)@.sessions.contains_key(session_id@) ==> r
                == Ok::<SessionRevoked, Error>((SessionRevoked { session_id }))
                && final(self)@ == old(self)@.session_revoked(session_id@),
    {
        if ctx.caller != self.owner {
            return Err(Error::NotOwner);
        }
        let revoked = match self.sessions.get(&session_id) {
            Some(grant) => grant.copy_with_revoked(true),
            None => {
                return Err(Error::SessionNotFound);
            },
        };
        self.sessions.insert(session_id, revoked);
        Ok(SessionRevoked { session_id })
    }
}

/// A principal that was never granted a tier reads as `NoAccess`: it holds at
/// least `NoAccess` and does not hold `Basic`.
pub proof fn lemma_ungranted_reads_no_access(m: RegistryModel, account: Address)
    requires
        !m.entitlements.contains_key(account),
    ensures
        m.level_of(account) == EntitlementLevel::NoAccess,
        m.has_at_least(account, EntitlementLevel::NoAccess),
        !m.has_at_least(account, EntitlementLevel::Basic),
{
}

/// Once `Vip` is granted to a principal, it reads as `Vip` and holds at least
/// every tier.
pub proof fn lemma_vip_holds_every_tier(m: RegistryModel, account: Address)
    ensures
        m.granted(account, EntitlementLevel::Vip).level_of(account) == EntitlementLevel::Vip,
        forall|required: EntitlementLevel|
            #[trigger] m.granted(account, EntitlementLevel::Vip).has_at_least(account, required),
{
}

/// Revoking the tier just granted to a principal makes it read as
/// `NoAccess` again.
pub proof fn lemma_revoke_after_grant(m: RegistryModel, account: Address, level: EntitlementLevel)
    ensures
        m.granted(account, level).revoked(account).level_of(account) == EntitlementLevel::NoAccess,
{
}

/// A session just created reads back with the fields it was given,
/// unrevoked.
pub proof fn lemma_created_session_reads_back(
    m: RegistryModel,
    session_id: Seq<u8>,
    eph_pub_key: Seq<u8>,
    scope_id: [u8; 32],
    expires_at_block: u64,
    created_at_block: u64,
)
    ensures
        m.session_created(
            session_id,
            eph_pub_key,
            scope_id,
            expires_at_block,
            created_at_block,
        ).session(session_id) == Some(
            SessionGrantView {
                eph_pub_key,
                scope_id,
                expires_at_block,
                is_revoked: false,
                created_at_block,
            },
        ),
{
}

/// Revoking a recorded session keeps the record, with every field but the
/// flag unchanged and the flag set; revoking it again changes nothing.
pub proof fn lemma_session_revocation(m: RegistryModel, session_id: Seq<u8>)
    requires
        m.sessions.contains_key(session_id),
    ensures
        m.session_revoked(session_id).sessions.contains_key(session_id),
        m.session_revoked(session_id).session(session_id) == Some(
            SessionGrantView { is_revoked: true, ..m.sessions[session_id] },
        ),
        m.session_revoked(session_id).session_revoked(session_id) == m.session_revoked(session_id),
{
    let once = m.session_revoked(session_id);
    assert(once.session_revoked(session_id).sessions =~= once.sessions);
}

} // verus!
