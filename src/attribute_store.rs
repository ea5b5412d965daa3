//! The attribute store: namespaced key/value claims per principal, writable
//! by the principal, the owner, or a writer the principal delegated to; and
//! per-principal commitments (Merkle roots) published by the owner or by
//! anchors that the owner registered.

use vstd::prelude::*;
use crate::env::{Address, CallContext};
use crate::table::Table;

verus! {

/// The longest namespace, key or value accepted, in characters.
pub const MAX_STRING_LENGTH: usize = 256;

/// Emitted when an attribute is set.
#[derive(Clone, Debug, PartialEq)]
pub struct AttributeSet {
    pub account: Address,
    pub namespace: String,
    pub key: String,
    pub value: String,
}

/// Emitted when an attribute is removed (also when there was none).
#[derive(Clone, Debug, PartialEq)]
pub struct AttributeRemoved {
    pub account: Address,
    pub namespace: String,
    pub key: String,
}

/// Emitted when `account` delegates writing its attributes to `writer`.
#[derive(Clone, Copy, Debug, PartialEq)]
pub struct WriterAuthorized {
    pub account: Address,
    pub writer: Address,
}

/// Emitted when `account` withdraws the delegation to `writer`.
#[derive(Clone, Copy, Debug, PartialEq)]
pub struct WriterRevoked {
    pub account: Address,
    pub writer: Address,
}

/// Emitted when the commitment of `account` is published.
#[derive(Clone, Copy, Debug, PartialEq)]
pub struct RootUpdated {
    pub account: Address,
    pub root: [u8; 32],
}

/// Emitted when the owner registers an anchor.
#[derive(Clone, Copy, Debug, PartialEq)]
pub struct AnchorAdded {
    pub anchor: Address,
}

/// Emitted when the owner deregisters an anchor.
#[derive(Clone, Copy, Debug, PartialEq)]
pub struct AnchorRemoved {
    pub anchor: Address,
}

/// Why a store operation was refused.
#[derive(Clone, Copy, Debug, PartialEq, Eq, Structural)]
pub enum Error {
    /// The caller may not write the subject's attributes.
    NotAuthorized,
    /// No attribute is recorded; lookups return nothing instead, so no
    /// operation reports this.
    AttributeNotFound,
    /// A namespace, key or value is longer than `MAX_STRING_LENGTH`
    /// characters.
    InputTooLong,
    /// The caller is not the owner.
    NotOwner,
    /// The caller is neither the owner nor a registered anchor.
    NotAuthorizedAnchor,
}

/// The store's state as a value.
pub struct StoreModel {
    pub owner: Address,
    /// (subject, namespace, key) to value.
    pub attributes: Map<(Address, Seq<char>, Seq<char>), Seq<char>>,
    /// (subject, writer) to whether the subject delegated to the writer.
    pub writers: Map<(Address, Address), bool>,
    /// Subject to its published commitment.
    pub roots: Map<Address, Seq<u8>>,
    /// Anchor to whether it is registered.
    pub anchors: Map<Address, bool>,
}

/// Whether none of the three strings is longer than `MAX_STRING_LENGTH`
/// characters.
pub open spec fn within_bounds(namespace: Seq<char>, key: Seq<char>, value: Seq<char>) -> bool {
    &&& namespace.len() <= MAX_STRING_LENGTH
    &&& key.len() <= MAX_STRING_LENGTH
    &&& value.len() <= MAX_STRING_LENGTH
}

impl StoreModel {
    /// Whether `account` has delegated writing to `writer`.
    pub open spec fn delegated(self, account: Address, writer: Address) -> bool {
        self.writers.contains_key((account, writer)) && self.writers[(account, writer)]
    }

    /// Who may write the attributes of `account`: the owner, the subject
    /// itself, or a writer that the subject delegated to.
    pub open spec fn can_write(self, caller: Address, account: Address) -> bool {
        caller == self.owner || caller == account || self.delegated(account, caller)
    }

    /// Who may publish commitments: the owner and the registered anchors.
    pub open spec fn is_anchor(self, anchor: Address) -> bool {
        anchor == self.owner || (self.anchors.contains_key(anchor) && self.anchors[anchor])
    }

    pub open spec fn attribute(self, account: Address, namespace: Seq<char>, key: Seq<char>) -> Option<
        Seq<char>,
    > {
        if self.attributes.contains_key((account, namespace, key)) {
            Some(self.attributes[(account, namespace, key)])
        } else {
            None
        }
    }

    pub open spec fn root(self, account: Address) -> Option<Seq<u8>> {
        if self.roots.contains_key(account) {
            Some(self.roots[account])
        } else {
            None
        }
    }

    pub open spec fn attribute_set(
        self,
        account: Address,
        namespace: Seq<char>,
        key: Seq<char>,
        value: Seq<char>,
    ) -> StoreModel {
        StoreModel { attributes: self.attributes.insert((account, namespace, key), value), ..self }
    }

    pub open spec fn attribute_removed(self, account: Address, namespace: Seq<char>, key: Seq<char>) -> StoreModel {
        StoreModel { attributes: self.attributes.remove((account, namespace, key)), ..self }
    }

    pub open spec fn writer_authorized(self, account: Address, writer: Address) -> StoreModel {
        StoreModel { writers: self.writers.insert((account, writer), true), ..self }
    }

    pub open spec fn writer_revoked(self, account: Address, writer: Address) -> StoreModel {
        StoreModel { writers: self.writers.remove((account, writer)), ..self }
    }

    pub open spec fn root_set(self, account: Address, root: Seq<u8>) -> StoreModel {
        StoreModel { roots: self.roots.insert(account, root), ..self }
    }

    pub open spec fn anchor_added(self, anchor: Address) -> StoreModel {
        StoreModel { anchors: self.anchors.insert(anchor, true), ..self }
    }

    pub open spec fn anchor_removed(self, anchor: Address) -> StoreModel {
        StoreModel { anchors: self.anchors.remove(anchor), ..self }
    }
}

/// The attribute store.
pub struct AttributeStore {
    attributes: Table<(Address, String, String), String>,
    authorized_writers: Table<(Address, Address), bool>,
    owner: Address,
    roots: Table<Address, [u8; 32]>,
    authorized_anchors: Table<Address, bool>,
}

impl View for AttributeStore {
    type V = StoreModel;

    closed spec fn view(&self) -> StoreModel {
        StoreModel {
            owner: self.owner,
            attributes: self.attributes@,
            writers: self.authorized_writers@,
            roots: self.roots@,
            anchors: self.authorized_anchors@,
        }
    }
}

impl AttributeStore {
    pub closed spec fn wf(&self) -> bool {
        &&& self.attributes.wf()
        &&& self.authorized_writers.wf()
        &&& self.roots.wf()
        &&& self.authorized_anchors.wf()
    }

    /// A store owned by the deploying caller, with no records.
    pub fn new(ctx: &CallContext) -> (r: AttributeStore)
        ensures
            r.wf(),
            r@.owner == ctx.caller,
            r@.attributes == Map::<(Address, Seq<char>, Seq<char>), Seq<char>>::empty(),
            r@.writers == Map::<(Address, Address), bool>::empty(),
            r@.roots == Map::<Address, Seq<u8>>::empty(),
            r@.anchors == Map::<Address, bool>::empty(),
    {
        AttributeStore {
            attributes: Table::new(),
            authorized_writers: Table::new(),
            owner: ctx.caller,
            roots: Table::new(),
            authorized_anchors: Table::new(),
        }
    }

    /// Sets attribute `key` in `namespace` of `account` to `value`. The
    /// lengths are checked first, then the caller's standing.
    pub fn set_attribute(
        &mut self,
        ctx: &CallContext,
        account: Address,
        namespace: String,
        key: String,
        value: String,
    ) -> (r: Result<AttributeSet, Error>)
        requires
            old(self).wf(),
        ensures
            final(self).wf(),
            !within_bounds(namespace@, key@, value@) ==> r == Err::<AttributeSet, Error>(
                Error::InputTooLong,
            ) && final(self)@ == old(self)@,
            within_bounds(namespace@, key@, value@) && !old(self)@.can_write(ctx.caller, account)
                ==> r == Err::<AttributeSet, Error>(Error::NotAuthorized) && final(self)@ == old(
                self,
            )@,
            within_bounds(namespace@, key@, value@) && old(self)@.can_write(ctx.caller, account)
                ==> r == Ok::<AttributeSet, Error>(
                (AttributeSet { account, namespace, key, value }),
            ) && final(self)@ == old(self)@.attribute_set(account, namespace@, key@, value@),
    {
        if namespace.as_str().unicode_len() > MAX_STRING_LENGTH || key.as_str().unicode_len()
            > MAX_STRING_LENGTH || value.as_str().unicode_len() > MAX_STRING_LENGTH {
            return Err(Error::InputTooLong);
        }
        if !self.can_write(ctx.caller, account) {
            return Err(Error::NotAuthorized);
        }
        self.attributes.insert((account, namespace.clone(), key.clone()), value.clone());
        Ok(AttributeSet { account, namespace, key, value })
    }

    /// Removes attribute `key` in `namespace` of `account`; removing one that
    /// is not there succeeds and changes nothing.
    pub fn remove_attribute(
        &mut self,
        ctx: &CallContext,
        account: Address,
        namespace: String,
        key: String,
    ) -> (r: Result<AttributeRemoved, Error>)
        requires
            old(self).wf(),
        ensures
            final(self).wf(),
            !old(self)@.can_write(ctx.caller, account) ==> r == Err::<AttributeRemoved, Error>(
                Error::NotAuthorized,
            ) && final(self)@ == old(self)@,
            old(self)@.can_write(ctx.caller, account) ==> r == Ok::<AttributeRemoved, Error>(
                (AttributeRemoved { account, namespace, key }),
            ) && final(self)@ == old(self)@.attribute_removed(account, namespace@, key@),
    {
        if !self.can_write(ctx.caller, account) {
            return Err(Error::NotAuthorized);
        }
        self.attributes.remove(&(account, namespace.clone(), key.clone()));
        Ok(AttributeRemoved { account, namespace, key })
    }

    pub fn get_attribute(&self, account: Address, namespace: String, key: String) -> (r: Option<
        String,
    >)
        requires
            self.wf(),
        ensures
            match r {
                Some(value) => self@.attribute(account, namespace@, key@) == Some(value@),
                None => self@.attribute(account, namespace@, key@) is None,
            },
    {
        match self.attributes.get(&(account, namespace, key)) {
            Some(value) => Some(value.clone()),
            None => None,
        }
    }

    /// The caller delegates writing its own attributes to `writer`.
    pub fn authorize_writer(&mut self, ctx: &CallContext, writer: Address) -> (r: WriterAuthorized)
        requires
            old(self).wf(),
        ensures
            final(self).wf(),
            r == (WriterAuthorized { account: ctx.caller, writer }),
            final(self)@ == old(self)@.writer_authorized(ctx.caller, writer),
    {
        let caller = ctx.caller;
        self.authorized_writers.insert((caller, writer), true);
        WriterAuthorized { account: caller, writer }
    }

    /// The caller withdraws its delegation to `writer`, if any.
    pub fn revoke_writer(&mut self, ctx: &CallContext, writer: Address) -> (r: WriterRevoked)
        requires
            old(self).wf(),
        ensures
            final(self).wf(),
            r == (WriterRevoked { account: ctx.caller, writer }),
            final(self)@ == old(self)@.writer_revoked(ctx.caller, writer),
    {
        let caller = ctx.caller;
        self.authorized_writers.remove(&(caller, writer));
        WriterRevoked { account: caller, writer }
    }

    /// Whether `caller` may write the attributes of `account`.
    pub fn can_write(&self, caller: Address, account: Address) -> (r: bool)
        requires
            self.wf(),
        ensures
            r == self@.can_write(caller, account),
    {
        if caller == self.owner {
            return true;
        }
        if caller == account {
            return true;
        }
        match self.authorized_writers.get(&(account, caller)) {
            Some(allowed) => *allowed,
            None => false,
        }
    }

    pub fn owner(&self) -> (r: Address)
        ensures
            r == self@.owner,
    {
        self.owner
    }

    /// Publishes `root` as the commitment of `account`, replacing any earlier
    /// one. Owner or registered anchor only.
    pub fn set_root(&mut self, ctx: &CallContext, account: Address, root: [u8; 32]) -> (r: Result<
        RootUpdated,
        Error,
    >)
        requires
            old(self).wf(),
        ensures
            final(self).wf(),
            !old(self)@.is_anchor(ctx.caller) ==> r == Err::<RootUpdated, Error>(
                Error::NotAuthorizedAnchor,
            ) && final(self)@ == old(self)@,
            old(self)@.is_anchor(ctx.caller) ==> r == Ok::<RootUpdated, Error>(
                (RootUpdated { account, root }),
            ) && final(self)@ == old(self)@.root_set(account, root@),
    {
        if !self.is_authorized_anchor(ctx.caller) {
            return Err(Error::NotAuthorizedAnchor);
        }
        self.roots.insert(account, root);
        Ok(RootUpdated { account, root })
    }

    /// The commitment published for `account`, if any.
    pub fn get_root(&self, account: Address) -> (r: Option<[u8; 32]>)
        requires
            self.wf(),
        ensures
            match r {
                Some(root) => self@.root(account) == Some(root@),
                None => self@.root(account) is None,
            },
    {
        match self.roots.get(&account) {
            Some(root) => Some(*root),
            None => None,
        }
    }

    /// Registers `anchor`. Owner only.
    pub fn add_anchor(&mut self, ctx: &CallContext, anchor: Address) -> (r: Result<
        AnchorAdded,
        Error,
    >)
        requires
            old(self).wf(),
        ensures
            final(self).wf(),
            ctx.caller != old(self)@.owner ==> r == Err::<AnchorAdded, Error>(Error::NotOwner)
                && final(self)@ == old(self)@,
            ctx.caller == old(self)@.owner ==> r == Ok::<AnchorAdded, Error>(
                (AnchorAdded { anchor }),
            ) && final(self)@ == old(self)@.anchor_added(anchor),
    {
        if ctx.caller != self.owner {
            return Err(Error::NotOwner);
        }
        self.authorized_anchors.insert(anchor, true);
        Ok(AnchorAdded { anchor })
    }

    /// Deregisters `anchor`. Owner only.
    pub fn remove_anchor(&mut self, ctx: &CallContext, anchor: Address) -> (r: Result<
        AnchorRemoved,
        Error,
    >)
        requires
            old(self).wf(),
        ensures
            final(self).wf(),
            ctx.caller != old(self)@.owner ==> r == Err::<AnchorRemoved, Error>(Error::NotOwner)
                && final(self)@ == old(self)@,
            ctx.caller == old(self)@.owner ==> r == Ok::<AnchorRemoved, Error>(
                (AnchorRemoved { anchor }),
            ) && final(self)@ == old(self)@.anchor_removed(anchor),
    {
        if ctx.caller != self.owner {
            return Err(Error::NotOwner);
        }
        self.authorized_anchors.remove(&anchor);
        Ok(AnchorRemoved { anchor })
    }

    /// Whether `anchor` may publish commitments; always true of the owner.
    pub fn is_authorized_anchor(&self, anchor: Address) -> (r: bool)
        requires
            self.wf(),
        ensures
            r == self@.is_anchor(anchor),
    {
        if anchor == self.owner {
            return true;
        }
        match self.authorized_anchors.get(&anchor) {
            Some(registered) => *registered,
            None => false,
        }
    }
}

/// A writer that a subject delegated to may write the subject's attributes;
/// once the subject withdraws the delegation, a writer that is neither the
/// owner nor the subject no longer may.
pub proof fn lemma_writer_delegation(m: StoreModel, subject: Address, writer: Address)
    ensures
        m.writer_authorized(subject, writer).can_write(writer, subject),
        writer != m.owner && writer != subject ==> !m.writer_authorized(
            subject,
            writer,
        ).writer_revoked(subject, writer).can_write(writer, subject),
{
}

/// Removing an attribute that is not there leaves the store as it was, and
/// the attribute still reads as absent.
pub proof fn lemma_remove_absent_attribute(
    m: StoreModel,
    account: Address,
    namespace: Seq<char>,
    key: Seq<char>,
)
    requires
        !m.attributes.contains_key((account, namespace, key)),
    ensures
        m.attribute_removed(account, namespace, key) == m,
        m.attribute_removed(account, namespace, key).attribute(account, namespace, key) is None,
{
    assert(m.attribute_removed(account, namespace, key).attributes =~= m.attributes);
}

/// A registered anchor may publish commitments; once deregistered, an anchor
/// that is not the owner no longer may. The owner always may.
pub proof fn lemma_anchor_standing(m: StoreModel, anchor: Address)
    ensures
        m.is_anchor(m.owner),
        m.anchor_added(anchor).is_anchor(anchor),
        anchor != m.owner ==> !m.anchor_added(anchor).anchor_removed(anchor).is_anchor(anchor),
{
}

} // verus!
