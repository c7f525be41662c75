//! Who may write to a store.
//!
//! A store has an owner, fixed when the store is made, and at most one
//! allowed caller. While an allowed caller is set, only that identity may
//! record anything; only the owner may set or clear it. An empty identity
//! names nobody: setting it clears the restriction.

use vstd::prelude::*;
use crate::error::LedgerError;

verus! {

/// What an access policy says.
pub struct AccessView {
    pub owner_id: Seq<char>,
    /// The only identity that may write, if there is one; never empty.
    pub allowed_caller: Option<Seq<char>>,
}

/// The allowed caller that a request sets: none where it names nobody.
pub open spec fn named(account_id: Option<Seq<char>>) -> Option<Seq<char>> {
    match account_id {
        Some(id) => if id.len() == 0 { None } else { Some(id) },
        None => None,
    }
}

impl AccessView {
    /// `caller` may write: no allowed caller is set, or it is `caller`.
    pub open spec fn permits(self, caller: Seq<char>) -> bool {
        self.allowed_caller matches Some(allowed) ==> allowed == caller
    }

    /// `caller` is the owner.
    pub open spec fn is_owner(self, caller: Seq<char>) -> bool {
        caller == self.owner_id
    }

    /// The policy after `caller` has asked to set the allowed caller: changed
    /// exactly when `caller` is the owner.
    pub open spec fn after_set_allowed_caller(
        self,
        caller: Seq<char>,
        account_id: Option<Seq<char>>,
    ) -> AccessView {
        if self.is_owner(caller) {
            AccessView { owner_id: self.owner_id, allowed_caller: named(account_id) }
        } else {
            self
        }
    }
}

/// The owner of a store and the identity, if any, to which writes are
/// restricted.
pub struct AccessPolicy {
    owner_id: String,
    allowed_caller: Option<String>,
}

impl View for AccessPolicy {
    type V = AccessView;

    closed spec fn view(&self) -> AccessView {
        AccessView {
            owner_id: self.owner_id@,
            allowed_caller: self.allowed_caller.deep_view(),
        }
    }
}

impl AccessPolicy {
    /// The policy of a store that `owner_id` has just made.
    pub fn new(owner_id: String, allowed_caller: Option<String>) -> (policy: Self)
        ensures
            policy@.owner_id == owner_id@,
            policy@.allowed_caller == named(allowed_caller.deep_view()),
    {
        AccessPolicy { owner_id, allowed_caller: Self::name(allowed_caller) }
    }

    fn name(account_id: Option<String>) -> (kept: Option<String>)
        ensures
            kept.deep_view() == named(account_id.deep_view()),
    {
        match account_id {
            Some(id) => if id.as_str().is_empty() {
                None
            } else {
                Some(id)
            },
            None => None,
        }
    }

    /// Whether `caller` may write.
    pub fn permits(&self, caller: &str) -> (yes: bool)
        ensures
            yes == self@.permits(caller@),
    {
        match &self.allowed_caller {
            Some(allowed) => *allowed == caller.to_owned(),
            None => true,
        }
    }

    /// Whether `caller` is the owner.
    pub fn is_owner(&self, caller: &str) -> (yes: bool)
        ensures
            yes == self@.is_owner(caller@),
    {
        self.owner_id == caller.to_owned()
    }

    /// Sets or clears the allowed caller on behalf of `caller`, who must be
    /// the owner.
    pub fn set_allowed_caller(&mut self, caller: &str, account_id: Option<String>) -> (result:
        Result<(), LedgerError>)
        ensures
            result == if old(self)@.is_owner(caller@) {
                Ok::<(), LedgerError>(())
            } else {
                Err(LedgerError::Unauthorized)
            },
            final(self)@ == old(self)@.after_set_allowed_caller(caller@, account_id.deep_view()),
    {
        if !self.is_owner(caller) {
            return Err(LedgerError::Unauthorized);
        }
        self.allowed_caller = Self::name(account_id);
        Ok(())
    }

    /// The owner's identity.
    pub fn owner_id(&self) -> (id: &String)
        ensures
            id@ == self@.owner_id,
    {
        &self.owner_id
    }

    /// The allowed caller, if one is set.
    pub fn allowed_caller(&self) -> (id: Option<&String>)
        ensures
            id.deep_view() == self@.allowed_caller,
    {
        match &self.allowed_caller {
            Some(id) => Some(id),
            None => None,
        }
    }
}

} // verus!
