//! A list of admitted assets with an administrator of its own.

use vstd::prelude::*;

use crate::address::{Address, AddressSet};
use crate::invocation::{settles, Invocation, InvocationView};

verus! {

/// Why the allowlist refuses a call.
#[derive(Clone, Copy, Debug, PartialEq, Eq, Structural)]
pub enum AllowlistError {
    /// The address has not authorized the call.
    Unauthorized(Address),
    AlreadyInitialized,
    NotInitialized,
}

impl AllowlistError {
    /// The words in which the refusal is reported.
    pub open spec fn words(self) -> Seq<char> {
        match self {
            AllowlistError::Unauthorized(_) => "Missing authorization"@,
            AllowlistError::AlreadyInitialized => "already initialized"@,
            AllowlistError::NotInitialized => "not initialized"@,
        }
    }

    pub fn message(&self) -> (r: &'static str)
        ensures
            r@ == self.words(),
    {
        match self {
            AllowlistError::Unauthorized(_) => "Missing authorization",
            AllowlistError::AlreadyInitialized => "already initialized",
            AllowlistError::NotInitialized => "not initialized",
        }
    }
}

/// The allowlist. Its fields are what it keeps between two calls.
pub struct AssetAllowlist {
    pub admin: Option<Address>,
    pub allowed: AddressSet,
}

#[verifier::ext_equal]
pub struct AllowlistView {
    pub admin: Option<Address>,
    pub allowed: Set<Address>,
}

impl View for AssetAllowlist {
    type V = AllowlistView;

    open spec fn view(&self) -> AllowlistView {
        AllowlistView { admin: self.admin, allowed: self.allowed@ }
    }
}

impl AllowlistView {
    /// The allowlist before its first call.
    pub open spec fn empty() -> Self {
        AllowlistView { admin: None, allowed: Set::empty() }
    }

    /// The reason to refuse `initialize`.
    pub open spec fn initialize_refusal(self) -> Option<AllowlistError> {
        if self.admin is Some {
            Some(AllowlistError::AlreadyInitialized)
        } else {
            None
        }
    }

    /// The reason to refuse the administrator's rights to a call.
    pub open spec fn admin_refusal(self, e: InvocationView) -> Option<AllowlistError> {
        match self.admin {
            None => Some(AllowlistError::NotInitialized),
            Some(admin) => if e.authorized_by(admin) {
                None
            } else {
                Some(AllowlistError::Unauthorized(admin))
            },
        }
    }

    pub open spec fn add_asset_effect(self, asset: Address) -> Self {
        AllowlistView { allowed: self.allowed.insert(asset), ..self }
    }

    pub open spec fn remove_asset_effect(self, asset: Address) -> Self {
        AllowlistView { allowed: self.allowed.remove(asset), ..self }
    }
}

impl AssetAllowlist {
    /// An allowlist before its first call.
    pub fn new() -> (r: Self)
        ensures
            r@ == AllowlistView::empty(),
    {
        AssetAllowlist { admin: None, allowed: AddressSet::new() }
    }

    /// Sets the administrator, once and for all.
    pub fn initialize(&mut self, e: &mut Invocation, admin: Address) -> (r: Result<
        (),
        AllowlistError,
    >)
        ensures
            settles(
                old(self)@.initialize_refusal(),
                r,
                (old(self)@, old(e)@),
                (final(self)@, final(e)@),
                (),
                (AllowlistView { admin: Some(admin), ..old(self)@ }, old(e)@),
            ),
    {
        if self.admin.is_some() {
            return Err(AllowlistError::AlreadyInitialized);
        }
        self.admin = Some(admin);
        Ok(())
    }

    fn require_admin(&self, e: &Invocation) -> (r: Result<(), AllowlistError>)
        ensures
            match self@.admin_refusal(e@) {
                Some(error) => r == Err::<(), AllowlistError>(error),
                None => r == Ok::<(), AllowlistError>(()),
            },
    {
        match self.admin {
            None => Err(AllowlistError::NotInitialized),
            Some(admin) => if e.is_authorized_by(admin) {
                Ok(())
            } else {
                Err(AllowlistError::Unauthorized(admin))
            },
        }
    }

    /// Admits `asset`. Only the administrator may.
    pub fn add_asset(&mut self, e: &mut Invocation, asset: Address) -> (r: Result<
        (),
        AllowlistError,
    >)
        ensures
            settles(
                old(self)@.admin_refusal(old(e)@),
                r,
                (old(self)@, old(e)@),
                (final(self)@, final(e)@),
                (),
                (old(self)@.add_asset_effect(asset), old(e)@),
            ),
    {
        match self.require_admin(e) {
            Ok(()) => {},
            Err(error) => return Err(error),
        }
        self.allowed.insert(asset);
        Ok(())
    }

    /// No longer admits `asset`. Only the administrator may.
    pub fn remove_asset(&mut self, e: &mut Invocation, asset: Address) -> (r: Result<
        (),
        AllowlistError,
    >)
        ensures
            settles(
                old(self)@.admin_refusal(old(e)@),
                r,
                (old(self)@, old(e)@),
                (final(self)@, final(e)@),
                (),
                (old(self)@.remove_asset_effect(asset), old(e)@),
            ),
    {
        match self.require_admin(e) {
            Ok(()) => {},
            Err(error) => return Err(error),
        }
        self.allowed.remove(asset);
        Ok(())
    }

    /// Whether `asset` is admitted.
    pub fn is_allowed(&self, asset: Address) -> (r: bool)
        ensures
            r == self@.allowed.contains(asset),
    {
        self.allowed.contains(asset)
    }
}

/// The administrator is set once: no call changes it, and who has none can do nothing
/// but set it.
pub proof fn law_the_administrator_is_for_good(s: AllowlistView, e: InvocationView, asset: Address)
    ensures
        s.admin is Some ==> s.initialize_refusal() == Some(AllowlistError::AlreadyInitialized),
        s.add_asset_effect(asset).admin == s.admin,
        s.remove_asset_effect(asset).admin == s.admin,
        s.admin_refusal(e) is None <==> s.admin is Some && e.authorized_by(s.admin->0),
{
}

/// An asset that has been added is admitted until it is removed; no other asset is
/// touched, and doing either twice is doing it once.
pub proof fn law_assets(s: AllowlistView, asset: Address, other: Address)
    requires
        other != asset,
    ensures
        s.add_asset_effect(asset).allowed.contains(asset),
        !s.remove_asset_effect(asset).allowed.contains(asset),
        s.add_asset_effect(asset).allowed.contains(other) == s.allowed.contains(other),
        s.remove_asset_effect(asset).allowed.contains(other) == s.allowed.contains(other),
        s.add_asset_effect(asset).add_asset_effect(asset) == s.add_asset_effect(asset),
        s.remove_asset_effect(asset).remove_asset_effect(asset) == s.remove_asset_effect(asset),
        !s.allowed.contains(asset) ==> s.add_asset_effect(asset).remove_asset_effect(asset) == s,
{
    assert(s.add_asset_effect(asset).add_asset_effect(asset) =~= s.add_asset_effect(asset));
    assert(s.remove_asset_effect(asset).remove_asset_effect(asset) =~= s.remove_asset_effect(
        asset,
    ));
    if !s.allowed.contains(asset) {
        assert(s.add_asset_effect(asset).remove_asset_effect(asset) =~= s);
    }
}

/// The allowlist is open to who is its administrator and has signed; what a change sets it
/// sets alone, and an empty list has neither administrator nor asset.
pub proof fn law_allowlist_calls(s: AllowlistView, e: InvocationView, asset: Address)
    ensures
        AllowlistView::empty().admin is None,
        forall|a: Address| !(#[trigger] AllowlistView::empty().allowed.contains(a)),
        s.initialize_refusal() is None <==> s.admin is None,
        s.admin_refusal(e) is None <==> s.admin is Some && e.authorized.contains(s.admin->0),
        s.admin_refusal(e) == Some(AllowlistError::NotInitialized) <==> s.admin is None,
        s.admin is Some && !e.authorized.contains(s.admin->0) ==> s.admin_refusal(e) == Some(
            AllowlistError::Unauthorized(s.admin->0),
        ),
        s.add_asset_effect(asset) == (AllowlistView {
            allowed: s.add_asset_effect(asset).allowed,
            ..s
        }),
        s.remove_asset_effect(asset) == (AllowlistView {
            allowed: s.remove_asset_effect(asset).allowed,
            ..s
        }),
{
}

} // verus!
