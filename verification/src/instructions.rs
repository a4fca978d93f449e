//! The two operations on an identity: create it once, update it any number of
//! times. Each either completes or leaves everything as it was.

use crate::address::find_identity_address;
use crate::address::bumped_address;
use crate::address::identity_address;
use crate::address::derive_identity_address;
use crate::address::same_key;
use crate::clock::unix_timestamp;
use crate::record::logo_uri_ok;
use crate::record::name_ok;
use crate::record::validate_profile;
use crate::record::BusinessIdentity;
use crate::record::IdentityError;
use crate::record::IdentityView;
use crate::record::IDENTITY_TYPE_BUSINESS;
use vstd::prelude::*;

verus! {

/// Why an operation did not take effect.
#[derive(Debug, Clone, Copy, PartialEq, Eq)]
pub enum Rejection {
    /// A rule of the identity itself was broken.
    Identity(IdentityError),
    /// The account is not at the address derived for the authority.
    AddressMismatch,
    /// Creation was asked at an address that already holds a record.
    AccountInUse,
    /// An update was asked at an address that holds no record.
    AccountNotInitialized,
    /// The host has no clock to read.
    ClockUnavailable,
}

/// The storage at one address: empty, or holding a record.
#[derive(Debug, Clone, PartialEq, Eq)]
pub struct IdentityAccount {
    /// Where the storage is.
    pub address: [u8; 32],
    /// What it holds.
    pub data: Option<BusinessIdentity>,
}

/// An account as a mathematical value.
pub struct AccountView {
    pub address: Seq<u8>,
    pub record: Option<IdentityView>,
}

impl View for IdentityAccount {
    type V = AccountView;

    open spec fn view(&self) -> AccountView {
        AccountView {
            address: self.address@,
            record: match self.data {
                Some(record) => Some(record@),
                None => None,
            },
        }
    }
}

/// What an operation is given, as a mathematical value.
pub struct ContextView {
    pub program_id: Seq<u8>,
    pub identity: AccountView,
    pub authority: Seq<u8>,
}

impl ContextView {
    /// The same context with `record` stored in the identity account.
    pub open spec fn holding(self, record: IdentityView) -> ContextView {
        ContextView {
            identity: AccountView { record: Some(record), ..self.identity },
            ..self
        }
    }
}

/// What creation is given.
#[derive(Debug, Clone, PartialEq, Eq)]
pub struct CreateIdentity {
    /// The program under which the identity's address is derived.
    pub program_id: [u8; 32],
    /// The account that is to hold the new identity.
    pub identity: IdentityAccount,
    /// The principal that authorized the call and will own the identity.
    pub authority: [u8; 32],
}

impl View for CreateIdentity {
    type V = ContextView;

    open spec fn view(&self) -> ContextView {
        ContextView {
            program_id: self.program_id@,
            identity: self.identity@,
            authority: self.authority@,
        }
    }
}

/// What an update is given.
#[derive(Debug, Clone, PartialEq, Eq)]
pub struct UpdateIdentity {
    /// The program under which the identity's address is derived.
    pub program_id: [u8; 32],
    /// The account that holds the identity.
    pub identity: IdentityAccount,
    /// The principal that authorized the call.
    pub authority: [u8; 32],
}

impl View for UpdateIdentity {
    type V = ContextView;

    open spec fn view(&self) -> ContextView {
        ContextView {
            program_id: self.program_id@,
            identity: self.identity@,
            authority: self.authority@,
        }
    }
}

/// What creation decides, given the address derived for the authority and
/// the reading of the clock: the record to store, or the first rule broken.
/// The texts are judged first, then the place, then the clock.
pub open spec fn create_verdict(
    ctx: ContextView,
    name: Seq<char>,
    logo_uri: Seq<char>,
    derived: Option<(Seq<u8>, u8)>,
    clock: Option<i64>,
) -> Result<IdentityView, Rejection> {
    if !name_ok(name) {
        Err(Rejection::Identity(IdentityError::InvalidNameLength))
    } else if !logo_uri_ok(logo_uri) {
        Err(Rejection::Identity(IdentityError::InvalidLogoUriLength))
    } else {
        match derived {
            None => Err(Rejection::AddressMismatch),
            Some((address, bump)) => if address != ctx.identity.address {
                Err(Rejection::AddressMismatch)
            } else if ctx.identity.record is Some {
                Err(Rejection::AccountInUse)
            } else {
                match clock {
                    None => Err(Rejection::ClockUnavailable),
                    Some(now) => Ok(
                        IdentityView::created(ctx.authority, name, logo_uri, now as int, bump),
                    ),
                }
            },
        }
    }
}

/// What an update decides, given the address that the stored bump derives for
/// the caller and the reading of the clock: the record to store, or the first
/// rule broken. The caller is judged first, then the place, then the texts,
/// then the clock.
pub open spec fn update_verdict(
    ctx: ContextView,
    name: Seq<char>,
    logo_uri: Seq<char>,
    derived: Option<Seq<u8>>,
    clock: Option<i64>,
) -> Result<IdentityView, Rejection> {
    if ctx.identity.record is None {
        Err(Rejection::AccountNotInitialized)
    } else if ctx.identity.record->0.authority != ctx.authority {
        Err(Rejection::Identity(IdentityError::Unauthorized))
    } else if derived != Some(ctx.identity.address) {
        Err(Rejection::AddressMismatch)
    } else if !name_ok(name) {
        Err(Rejection::Identity(IdentityError::InvalidNameLength))
    } else if !logo_uri_ok(logo_uri) {
        Err(Rejection::Identity(IdentityError::InvalidLogoUriLength))
    } else if clock is None {
        Err(Rejection::ClockUnavailable)
    } else {
        Ok(ctx.identity.record->0.updated(name, logo_uri, clock->0 as int))
    }
}

/// How an operation ends, given what it decided: the record is stored and
/// `Ok` returned, or the error is returned and nothing has changed.
pub open spec fn carried_out(
    before: ContextView,
    verdict: Result<IdentityView, Rejection>,
    after: ContextView,
    outcome: Result<(), Rejection>,
) -> bool {
    match verdict {
        Ok(record) => outcome is Ok && after == before.holding(record),
        Err(rejection) => outcome == Err::<(), Rejection>(rejection) && after == before,
    }
}

/// Creates the identity of `ctx.authority` in `ctx.identity`, given the
/// address `derived` for that authority and the reading `clock` of the time.
pub fn create_identity_with(
    ctx: &mut CreateIdentity,
    name: String,
    logo_uri: String,
    derived: Option<([u8; 32], u8)>,
    clock: Option<i64>,
) -> (outcome: Result<(), Rejection>)
    ensures
        carried_out(
            old(ctx)@,
            create_verdict(
                old(ctx)@,
                name@,
                logo_uri@,
                match derived {
                    Some((address, bump)) => Some((address@, bump)),
                    None => None,
                },
                clock,
            ),
            final(ctx)@,
            outcome,
        ),
        outcome is Err ==> *final(ctx) == *old(ctx),
{
    if let Err(error) = validate_profile(name.as_str(), logo_uri.as_str()) {
        return Err(Rejection::Identity(error));
    }
    let bump: u8 = match derived {
        Some((address, bump)) => {
            if !same_key(&address, &ctx.identity.address) {
                return Err(Rejection::AddressMismatch);
            }
            bump
        },
        None => {
            return Err(Rejection::AddressMismatch);
        },
    };
    if ctx.identity.data.is_some() {
        return Err(Rejection::AccountInUse);
    }
    let now: i64 = match clock {
        Some(seconds) => seconds,
        None => {
            return Err(Rejection::ClockUnavailable);
        },
    };
    ctx.identity.data = Some(
        BusinessIdentity {
            authority: ctx.authority,
            identity_type: IDENTITY_TYPE_BUSINESS,
            name,
            logo_uri,
            created_at: now,
            updated_at: now,
            bump,
        },
    );
    Ok(())
}

/// The address that the bump of the stored record derives for the caller, if
/// there is a record and its bump derives one.
pub open spec fn rederived_address(ctx: ContextView) -> Option<Seq<u8>> {
    match ctx.identity.record {
        Some(record) => bumped_address(ctx.authority, record.bump, ctx.program_id),
        None => None,
    }
}

/// Updates the identity in `ctx.identity` on behalf of `ctx.authority`, given
/// the address `derived` by the stored bump for that authority and the
/// reading `clock` of the time.
pub fn update_identity_with(
    ctx: &mut UpdateIdentity,
    name: String,
    logo_uri: String,
    derived: Option<[u8; 32]>,
    clock: Option<i64>,
) -> (outcome: Result<(), Rejection>)
    ensures
        carried_out(
            old(ctx)@,
            update_verdict(
                old(ctx)@,
                name@,
                logo_uri@,
                match derived {
                    Some(address) => Some(address@),
                    None => None,
                },
                clock,
            ),
            final(ctx)@,
            outcome,
        ),
        outcome is Err ==> *final(ctx) == *old(ctx),
{
    let (owner, identity_type, created_at, bump): ([u8; 32], u8, i64, u8) = match &ctx.identity.data {
        Some(record) => (record.authority, record.identity_type, record.created_at, record.bump),
        None => {
            return Err(Rejection::AccountNotInitialized);
        },
    };
    if !same_key(&owner, &ctx.authority) {
        return Err(Rejection::Identity(IdentityError::Unauthorized));
    }
    match derived {
        Some(address) => {
            if !same_key(&address, &ctx.identity.address) {
                return Err(Rejection::AddressMismatch);
            }
        },
        None => {
            return Err(Rejection::AddressMismatch);
        },
    }
    if let Err(error) = validate_profile(name.as_str(), logo_uri.as_str()) {
        return Err(Rejection::Identity(error));
    }
    let now: i64 = match clock {
        Some(seconds) => seconds,
        None => {
            return Err(Rejection::ClockUnavailable);
        },
    };
    ctx.identity.data = Some(
        BusinessIdentity {
            authority: owner,
            identity_type,
            name,
            logo_uri,
            created_at,
            updated_at: now,
            bump,
        },
    );
    Ok(())
}

/// Creates the identity of `ctx.authority` in `ctx.identity`: derives the
/// address for that authority, reads the clock, and decides as
/// `create_verdict` says. Whatever the clock reads, the call either stores
/// the record that the verdict names or changes nothing.
pub fn create_identity(ctx: &mut CreateIdentity, name: String, logo_uri: String) -> (outcome:
    Result<(), Rejection>)
    ensures
        exists|clock: Option<i64>|
            carried_out(
                old(ctx)@,
                #[trigger] create_verdict(
                    old(ctx)@,
                    name@,
                    logo_uri@,
                    identity_address(old(ctx)@.authority, old(ctx)@.program_id),
                    clock,
                ),
                final(ctx)@,
                outcome,
            ),
        outcome is Err ==> *final(ctx) == *old(ctx),
{
    let derived = find_identity_address(&ctx.authority, &ctx.program_id);
    let clock = unix_timestamp();
    let outcome = create_identity_with(ctx, name, logo_uri, derived, clock);
    proof {
        let found = match derived {
            Some((address, bump)) => Some((address@, bump)),
            None => None,
        };
        assert(found == identity_address(old(ctx)@.authority, old(ctx)@.program_id));
    }
    outcome
}

/// Updates the identity in `ctx.identity` on behalf of `ctx.authority`:
/// derives the address again from the stored bump, reads the clock, and
/// decides as `update_verdict` says. Whatever the clock reads, the call either
/// stores the record that the verdict names or changes nothing.
pub fn update_identity(ctx: &mut UpdateIdentity, name: String, logo_uri: String) -> (outcome:
    Result<(), Rejection>)
    ensures
        exists|clock: Option<i64>|
            carried_out(
                old(ctx)@,
                #[trigger] update_verdict(
                    old(ctx)@,
                    name@,
                    logo_uri@,
                    rederived_address(old(ctx)@),
                    clock,
                ),
                final(ctx)@,
                outcome,
            ),
        outcome is Err ==> *final(ctx) == *old(ctx),
{
    let derived = match &ctx.identity.data {
        Some(record) => derive_identity_address(&ctx.authority, record.bump, &ctx.program_id),
        None => None,
    };
    let clock = unix_timestamp();
    let outcome = update_identity_with(ctx, name, logo_uri, derived, clock);
    proof {
        let rederived = match derived {
            Some(address) => Some(address@),
            None => None,
        };
        assert(rederived == rederived_address(old(ctx)@));
    }
    outcome
}

} // verus!
