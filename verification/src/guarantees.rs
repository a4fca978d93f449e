//! What holds of the two operations, whatever they are given.

use crate::address::identity_address;
use crate::address::lemma_identity_address_rederives;
use crate::instructions::carried_out;
use crate::instructions::create_verdict;
use crate::instructions::rederived_address;
use crate::instructions::update_verdict;
use crate::instructions::ContextView;
use crate::instructions::Rejection;
use crate::record::logo_uri_ok;
use crate::record::name_ok;
use crate::record::IdentityError;
use crate::record::IdentityView;
use crate::record::IDENTITY_TYPE_BUSINESS;
use vstd::prelude::*;

verus! {

/// Creation with accepted texts, at the derived address, in an empty account
/// and with a clock to read stores a record that holds exactly what was
/// given: the authority, the two texts, the bump, the business tag, and the
/// time of the call as both its creation and its last update. Reading the
/// account afterwards yields that record.
pub proof fn created_record_matches_inputs(
    ctx: ContextView,
    name: Seq<char>,
    logo_uri: Seq<char>,
    bump: u8,
    now: i64,
    after: ContextView,
    outcome: Result<(), Rejection>,
)
    requires
        name_ok(name),
        logo_uri_ok(logo_uri),
        ctx.identity.record is None,
        carried_out(
            ctx,
            create_verdict(ctx, name, logo_uri, Some((ctx.identity.address, bump)), Some(now)),
            after,
            outcome,
        ),
    ensures
        outcome is Ok,
        after.identity.record matches Some(record) && {
            &&& record.authority == ctx.authority
            &&& record.identity_type == IDENTITY_TYPE_BUSINESS
            &&& record.identity_type == 1
            &&& record.name == name
            &&& record.logo_uri == logo_uri
            &&& record.created_at == now
            &&& record.updated_at == record.created_at
            &&& record.bump == bump
        },
        after.identity.address == ctx.identity.address,
        after.authority == ctx.authority,
        after.program_id == ctx.program_id,
{
}

/// A name that is empty or too long is turned down as such, whatever else
/// creation is given, and nothing is stored.
pub proof fn invalid_name_never_creates(
    ctx: ContextView,
    name: Seq<char>,
    logo_uri: Seq<char>,
    derived: Option<(Seq<u8>, u8)>,
    clock: Option<i64>,
    after: ContextView,
    outcome: Result<(), Rejection>,
)
    requires
        !name_ok(name),
        carried_out(ctx, create_verdict(ctx, name, logo_uri, derived, clock), after, outcome),
    ensures
        outcome == Err::<(), Rejection>(Rejection::Identity(IdentityError::InvalidNameLength)),
        after == ctx,
{
}

/// Beside an accepted name, a logo URI that is too long is turned down as
/// such, whatever else creation is given, and nothing is stored.
pub proof fn overlong_logo_uri_never_creates(
    ctx: ContextView,
    name: Seq<char>,
    logo_uri: Seq<char>,
    derived: Option<(Seq<u8>, u8)>,
    clock: Option<i64>,
    after: ContextView,
    outcome: Result<(), Rejection>,
)
    requires
        name_ok(name),
        !logo_uri_ok(logo_uri),
        carried_out(ctx, create_verdict(ctx, name, logo_uri, derived, clock), after, outcome),
    ensures
        outcome == Err::<(), Rejection>(Rejection::Identity(IdentityError::InvalidLogoUriLength)),
        after == ctx,
{
}

/// Once an identity has been created for a principal, no second creation for
/// that principal under the same program succeeds, whatever texts it brings
/// and wherever it asks: at the account of the first it finds the record, and
/// anywhere else it is at the wrong address. The first record stays as it is.
pub proof fn second_creation_fails(
    first: ContextView,
    name: Seq<char>,
    logo_uri: Seq<char>,
    clock: Option<i64>,
    second: ContextView,
    other_name: Seq<char>,
    other_logo_uri: Seq<char>,
    other_clock: Option<i64>,
    after: ContextView,
    outcome: Result<(), Rejection>,
)
    requires
        create_verdict(
            first,
            name,
            logo_uri,
            identity_address(first.authority, first.program_id),
            clock,
        ) matches Ok(record) && (second.identity.address == first.identity.address
            ==> second.identity.record == Some(record)),
        second.authority == first.authority,
        second.program_id == first.program_id,
        carried_out(
            second,
            create_verdict(
                second,
                other_name,
                other_logo_uri,
                identity_address(second.authority, second.program_id),
                other_clock,
            ),
            after,
            outcome,
        ),
    ensures
        outcome is Err,
        after == second,
        (name_ok(other_name) && logo_uri_ok(other_logo_uri) && second.identity.address
            == first.identity.address) ==> outcome == Err::<(), Rejection>(Rejection::AccountInUse),
{
}

/// An update that succeeds replaces the name, the logo URI and the time of
/// the last update by what the call brings, and leaves the authority, the
/// business tag, the time of creation and the bump as they were. Where the
/// clock has not gone back behind the last update, the time of the last
/// update does not decrease.
pub proof fn update_keeps_identity_fields(
    ctx: ContextView,
    name: Seq<char>,
    logo_uri: Seq<char>,
    derived: Option<Seq<u8>>,
    now: i64,
    after: ContextView,
    outcome: Result<(), Rejection>,
)
    requires
        ctx.identity.record is Some,
        carried_out(ctx, update_verdict(ctx, name, logo_uri, derived, Some(now)), after, outcome),
        outcome is Ok,
    ensures
        ctx.identity.record->0.authority == ctx.authority,
        after.identity.record matches Some(record) && {
            &&& record.name == name
            &&& record.logo_uri == logo_uri
            &&& record.updated_at == now
            &&& record.authority == ctx.identity.record->0.authority
            &&& record.identity_type == ctx.identity.record->0.identity_type
            &&& record.created_at == ctx.identity.record->0.created_at
            &&& record.bump == ctx.identity.record->0.bump
            &&& ctx.identity.record->0.updated_at <= now ==> ctx.identity.record->0.updated_at
                <= record.updated_at
        },
        after.identity.address == ctx.identity.address,
{
}

/// The owner of a record, asking at the record's address with accepted texts
/// and a clock to read, is served.
pub proof fn owner_is_served(
    ctx: ContextView,
    name: Seq<char>,
    logo_uri: Seq<char>,
    now: i64,
)
    requires
        ctx.identity.record matches Some(record) && record.authority == ctx.authority,
        name_ok(name),
        logo_uri_ok(logo_uri),
    ensures
        update_verdict(ctx, name, logo_uri, Some(ctx.identity.address), Some(now)) == Ok::<
            IdentityView,
            Rejection,
        >(ctx.identity.record->0.updated(name, logo_uri, now as int)),
{
}

/// A principal that does not own the record is turned down as unauthorized,
/// whatever else the update is given, and the record stays as it is.
pub proof fn stranger_cannot_update(
    ctx: ContextView,
    name: Seq<char>,
    logo_uri: Seq<char>,
    derived: Option<Seq<u8>>,
    clock: Option<i64>,
    after: ContextView,
    outcome: Result<(), Rejection>,
)
    requires
        ctx.identity.record matches Some(record) && record.authority != ctx.authority,
        carried_out(ctx, update_verdict(ctx, name, logo_uri, derived, clock), after, outcome),
    ensures
        outcome == Err::<(), Rejection>(Rejection::Identity(IdentityError::Unauthorized)),
        after == ctx,
{
}

/// The identity that creation has stored for a principal can be updated by
/// that principal at once: the stored bump derives the account's address
/// again, so with accepted texts and a clock to read the update is carried out.
pub proof fn created_identity_can_be_updated(
    ctx: ContextView,
    name: Seq<char>,
    logo_uri: Seq<char>,
    clock: Option<i64>,
    new_name: Seq<char>,
    new_logo_uri: Seq<char>,
    later: i64,
)
    requires
        create_verdict(
            ctx,
            name,
            logo_uri,
            identity_address(ctx.authority, ctx.program_id),
            clock,
        ) is Ok,
        name_ok(new_name),
        logo_uri_ok(new_logo_uri),
    ensures
        ({
            let record = create_verdict(
                ctx,
                name,
                logo_uri,
                identity_address(ctx.authority, ctx.program_id),
                clock,
            )->Ok_0;
            let stored = ctx.holding(record);
            update_verdict(
                stored,
                new_name,
                new_logo_uri,
                rederived_address(stored),
                Some(later),
            ) == Ok::<IdentityView, Rejection>(record.updated(new_name, new_logo_uri, later as int))
        }),
{
    lemma_identity_address_rederives(ctx.authority, ctx.program_id);
}

/// Every record that creation stores is well formed and chronological, and an
/// update of a well-formed record stores a well-formed record. The updated
/// record is chronological where the clock has not gone back behind the
/// record's creation.
pub proof fn stored_records_are_well_formed(
    ctx: ContextView,
    name: Seq<char>,
    logo_uri: Seq<char>,
    derived_for_create: Option<(Seq<u8>, u8)>,
    derived_for_update: Option<Seq<u8>>,
    clock: Option<i64>,
)
    requires
        ctx.authority.len() == 32,
    ensures
        create_verdict(ctx, name, logo_uri, derived_for_create, clock) matches Ok(record)
            ==> record.well_formed() && record.chronological(),
        update_verdict(ctx, name, logo_uri, derived_for_update, clock) matches Ok(record) ==> {
            &&& ctx.identity.record->0.well_formed() ==> record.well_formed()
            &&& ctx.identity.record->0.created_at <= clock->0 ==> record.chronological()
        },
{
}

} // verus!
