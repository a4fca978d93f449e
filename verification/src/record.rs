//! The business identity record: its fields, its bounds and its size on storage.

use vstd::prelude::*;
use vstd::utf8::encode_utf8;

verus! {

/// Longest accepted business name, in bytes.
pub const MAX_NAME_LENGTH: usize = 64;

/// Longest accepted logo URI, in bytes.
pub const MAX_LOGO_URI_LENGTH: usize = 200;

/// The tag that marks a record as a business identity.
pub const IDENTITY_TYPE_BUSINESS: u8 = 1;

/// Why a request on an identity is turned down by the rules of this library.
#[derive(Debug, Clone, Copy, PartialEq, Eq)]
pub enum IdentityError {
    /// The name is empty or longer than `MAX_NAME_LENGTH` bytes.
    InvalidNameLength,
    /// The logo URI is longer than `MAX_LOGO_URI_LENGTH` bytes.
    InvalidLogoUriLength,
    /// The caller is not the principal that owns the record.
    Unauthorized,
}

/// Number of bytes that `text` takes as UTF-8.
pub open spec fn byte_len(text: Seq<char>) -> nat {
    encode_utf8(text).len()
}

/// A name is accepted when it takes between 1 and `MAX_NAME_LENGTH` bytes.
pub open spec fn name_ok(name: Seq<char>) -> bool {
    1 <= byte_len(name) <= MAX_NAME_LENGTH
}

/// A logo URI is accepted when it takes at most `MAX_LOGO_URI_LENGTH` bytes.
pub open spec fn logo_uri_ok(logo_uri: Seq<char>) -> bool {
    byte_len(logo_uri) <= MAX_LOGO_URI_LENGTH
}

/// What the length rules say of a pair of texts: the name is judged first.
pub open spec fn profile_verdict(name: Seq<char>, logo_uri: Seq<char>) -> Result<
    (),
    IdentityError,
> {
    if !name_ok(name) {
        Err(IdentityError::InvalidNameLength)
    } else if !logo_uri_ok(logo_uri) {
        Err(IdentityError::InvalidLogoUriLength)
    } else {
        Ok(())
    }
}

/// Checks the length rules on a name and a logo URI.
pub fn validate_profile(name: &str, logo_uri: &str) -> (verdict: Result<(), IdentityError>)
    ensures
        verdict == profile_verdict(name@, logo_uri@),
{
    let name_len: usize = name.as_bytes().len();
    let logo_uri_len: usize = logo_uri.as_bytes().len();
    if name_len == 0 || name_len > MAX_NAME_LENGTH {
        Err(IdentityError::InvalidNameLength)
    } else if logo_uri_len > MAX_LOGO_URI_LENGTH {
        Err(IdentityError::InvalidLogoUriLength)
    } else {
        Ok(())
    }
}

/// The identity of a business, owned by one principal.
#[derive(Debug, Clone, PartialEq, Eq)]
pub struct BusinessIdentity {
    /// The principal that owns this identity.
    pub authority: [u8; 32],
    /// Kind of identity; always `IDENTITY_TYPE_BUSINESS`.
    pub identity_type: u8,
    /// Business name, 1 to `MAX_NAME_LENGTH` bytes.
    pub name: String,
    /// Logo URI, at most `MAX_LOGO_URI_LENGTH` bytes.
    pub logo_uri: String,
    /// Unix time at which the record was created.
    pub created_at: i64,
    /// Unix time of the last successful write.
    pub updated_at: i64,
    /// Salt with which the record's address is derived again.
    pub bump: u8,
}

/// A record as a mathematical value.
pub struct IdentityView {
    pub authority: Seq<u8>,
    pub identity_type: u8,
    pub name: Seq<char>,
    pub logo_uri: Seq<char>,
    pub created_at: int,
    pub updated_at: int,
    pub bump: u8,
}

impl View for BusinessIdentity {
    type V = IdentityView;

    open spec fn view(&self) -> IdentityView {
        IdentityView {
            authority: self.authority@,
            identity_type: self.identity_type,
            name: self.name@,
            logo_uri: self.logo_uri@,
            created_at: self.created_at as int,
            updated_at: self.updated_at as int,
            bump: self.bump,
        }
    }
}

impl IdentityView {
    /// The bounds that every stored record meets.
    pub open spec fn well_formed(self) -> bool {
        &&& self.authority.len() == 32
        &&& self.identity_type == IDENTITY_TYPE_BUSINESS
        &&& name_ok(self.name)
        &&& logo_uri_ok(self.logo_uri)
    }

    /// The record was not written before it was created.
    pub open spec fn chronological(self) -> bool {
        self.created_at <= self.updated_at
    }

    /// Bytes that the record takes on storage: an 8-byte discriminator, the
    /// 32-byte authority, the type tag, each text behind a 4-byte length, the
    /// two 8-byte timestamps and the bump.
    pub open spec fn stored_len(self) -> nat {
        8 + 32 + 1 + (4 + byte_len(self.name)) + (4 + byte_len(self.logo_uri)) + 8 + 8 + 1
    }

    /// The record that creation writes.
    pub open spec fn created(
        authority: Seq<u8>,
        name: Seq<char>,
        logo_uri: Seq<char>,
        now: int,
        bump: u8,
    ) -> IdentityView {
        IdentityView {
            authority,
            identity_type: IDENTITY_TYPE_BUSINESS,
            name,
            logo_uri,
            created_at: now,
            updated_at: now,
            bump,
        }
    }

    /// The record that an update leaves: name, logo URI and time of writing
    /// are replaced, everything else stays.
    pub open spec fn updated(self, name: Seq<char>, logo_uri: Seq<char>, now: int) -> IdentityView {
        IdentityView { name, logo_uri, updated_at: now, ..self }
    }
}

impl BusinessIdentity {
    /// Bytes reserved for a record on storage, whatever its texts hold: the
    /// size of a record whose name and logo URI are both as long as allowed.
    pub const SIZE: usize = 8 + 32 + 1 + (4 + MAX_NAME_LENGTH) + (4 + MAX_LOGO_URI_LENGTH) + 8 + 8
        + 1;

    /// Bytes that this record takes on storage.
    pub fn stored_len(&self) -> (len: usize)
        requires
            self@.well_formed(),
        ensures
            len == self@.stored_len(),
            len <= BusinessIdentity::SIZE,
    {
        let name_len: usize = self.name.as_str().as_bytes().len();
        let logo_uri_len: usize = self.logo_uri.as_str().as_bytes().len();
        8 + 32 + 1 + (4 + name_len) + (4 + logo_uri_len) + 8 + 8 + 1
    }
}

/// Every well-formed record fits the space reserved for it, and a record
/// whose texts are as long as allowed fills that space exactly.
pub proof fn lemma_stored_len_within_size(record: IdentityView)
    requires
        record.well_formed(),
    ensures
        record.stored_len() <= BusinessIdentity::SIZE,
        BusinessIdentity::SIZE == 330,
        (byte_len(record.name) == MAX_NAME_LENGTH && byte_len(record.logo_uri)
            == MAX_LOGO_URI_LENGTH) ==> record.stored_len() == BusinessIdentity::SIZE,
{
}

} // verus!
