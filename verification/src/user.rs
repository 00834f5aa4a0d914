use vstd::prelude::*;

use std::collections::HashMap;

use crate::amount::Amount;
use crate::common::{Address, AddressView, FieldPayload, FieldPayloadView};
use crate::text::str_eq;

verus! {

/// The KYC state of a user, as the server last reported it.
#[derive(Debug, Copy, Clone, PartialEq, Eq, Structural)]
pub enum UserStatus {
    /// The user has been closed and may not transact.
    Closed,
    /// Waiting on action from you or the user: the initial state
    /// before all information has been submitted, or after any has
    /// failed to pass verifications.
    Open,
    /// Information has been fully submitted and is waiting on review.
    /// The user cannot yet transact.
    Pending,
    /// Information has been reviewed and accepted. Entity-level
    /// approval does not by itself mean every field is submitted:
    /// check both before transacting.
    Approved,
}

/// The wire token of each `UserStatus`.
pub open spec fn user_status_token(x: UserStatus) -> Seq<char> {
    match x {
        UserStatus::Closed => "CLOSED"@,
        UserStatus::Open => "OPEN"@,
        UserStatus::Pending => "PENDING"@,
        UserStatus::Approved => "APPROVED"@,
    }
}

/// The `UserStatus` selected by a wire token, if any.
pub open spec fn spec_parse_user_status(s: Seq<char>) -> Option<UserStatus> {
    if s == "CLOSED"@ {
        Some(UserStatus::Closed)
    } else if s == "OPEN"@ {
        Some(UserStatus::Open)
    } else if s == "PENDING"@ {
        Some(UserStatus::Pending)
    } else if s == "APPROVED"@ {
        Some(UserStatus::Approved)
    } else {
        None
    }
}

impl UserStatus {
    /// Writes the wire token.
    pub fn token(&self) -> (r: String)
        ensures
            r@ == user_status_token(*self),
    {
        match self {
            UserStatus::Closed => String::from_str("CLOSED"),
            UserStatus::Open => String::from_str("OPEN"),
            UserStatus::Pending => String::from_str("PENDING"),
            UserStatus::Approved => String::from_str("APPROVED"),
        }
    }

    /// Reads a wire token.
    pub fn from_token(s: &str) -> (r: Option<UserStatus>)
        ensures
            r == spec_parse_user_status(s@),
    {
        if str_eq(s, "CLOSED") {
            Some(UserStatus::Closed)
        } else if str_eq(s, "OPEN") {
            Some(UserStatus::Open)
        } else if str_eq(s, "PENDING") {
            Some(UserStatus::Pending)
        } else if str_eq(s, "APPROVED") {
            Some(UserStatus::Approved)
        } else {
            None
        }
    }
}

/// Writing any `UserStatus` token and reading it back reproduces the value.
pub proof fn lemma_user_status_round_trip(x: UserStatus)
    ensures
        spec_parse_user_status(user_status_token(x)) == Some(x),
{
    match x {
        UserStatus::Closed => {
            reveal_strlit("CLOSED");
            assert(spec_parse_user_status("CLOSED"@) == Some(UserStatus::Closed));
        },
        UserStatus::Open => {
            reveal_strlit("CLOSED");
            reveal_strlit("OPEN");
            assert(("OPEN"@).len() != ("CLOSED"@).len());
            assert("OPEN"@ != "CLOSED"@);
            assert(spec_parse_user_status("OPEN"@) == Some(UserStatus::Open));
        },
        UserStatus::Pending => {
            reveal_strlit("CLOSED");
            reveal_strlit("OPEN");
            reveal_strlit("PENDING");
            assert(("PENDING"@).len() != ("CLOSED"@).len());
            assert("PENDING"@ != "CLOSED"@);
            assert(("PENDING"@).len() != ("OPEN"@).len());
            assert("PENDING"@ != "OPEN"@);
            assert(spec_parse_user_status("PENDING"@) == Some(UserStatus::Pending));
        },
        UserStatus::Approved => {
            reveal_strlit("CLOSED");
            reveal_strlit("OPEN");
            reveal_strlit("PENDING");
            reveal_strlit("APPROVED");
            assert(("APPROVED"@).len() != ("CLOSED"@).len());
            assert("APPROVED"@ != "CLOSED"@);
            assert(("APPROVED"@).len() != ("OPEN"@).len());
            assert("APPROVED"@ != "OPEN"@);
            assert(("APPROVED"@).len() != ("PENDING"@).len());
            assert("APPROVED"@ != "PENDING"@);
            assert(spec_parse_user_status("APPROVED"@) == Some(UserStatus::Approved));
        },
    }
}

/// The state of one user field.
#[derive(Debug, Copy, Clone, PartialEq, Eq, Structural)]
pub enum UserFieldStatus {
    /// Waiting on data: the initial state before any information has
    /// been submitted, or after a correctable problem with a previous
    /// submission. The server may revert a field here if a later
    /// verification fails.
    Open,
    /// The field value has been uploaded and accepted.
    Submitted,
}

/// The wire token of each `UserFieldStatus`.
pub open spec fn user_field_status_token(x: UserFieldStatus) -> Seq<char> {
    match x {
        UserFieldStatus::Open => "OPEN"@,
        UserFieldStatus::Submitted => "SUBMITTED"@,
    }
}

/// The `UserFieldStatus` selected by a wire token, if any.
pub open spec fn spec_parse_user_field_status(s: Seq<char>) -> Option<UserFieldStatus> {
    if s == "OPEN"@ {
        Some(UserFieldStatus::Open)
    } else if s == "SUBMITTED"@ {
        Some(UserFieldStatus::Submitted)
    } else {
        None
    }
}

impl UserFieldStatus {
    /// Writes the wire token.
    pub fn token(&self) -> (r: String)
        ensures
            r@ == user_field_status_token(*self),
    {
        match self {
            UserFieldStatus::Open => String::from_str("OPEN"),
            UserFieldStatus::Submitted => String::from_str("SUBMITTED"),
        }
    }

    /// Reads a wire token.
    pub fn from_token(s: &str) -> (r: Option<UserFieldStatus>)
        ensures
            r == spec_parse_user_field_status(s@),
    {
        if str_eq(s, "OPEN") {
            Some(UserFieldStatus::Open)
        } else if str_eq(s, "SUBMITTED") {
            Some(UserFieldStatus::Submitted)
        } else {
            None
        }
    }
}

/// Writing any `UserFieldStatus` token and reading it back reproduces the value.
pub proof fn lemma_user_field_status_round_trip(x: UserFieldStatus)
    ensures
        spec_parse_user_field_status(user_field_status_token(x)) == Some(x),
{
    match x {
        UserFieldStatus::Open => {
            reveal_strlit("OPEN");
            assert(spec_parse_user_field_status("OPEN"@) == Some(UserFieldStatus::Open));
        },
        UserFieldStatus::Submitted => {
            reveal_strlit("OPEN");
            reveal_strlit("SUBMITTED");
            assert(("SUBMITTED"@).len() != ("OPEN"@).len());
            assert("SUBMITTED"@ != "OPEN"@);
            assert(spec_parse_user_field_status("SUBMITTED"@) == Some(UserFieldStatus::Submitted));
        },
    }
}

/// The KYC datapoints a user record carries. Which ones an integration
/// must supply depends on its scopes.
#[derive(Debug, Clone, PartialEq, Eq, Hash, Structural)]
pub enum UserFieldId {
    /// First name of the end user.
    FirstName,
    /// Last name of the end user.
    LastName,
    /// The email address of the end user.
    Email,
    /// The residence address of the end user.
    ResidenceAddress,
    /// The date of birth of the person, e.g. `1990-01-01`.
    DateOfBirth,
}

/// The wire token of each `UserFieldId`.
pub open spec fn user_field_id_token(x: UserFieldId) -> Seq<char> {
    match x {
        UserFieldId::FirstName => "firstName"@,
        UserFieldId::LastName => "lastName"@,
        UserFieldId::Email => "email"@,
        UserFieldId::ResidenceAddress => "residenceAddress"@,
        UserFieldId::DateOfBirth => "dateOfBirth"@,
    }
}

/// The `UserFieldId` selected by a wire token, if any.
pub open spec fn spec_parse_user_field_id(s: Seq<char>) -> Option<UserFieldId> {
    if s == "firstName"@ {
        Some(UserFieldId::FirstName)
    } else if s == "lastName"@ {
        Some(UserFieldId::LastName)
    } else if s == "email"@ {
        Some(UserFieldId::Email)
    } else if s == "residenceAddress"@ {
        Some(UserFieldId::ResidenceAddress)
    } else if s == "dateOfBirth"@ {
        Some(UserFieldId::DateOfBirth)
    } else {
        None
    }
}

impl UserFieldId {
    /// Writes the wire token.
    pub fn token(&self) -> (r: String)
        ensures
            r@ == user_field_id_token(*self),
    {
        match self {
            UserFieldId::FirstName => String::from_str("firstName"),
            UserFieldId::LastName => String::from_str("lastName"),
            UserFieldId::Email => String::from_str("email"),
            UserFieldId::ResidenceAddress => String::from_str("residenceAddress"),
            UserFieldId::DateOfBirth => String::from_str("dateOfBirth"),
        }
    }

    /// Reads a wire token.
    pub fn from_token(s: &str) -> (r: Option<UserFieldId>)
        ensures
            r == spec_parse_user_field_id(s@),
    {
        if str_eq(s, "firstName") {
            Some(UserFieldId::FirstName)
        } else if str_eq(s, "lastName") {
            Some(UserFieldId::LastName)
        } else if str_eq(s, "email") {
            Some(UserFieldId::Email)
        } else if str_eq(s, "residenceAddress") {
            Some(UserFieldId::ResidenceAddress)
        } else if str_eq(s, "dateOfBirth") {
            Some(UserFieldId::DateOfBirth)
        } else {
            None
        }
    }
}

/// Writing any `UserFieldId` token and reading it back reproduces the value.
pub proof fn lemma_user_field_id_round_trip(x: UserFieldId)
    ensures
        spec_parse_user_field_id(user_field_id_token(x)) == Some(x),
{
    match x {
        UserFieldId::FirstName => {
            reveal_strlit("firstName");
            assert(spec_parse_user_field_id("firstName"@) == Some(UserFieldId::FirstName));
        },
        UserFieldId::LastName => {
            reveal_strlit("firstName");
            reveal_strlit("lastName");
            assert(("lastName"@).len() != ("firstName"@).len());
            assert("lastName"@ != "firstName"@);
            assert(spec_parse_user_field_id("lastName"@) == Some(UserFieldId::LastName));
        },
        UserFieldId::Email => {
            reveal_strlit("firstName");
            reveal_strlit("lastName");
            reveal_strlit("email");
            assert(("email"@).len() != ("firstName"@).len());
            assert("email"@ != "firstName"@);
            assert(("email"@).len() != ("lastName"@).len());
            assert("email"@ != "lastName"@);
            assert(spec_parse_user_field_id("email"@) == Some(UserFieldId::Email));
        },
        UserFieldId::ResidenceAddress => {
            reveal_strlit("firstName");
            reveal_strlit("lastName");
            reveal_strlit("email");
            reveal_strlit("residenceAddress");
            assert(("residenceAddress"@).len() != ("firstName"@).len());
            assert("residenceAddress"@ != "firstName"@);
            assert(("residenceAddress"@).len() != ("lastName"@).len());
            assert("residenceAddress"@ != "lastName"@);
            assert(("residenceAddress"@).len() != ("email"@).len());
            assert("residenceAddress"@ != "email"@);
            assert(spec_parse_user_field_id("residenceAddress"@) == Some(UserFieldId::ResidenceAddress));
        },
        UserFieldId::DateOfBirth => {
            reveal_strlit("firstName");
            reveal_strlit("lastName");
            reveal_strlit("email");
            reveal_strlit("residenceAddress");
            reveal_strlit("dateOfBirth");
            assert(("dateOfBirth"@).len() != ("firstName"@).len());
            assert("dateOfBirth"@ != "firstName"@);
            assert(("dateOfBirth"@).len() != ("lastName"@).len());
            assert("dateOfBirth"@ != "lastName"@);
            assert(("dateOfBirth"@).len() != ("email"@).len());
            assert("dateOfBirth"@ != "email"@);
            assert(("dateOfBirth"@).len() != ("residenceAddress"@).len());
            assert("dateOfBirth"@ != "residenceAddress"@);
            assert(spec_parse_user_field_id("dateOfBirth"@) == Some(UserFieldId::DateOfBirth));
        },
    }
}

/// The permission scopes a user view can be biased toward.
#[derive(Debug, Copy, Clone, PartialEq, Eq, Structural)]
pub enum UserScope {
    /// General access to the transfers API; required for all
    /// transfers.
    Transfer,
    /// Access to create payment methods (attach bank accounts) for
    /// users.
    ACH,
    /// Higher-limit card processing.
    DebitCardL2,
}

/// The wire token of each `UserScope`.
pub open spec fn user_scope_token(x: UserScope) -> Seq<char> {
    match x {
        UserScope::Transfer => "TRANSFER"@,
        UserScope::ACH => "ACH"@,
        UserScope::DebitCardL2 => "DEBIT_CARD_L2"@,
    }
}

/// The `UserScope` selected by a wire token, if any.
pub open spec fn spec_parse_user_scope(s: Seq<char>) -> Option<UserScope> {
    if s == "TRANSFER"@ {
        Some(UserScope::Transfer)
    } else if s == "ACH"@ {
        Some(UserScope::ACH)
    } else if s == "DEBIT_CARD_L2"@ {
        Some(UserScope::DebitCardL2)
    } else {
        None
    }
}

impl UserScope {
    /// Writes the wire token.
    pub fn token(&self) -> (r: String)
        ensures
            r@ == user_scope_token(*self),
    {
        match self {
            UserScope::Transfer => String::from_str("TRANSFER"),
            UserScope::ACH => String::from_str("ACH"),
            UserScope::DebitCardL2 => String::from_str("DEBIT_CARD_L2"),
        }
    }

    /// Reads a wire token.
    pub fn from_token(s: &str) -> (r: Option<UserScope>)
        ensures
            r == spec_parse_user_scope(s@),
    {
        if str_eq(s, "TRANSFER") {
            Some(UserScope::Transfer)
        } else if str_eq(s, "ACH") {
            Some(UserScope::ACH)
        } else if str_eq(s, "DEBIT_CARD_L2") {
            Some(UserScope::DebitCardL2)
        } else {
            None
        }
    }
}

/// Writing any `UserScope` token and reading it back reproduces the value.
pub proof fn lemma_user_scope_round_trip(x: UserScope)
    ensures
        spec_parse_user_scope(user_scope_token(x)) == Some(x),
{
    match x {
        UserScope::Transfer => {
            reveal_strlit("TRANSFER");
            assert(spec_parse_user_scope("TRANSFER"@) == Some(UserScope::Transfer));
        },
        UserScope::ACH => {
            reveal_strlit("TRANSFER");
            reveal_strlit("ACH");
            assert(("ACH"@).len() != ("TRANSFER"@).len());
            assert("ACH"@ != "TRANSFER"@);
            assert(spec_parse_user_scope("ACH"@) == Some(UserScope::ACH));
        },
        UserScope::DebitCardL2 => {
            reveal_strlit("TRANSFER");
            reveal_strlit("ACH");
            reveal_strlit("DEBIT_CARD_L2");
            assert(("DEBIT_CARD_L2"@).len() != ("TRANSFER"@).len());
            assert("DEBIT_CARD_L2"@ != "TRANSFER"@);
            assert(("DEBIT_CARD_L2"@).len() != ("ACH"@).len());
            assert("DEBIT_CARD_L2"@ != "ACH"@);
            assert(spec_parse_user_scope("DEBIT_CARD_L2"@) == Some(UserScope::DebitCardL2));
        },
    }
}

impl UserScope {
    /// Writes the scope's wire token; the query-parameter form of the
    /// scope is the same token.
    pub fn to_string(&self) -> (r: String)
        ensures
            r@ == user_scope_token(*self),
    {
        self.token()
    }
}

/// A value carried by one user field: the narrower, untagged half of the
/// KYC value model. No discriminator travels with it, so decoding goes by
/// shape alone.
#[derive(Debug, Clone, PartialEq, Eq)]
pub enum UserFieldType {
    /// A basic string.
    String(Option<String>),
    /// An address object.
    Address(Option<Address>),
}

/// The mathematical form of a `UserFieldType`.
pub enum UserFieldTypeView {
    /// See `UserFieldType::String`.
    String(Option<Seq<char>>),
    /// See `UserFieldType::Address`.
    Address(Option<AddressView>),
}

impl View for UserFieldType {
    type V = UserFieldTypeView;

    open spec fn view(&self) -> UserFieldTypeView {
        match self {
            UserFieldType::String(o) => UserFieldTypeView::String(crate::common::opt_text(*o)),
            UserFieldType::Address(o) => UserFieldTypeView::Address(
                match o {
                    Some(a) => Some(a@),
                    None => None,
                },
            ),
        }
    }
}

/// The payload a user-field value writes: no discriminator, only the
/// shape itself.
pub open spec fn user_field_payload(v: UserFieldTypeView) -> FieldPayloadView {
    match v {
        UserFieldTypeView::String(None) => FieldPayloadView::Null,
        UserFieldTypeView::String(Some(s)) => FieldPayloadView::Text(s),
        UserFieldTypeView::Address(None) => FieldPayloadView::Null,
        UserFieldTypeView::Address(Some(a)) => FieldPayloadView::Structured(a),
    }
}

/// Untagged decoding by shape, preferring the structured shape: an object
/// is always the address kind, text is the string kind, and an absent
/// value is the string kind holding nothing. A list fits neither shape.
pub open spec fn spec_decode_user_field(p: FieldPayloadView) -> Option<UserFieldTypeView> {
    match p {
        FieldPayloadView::Null => Some(UserFieldTypeView::String(None)),
        FieldPayloadView::Text(s) => Some(UserFieldTypeView::String(Some(s))),
        FieldPayloadView::Structured(a) => Some(UserFieldTypeView::Address(Some(a))),
        FieldPayloadView::List(_) => None,
    }
}

impl UserFieldType {
    /// Writes the value as its untagged payload.
    pub fn encode(self) -> (r: FieldPayload)
        ensures
            r@ == user_field_payload(self@),
    {
        match self {
            UserFieldType::String(None) => FieldPayload::Null,
            UserFieldType::String(Some(s)) => FieldPayload::Text(s),
            UserFieldType::Address(None) => FieldPayload::Null,
            UserFieldType::Address(Some(a)) => FieldPayload::Structured(a),
        }
    }

    /// Decodes an untagged payload by its shape: a structured object is
    /// the address kind whenever one arrives, text is the string kind.
    /// A payload that fits no shape is rejected, never defaulted.
    pub fn decode(payload: FieldPayload) -> (r: Option<UserFieldType>)
        ensures
            match spec_decode_user_field(payload@) {
                Some(v) => (r matches Some(x) && x@ == v),
                None => r is None,
            },
    {
        match payload {
            FieldPayload::Null => Some(UserFieldType::String(None)),
            FieldPayload::Text(s) => Some(UserFieldType::String(Some(s))),
            FieldPayload::Structured(a) => Some(UserFieldType::Address(Some(a))),
            FieldPayload::List(_) => None,
        }
    }
}

/// Encoding a user-field value and decoding the payload by shape
/// reproduces the value, except for the one untagged ambiguity: an
/// address holding nothing writes null, which reads back as the string
/// kind holding nothing. The law therefore excludes that single value.
pub proof fn lemma_user_field_round_trip(v: UserFieldTypeView)
    requires
        v != UserFieldTypeView::Address(None),
    ensures
        spec_decode_user_field(user_field_payload(v)) == Some(v),
{
}

/// One user field with its current state.
#[derive(Debug, Clone, PartialEq, Eq)]
pub struct UserField {
    /// A representation of the underlying KYC data; its shape depends on
    /// the field.
    pub value: Option<UserFieldType>,
    /// The state of the field.
    pub status: UserFieldStatus,
    /// A message describing a correctable problem, accompanying an open
    /// status.
    pub error: Option<String>,
}

/// A user, as the server returns it.
#[derive(Debug, Clone, PartialEq)]
pub struct User {
    /// The user identifier.
    pub id: String,
    /// The KYC state of the user.
    pub status: UserStatus,
    /// When the user was created, in epoch milliseconds.
    pub created_at: i64,
    /// The user's cryptocurrency deposit addresses.
    pub deposit_addresses: DepositAddresses,
    /// The user's total balances.
    pub total_balances: UserBalances,
    /// The user's available balances.
    pub available_balances: UserBalances,
    /// The state of the user's fields.
    pub fields: HashMap<UserFieldId, UserField>,
}

/// Balances of user cryptocurrencies, as exact quantities.
#[derive(Debug, Clone, PartialEq, Eq)]
pub struct UserBalances {
    /// Bitcoin balance, when reported.
    pub btc: Option<i64>,
    /// Ethereum balance as an exact decimal, when reported.
    pub eth: Option<Amount>,
}

/// Blockchain addresses for deposit.
#[derive(Debug, Clone, PartialEq, Eq)]
pub struct DepositAddresses {
    /// Ethereum address, when present.
    pub eth: Option<String>,
    /// Bitcoin address, when present.
    pub btc: Option<String>,
}

/// The request body that creates or updates a user.
#[derive(Debug, Clone)]
pub struct ModifyUser {
    /// The blockchains to connect the user to; defaults to none.
    pub blockchains: Vec<String>,
    /// When true, returns immediately instead of waiting briefly for
    /// processing, always yielding a pending user.
    pub immediate: bool,
    /// The field values to submit, keyed by field.
    pub fields: HashMap<UserFieldId, UserFieldType>,
    /// The scopes to bias the returned view toward.
    pub scopes: Vec<UserScope>,
}

} // verus!
