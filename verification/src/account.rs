use vstd::prelude::*;

use std::collections::HashMap;

use crate::amount::Amount;
use crate::common::{Address, AddressView, DocumentType, FieldPayload, FieldPayloadView};
use crate::currency::Currency;
use crate::text::str_eq;

verus! {

/// The verification state of an account, as the server last reported it.
/// The client only decodes this state; every transition is server-driven.
#[derive(Debug, Copy, Clone, PartialEq, Eq, Structural)]
pub enum AccountStatus {
    /// Waiting on action from you or the account holder: the initial
    /// state before all information has been submitted, or after any has
    /// failed to pass verifications.
    Open,
    /// Information has been fully submitted and is waiting on review.
    /// The account cannot yet transact.
    Pending,
    /// Information has been reviewed and accepted. The account is now
    /// approved to transact.
    Approved,
    /// The account has been closed and may not transact.
    Closed,
}

/// The wire token of each `AccountStatus`.
pub open spec fn account_status_token(x: AccountStatus) -> Seq<char> {
    match x {
        AccountStatus::Open => "OPEN"@,
        AccountStatus::Pending => "PENDING"@,
        AccountStatus::Approved => "APPROVED"@,
        AccountStatus::Closed => "CLOSED"@,
    }
}

/// The `AccountStatus` selected by a wire token, if any.
pub open spec fn spec_parse_account_status(s: Seq<char>) -> Option<AccountStatus> {
    if s == "OPEN"@ {
        Some(AccountStatus::Open)
    } else if s == "PENDING"@ {
        Some(AccountStatus::Pending)
    } else if s == "APPROVED"@ {
        Some(AccountStatus::Approved)
    } else if s == "CLOSED"@ {
        Some(AccountStatus::Closed)
    } else {
        None
    }
}

impl AccountStatus {
    /// Writes the wire token.
    pub fn token(&self) -> (r: String)
        ensures
            r@ == account_status_token(*self),
    {
        match self {
            AccountStatus::Open => String::from_str("OPEN"),
            AccountStatus::Pending => String::from_str("PENDING"),
            AccountStatus::Approved => String::from_str("APPROVED"),
            AccountStatus::Closed => String::from_str("CLOSED"),
        }
    }

    /// Reads a wire token.
    pub fn from_token(s: &str) -> (r: Option<AccountStatus>)
        ensures
            r == spec_parse_account_status(s@),
    {
        if str_eq(s, "OPEN") {
            Some(AccountStatus::Open)
        } else if str_eq(s, "PENDING") {
            Some(AccountStatus::Pending)
        } else if str_eq(s, "APPROVED") {
            Some(AccountStatus::Approved)
        } else if str_eq(s, "CLOSED") {
            Some(AccountStatus::Closed)
        } else {
            None
        }
    }
}

/// Writing any `AccountStatus` token and reading it back reproduces the value.
pub proof fn lemma_account_status_round_trip(x: AccountStatus)
    ensures
        spec_parse_account_status(account_status_token(x)) == Some(x),
{
    match x {
        AccountStatus::Open => {
            reveal_strlit("OPEN");
            assert(spec_parse_account_status("OPEN"@) == Some(AccountStatus::Open));
        },
        AccountStatus::Pending => {
            reveal_strlit("OPEN");
            reveal_strlit("PENDING");
            assert(("PENDING"@).len() != ("OPEN"@).len());
            assert("PENDING"@ != "OPEN"@);
            assert(spec_parse_account_status("PENDING"@) == Some(AccountStatus::Pending));
        },
        AccountStatus::Approved => {
            reveal_strlit("OPEN");
            reveal_strlit("PENDING");
            reveal_strlit("APPROVED");
            assert(("APPROVED"@).len() != ("OPEN"@).len());
            assert("APPROVED"@ != "OPEN"@);
            assert(("APPROVED"@).len() != ("PENDING"@).len());
            assert("APPROVED"@ != "PENDING"@);
            assert(spec_parse_account_status("APPROVED"@) == Some(AccountStatus::Approved));
        },
        AccountStatus::Closed => {
            reveal_strlit("OPEN");
            reveal_strlit("PENDING");
            reveal_strlit("APPROVED");
            reveal_strlit("CLOSED");
            assert(("CLOSED"@).len() != ("OPEN"@).len());
            assert("CLOSED"@ != "OPEN"@);
            assert(("CLOSED"@).len() != ("PENDING"@).len());
            assert("CLOSED"@ != "PENDING"@);
            assert(("CLOSED"@).len() != ("APPROVED"@).len());
            assert("CLOSED"@ != "APPROVED"@);
            assert(spec_parse_account_status("CLOSED"@) == Some(AccountStatus::Closed));
        },
    }
}

/// The kind of account being registered. Only individual accounts are
/// supported through the API today.
#[derive(Debug, Copy, Clone, PartialEq, Eq, Structural)]
pub enum AccountType {
    /// Used to register a personal account.
    Individual,
    /// Used to register a business entity account.
    Business,
}

/// The wire token of each `AccountType`.
pub open spec fn account_type_token(x: AccountType) -> Seq<char> {
    match x {
        AccountType::Individual => "INDIVIDUAL"@,
        AccountType::Business => "BUSINESS"@,
    }
}

/// The `AccountType` selected by a wire token, if any.
pub open spec fn spec_parse_account_type(s: Seq<char>) -> Option<AccountType> {
    if s == "INDIVIDUAL"@ {
        Some(AccountType::Individual)
    } else if s == "BUSINESS"@ {
        Some(AccountType::Business)
    } else {
        None
    }
}

impl AccountType {
    /// Writes the wire token.
    pub fn token(&self) -> (r: String)
        ensures
            r@ == account_type_token(*self),
    {
        match self {
            AccountType::Individual => String::from_str("INDIVIDUAL"),
            AccountType::Business => String::from_str("BUSINESS"),
        }
    }

    /// Reads a wire token.
    pub fn from_token(s: &str) -> (r: Option<AccountType>)
        ensures
            r == spec_parse_account_type(s@),
    {
        if str_eq(s, "INDIVIDUAL") {
            Some(AccountType::Individual)
        } else if str_eq(s, "BUSINESS") {
            Some(AccountType::Business)
        } else {
            None
        }
    }
}

/// Writing any `AccountType` token and reading it back reproduces the value.
pub proof fn lemma_account_type_round_trip(x: AccountType)
    ensures
        spec_parse_account_type(account_type_token(x)) == Some(x),
{
    match x {
        AccountType::Individual => {
            reveal_strlit("INDIVIDUAL");
            assert(spec_parse_account_type("INDIVIDUAL"@) == Some(AccountType::Individual));
        },
        AccountType::Business => {
            reveal_strlit("INDIVIDUAL");
            reveal_strlit("BUSINESS");
            assert(("BUSINESS"@).len() != ("INDIVIDUAL"@).len());
            assert("BUSINESS"@ != "INDIVIDUAL"@);
            assert(spec_parse_account_type("BUSINESS"@) == Some(AccountType::Business));
        },
    }
}

/// The verification state of one profile field. There is no rejected or
/// closed state at the field level: a failed verification reopens the field.
#[derive(Debug, Copy, Clone, PartialEq, Eq, Structural)]
pub enum ProfileFieldStatus {
    /// Waiting on action from you or the account holder: the initial
    /// state before any information has been submitted, or after it has
    /// failed to pass verifications.
    Open,
    /// Information has been fully submitted and is waiting on review.
    Pending,
    /// Information has been reviewed and accepted.
    Approved,
}

/// The wire token of each `ProfileFieldStatus`.
pub open spec fn profile_field_status_token(x: ProfileFieldStatus) -> Seq<char> {
    match x {
        ProfileFieldStatus::Open => "OPEN"@,
        ProfileFieldStatus::Pending => "PENDING"@,
        ProfileFieldStatus::Approved => "APPROVED"@,
    }
}

/// The `ProfileFieldStatus` selected by a wire token, if any.
pub open spec fn spec_parse_profile_field_status(s: Seq<char>) -> Option<ProfileFieldStatus> {
    if s == "OPEN"@ {
        Some(ProfileFieldStatus::Open)
    } else if s == "PENDING"@ {
        Some(ProfileFieldStatus::Pending)
    } else if s == "APPROVED"@ {
        Some(ProfileFieldStatus::Approved)
    } else {
        None
    }
}

impl ProfileFieldStatus {
    /// Writes the wire token.
    pub fn token(&self) -> (r: String)
        ensures
            r@ == profile_field_status_token(*self),
    {
        match self {
            ProfileFieldStatus::Open => String::from_str("OPEN"),
            ProfileFieldStatus::Pending => String::from_str("PENDING"),
            ProfileFieldStatus::Approved => String::from_str("APPROVED"),
        }
    }

    /// Reads a wire token.
    pub fn from_token(s: &str) -> (r: Option<ProfileFieldStatus>)
        ensures
            r == spec_parse_profile_field_status(s@),
    {
        if str_eq(s, "OPEN") {
            Some(ProfileFieldStatus::Open)
        } else if str_eq(s, "PENDING") {
            Some(ProfileFieldStatus::Pending)
        } else if str_eq(s, "APPROVED") {
            Some(ProfileFieldStatus::Approved)
        } else {
            None
        }
    }
}

/// Writing any `ProfileFieldStatus` token and reading it back reproduces the value.
pub proof fn lemma_profile_field_status_round_trip(x: ProfileFieldStatus)
    ensures
        spec_parse_profile_field_status(profile_field_status_token(x)) == Some(x),
{
    match x {
        ProfileFieldStatus::Open => {
            reveal_strlit("OPEN");
            assert(spec_parse_profile_field_status("OPEN"@) == Some(ProfileFieldStatus::Open));
        },
        ProfileFieldStatus::Pending => {
            reveal_strlit("OPEN");
            reveal_strlit("PENDING");
            assert(("PENDING"@).len() != ("OPEN"@).len());
            assert("PENDING"@ != "OPEN"@);
            assert(spec_parse_profile_field_status("PENDING"@) == Some(ProfileFieldStatus::Pending));
        },
        ProfileFieldStatus::Approved => {
            reveal_strlit("OPEN");
            reveal_strlit("PENDING");
            reveal_strlit("APPROVED");
            assert(("APPROVED"@).len() != ("OPEN"@).len());
            assert("APPROVED"@ != "OPEN"@);
            assert(("APPROVED"@).len() != ("PENDING"@).len());
            assert("APPROVED"@ != "PENDING"@);
            assert(spec_parse_profile_field_status("APPROVED"@) == Some(ProfileFieldStatus::Approved));
        },
    }
}

/// The specific KYC datapoint a profile field carries. Each identifier
/// implies the kind of value the field must hold; that pairing is a caller
/// contract which the server enforces.
#[derive(Debug, Copy, Clone, PartialEq, Eq, Structural)]
pub enum ProfileFieldId {
    /// The full legal name of the account holder (the value must be
    /// the string kind).
    IndividualLegalName,
    /// The cellphone number of the account holder (the value must be
    /// the cellphone kind).
    IndividualCellphoneNumber,
    /// The email address of the account holder (the value must be the
    /// email kind).
    IndividualEmail,
    /// The residence address of the account holder (the value must be
    /// the address kind).
    IndividualResidenceAddress,
    /// A scan or photo of a drivers license or passport of the account
    /// holder (the value must be the document kind).
    IndividualGovernmentId,
    /// The account holder's date of birth (the value must be the date
    /// kind).
    IndividualDateOfBirth,
    /// The account holder's social security number (the value must be
    /// the string kind).
    IndividualSsn,
    /// A payment method that the account holder owns (the value must
    /// be the payment-method kind).
    IndividualSourceOfFunds,
    /// A utility bill or bank statement (the value must be the
    /// document kind).
    IndividualProofOfAddress,
    /// Used to verify a payment method after compliance has requested
    /// further verification (the value must be the document kind).
    IndividualAchAuthorizationForm,
}

/// The wire token of each `ProfileFieldId`.
pub open spec fn profile_field_id_token(x: ProfileFieldId) -> Seq<char> {
    match x {
        ProfileFieldId::IndividualLegalName => "individualLegalName"@,
        ProfileFieldId::IndividualCellphoneNumber => "individualCellphoneNumber"@,
        ProfileFieldId::IndividualEmail => "individualEmail"@,
        ProfileFieldId::IndividualResidenceAddress => "individualResidenceAddress"@,
        ProfileFieldId::IndividualGovernmentId => "individualGovernmentId"@,
        ProfileFieldId::IndividualDateOfBirth => "individualDateOfBirth"@,
        ProfileFieldId::IndividualSsn => "individualSsn"@,
        ProfileFieldId::IndividualSourceOfFunds => "individualSourceOfFunds"@,
        ProfileFieldId::IndividualProofOfAddress => "individualProofOfAddress"@,
        ProfileFieldId::IndividualAchAuthorizationForm => "individualAchAuthorizationForm"@,
    }
}

/// The `ProfileFieldId` selected by a wire token, if any.
pub open spec fn spec_parse_profile_field_id(s: Seq<char>) -> Option<ProfileFieldId> {
    if s == "individualLegalName"@ {
        Some(ProfileFieldId::IndividualLegalName)
    } else if s == "individualCellphoneNumber"@ {
        Some(ProfileFieldId::IndividualCellphoneNumber)
    } else if s == "individualEmail"@ {
        Some(ProfileFieldId::IndividualEmail)
    } else if s == "individualResidenceAddress"@ {
        Some(ProfileFieldId::IndividualResidenceAddress)
    } else if s == "individualGovernmentId"@ {
        Some(ProfileFieldId::IndividualGovernmentId)
    } else if s == "individualDateOfBirth"@ {
        Some(ProfileFieldId::IndividualDateOfBirth)
    } else if s == "individualSsn"@ {
        Some(ProfileFieldId::IndividualSsn)
    } else if s == "individualSourceOfFunds"@ {
        Some(ProfileFieldId::IndividualSourceOfFunds)
    } else if s == "individualProofOfAddress"@ {
        Some(ProfileFieldId::IndividualProofOfAddress)
    } else if s == "individualAchAuthorizationForm"@ {
        Some(ProfileFieldId::IndividualAchAuthorizationForm)
    } else {
        None
    }
}

impl ProfileFieldId {
    /// Writes the wire token.
    pub fn token(&self) -> (r: String)
        ensures
            r@ == profile_field_id_token(*self),
    {
        match self {
            ProfileFieldId::IndividualLegalName => String::from_str("individualLegalName"),
            ProfileFieldId::IndividualCellphoneNumber => String::from_str("individualCellphoneNumber"),
            ProfileFieldId::IndividualEmail => String::from_str("individualEmail"),
            ProfileFieldId::IndividualResidenceAddress => String::from_str("individualResidenceAddress"),
            ProfileFieldId::IndividualGovernmentId => String::from_str("individualGovernmentId"),
            ProfileFieldId::IndividualDateOfBirth => String::from_str("individualDateOfBirth"),
            ProfileFieldId::IndividualSsn => String::from_str("individualSsn"),
            ProfileFieldId::IndividualSourceOfFunds => String::from_str("individualSourceOfFunds"),
            ProfileFieldId::IndividualProofOfAddress => String::from_str("individualProofOfAddress"),
            ProfileFieldId::IndividualAchAuthorizationForm => String::from_str("individualAchAuthorizationForm"),
        }
    }

    /// Reads a wire token.
    pub fn from_token(s: &str) -> (r: Option<ProfileFieldId>)
        ensures
            r == spec_parse_profile_field_id(s@),
    {
        if str_eq(s, "individualLegalName") {
            Some(ProfileFieldId::IndividualLegalName)
        } else if str_eq(s, "individualCellphoneNumber") {
            Some(ProfileFieldId::IndividualCellphoneNumber)
        } else if str_eq(s, "individualEmail") {
            Some(ProfileFieldId::IndividualEmail)
        } else if str_eq(s, "individualResidenceAddress") {
            Some(ProfileFieldId::IndividualResidenceAddress)
        } else if str_eq(s, "individualGovernmentId") {
            Some(ProfileFieldId::IndividualGovernmentId)
        } else if str_eq(s, "individualDateOfBirth") {
            Some(ProfileFieldId::IndividualDateOfBirth)
        } else if str_eq(s, "individualSsn") {
            Some(ProfileFieldId::IndividualSsn)
        } else if str_eq(s, "individualSourceOfFunds") {
            Some(ProfileFieldId::IndividualSourceOfFunds)
        } else if str_eq(s, "individualProofOfAddress") {
            Some(ProfileFieldId::IndividualProofOfAddress)
        } else if str_eq(s, "individualAchAuthorizationForm") {
            Some(ProfileFieldId::IndividualAchAuthorizationForm)
        } else {
            None
        }
    }
}

/// Writing any `ProfileFieldId` token and reading it back reproduces the value.
pub proof fn lemma_profile_field_id_round_trip(x: ProfileFieldId)
    ensures
        spec_parse_profile_field_id(profile_field_id_token(x)) == Some(x),
{
    match x {
        ProfileFieldId::IndividualLegalName => {
            reveal_strlit("individualLegalName");
            assert(spec_parse_profile_field_id("individualLegalName"@) == Some(ProfileFieldId::IndividualLegalName));
        },
        ProfileFieldId::IndividualCellphoneNumber => {
            reveal_strlit("individualLegalName");
            reveal_strlit("individualCellphoneNumber");
            assert(("individualCellphoneNumber"@).len() != ("individualLegalName"@).len());
            assert("individualCellphoneNumber"@ != "individualLegalName"@);
            assert(spec_parse_profile_field_id("individualCellphoneNumber"@) == Some(ProfileFieldId::IndividualCellphoneNumber));
        },
        ProfileFieldId::IndividualEmail => {
            reveal_strlit("individualLegalName");
            reveal_strlit("individualCellphoneNumber");
            reveal_strlit("individualEmail");
            assert(("individualEmail"@).len() != ("individualLegalName"@).len());
            assert("individualEmail"@ != "individualLegalName"@);
            assert(("individualEmail"@).len() != ("individualCellphoneNumber"@).len());
            assert("individualEmail"@ != "individualCellphoneNumber"@);
            assert(spec_parse_profile_field_id("individualEmail"@) == Some(ProfileFieldId::IndividualEmail));
        },
        ProfileFieldId::IndividualResidenceAddress => {
            reveal_strlit("individualLegalName");
            reveal_strlit("individualCellphoneNumber");
            reveal_strlit("individualEmail");
            reveal_strlit("individualResidenceAddress");
            assert(("individualResidenceAddress"@).len() != ("individualLegalName"@).len());
            assert("individualResidenceAddress"@ != "individualLegalName"@);
            assert(("individualResidenceAddress"@).len() != ("individualCellphoneNumber"@).len());
            assert("individualResidenceAddress"@ != "individualCellphoneNumber"@);
            assert(("individualResidenceAddress"@).len() != ("individualEmail"@).len());
            assert("individualResidenceAddress"@ != "individualEmail"@);
            assert(spec_parse_profile_field_id("individualResidenceAddress"@) == Some(ProfileFieldId::IndividualResidenceAddress));
        },
        ProfileFieldId::IndividualGovernmentId => {
            reveal_strlit("individualLegalName");
            reveal_strlit("individualCellphoneNumber");
            reveal_strlit("individualEmail");
            reveal_strlit("individualResidenceAddress");
            reveal_strlit("individualGovernmentId");
            assert(("individualGovernmentId"@).len() != ("individualLegalName"@).len());
            assert("individualGovernmentId"@ != "individualLegalName"@);
            assert(("individualGovernmentId"@).len() != ("individualCellphoneNumber"@).len());
            assert("individualGovernmentId"@ != "individualCellphoneNumber"@);
            assert(("individualGovernmentId"@).len() != ("individualEmail"@).len());
            assert("individualGovernmentId"@ != "individualEmail"@);
            assert(("individualGovernmentId"@).len() != ("individualResidenceAddress"@).len());
            assert("individualGovernmentId"@ != "individualResidenceAddress"@);
            assert(spec_parse_profile_field_id("individualGovernmentId"@) == Some(ProfileFieldId::IndividualGovernmentId));
        },
        ProfileFieldId::IndividualDateOfBirth => {
            reveal_strlit("individualLegalName");
            reveal_strlit("individualCellphoneNumber");
            reveal_strlit("individualEmail");
            reveal_strlit("individualResidenceAddress");
            reveal_strlit("individualGovernmentId");
            reveal_strlit("individualDateOfBirth");
            assert(("individualDateOfBirth"@).len() != ("individualLegalName"@).len());
            assert("individualDateOfBirth"@ != "individualLegalName"@);
            assert(("individualDateOfBirth"@).len() != ("individualCellphoneNumber"@).len());
            assert("individualDateOfBirth"@ != "individualCellphoneNumber"@);
            assert(("individualDateOfBirth"@).len() != ("individualEmail"@).len());
            assert("individualDateOfBirth"@ != "individualEmail"@);
            assert(("individualDateOfBirth"@).len() != ("individualResidenceAddress"@).len());
            assert("individualDateOfBirth"@ != "individualResidenceAddress"@);
            assert(("individualDateOfBirth"@).len() != ("individualGovernmentId"@).len());
            assert("individualDateOfBirth"@ != "individualGovernmentId"@);
            assert(spec_parse_profile_field_id("individualDateOfBirth"@) == Some(ProfileFieldId::IndividualDateOfBirth));
        },
        ProfileFieldId::IndividualSsn => {
            reveal_strlit("individualLegalName");
            reveal_strlit("individualCellphoneNumber");
            reveal_strlit("individualEmail");
            reveal_strlit("individualResidenceAddress");
            reveal_strlit("individualGovernmentId");
            reveal_strlit("individualDateOfBirth");
            reveal_strlit("individualSsn");
            assert(("individualSsn"@).len() != ("individualLegalName"@).len());
            assert("individualSsn"@ != "individualLegalName"@);
            assert(("individualSsn"@).len() != ("individualCellphoneNumber"@).len());
            assert("individualSsn"@ != "individualCellphoneNumber"@);
            assert(("individualSsn"@).len() != ("individualEmail"@).len());
            assert("individualSsn"@ != "individualEmail"@);
            assert(("individualSsn"@).len() != ("individualResidenceAddress"@).len());
            assert("individualSsn"@ != "individualResidenceAddress"@);
            assert(("individualSsn"@).len() != ("individualGovernmentId"@).len());
            assert("individualSsn"@ != "individualGovernmentId"@);
            assert(("individualSsn"@).len() != ("individualDateOfBirth"@).len());
            assert("individualSsn"@ != "individualDateOfBirth"@);
            assert(spec_parse_profile_field_id("individualSsn"@) == Some(ProfileFieldId::IndividualSsn));
        },
        ProfileFieldId::IndividualSourceOfFunds => {
            reveal_strlit("individualLegalName");
            reveal_strlit("individualCellphoneNumber");
            reveal_strlit("individualEmail");
            reveal_strlit("individualResidenceAddress");
            reveal_strlit("individualGovernmentId");
            reveal_strlit("individualDateOfBirth");
            reveal_strlit("individualSsn");
            reveal_strlit("individualSourceOfFunds");
            assert(("individualSourceOfFunds"@).len() != ("individualLegalName"@).len());
            assert("individualSourceOfFunds"@ != "individualLegalName"@);
            assert(("individualSourceOfFunds"@).len() != ("individualCellphoneNumber"@).len());
            assert("individualSourceOfFunds"@ != "individualCellphoneNumber"@);
            assert(("individualSourceOfFunds"@).len() != ("individualEmail"@).len());
            assert("individualSourceOfFunds"@ != "individualEmail"@);
            assert(("individualSourceOfFunds"@).len() != ("individualResidenceAddress"@).len());
            assert("individualSourceOfFunds"@ != "individualResidenceAddress"@);
            assert(("individualSourceOfFunds"@).len() != ("individualGovernmentId"@).len());
            assert("individualSourceOfFunds"@ != "individualGovernmentId"@);
            assert(("individualSourceOfFunds"@).len() != ("individualDateOfBirth"@).len());
            assert("individualSourceOfFunds"@ != "individualDateOfBirth"@);
            assert(("individualSourceOfFunds"@).len() != ("individualSsn"@).len());
            assert("individualSourceOfFunds"@ != "individualSsn"@);
            assert(spec_parse_profile_field_id("individualSourceOfFunds"@) == Some(ProfileFieldId::IndividualSourceOfFunds));
        },
        ProfileFieldId::IndividualProofOfAddress => {
            reveal_strlit("individualLegalName");
            reveal_strlit("individualCellphoneNumber");
            reveal_strlit("individualEmail");
            reveal_strlit("individualResidenceAddress");
            reveal_strlit("individualGovernmentId");
            reveal_strlit("individualDateOfBirth");
            reveal_strlit("individualSsn");
            reveal_strlit("individualSourceOfFunds");
            reveal_strlit("individualProofOfAddress");
            assert(("individualProofOfAddress"@).len() != ("individualLegalName"@).len());
            assert("individualProofOfAddress"@ != "individualLegalName"@);
            assert(("individualProofOfAddress"@).len() != ("individualCellphoneNumber"@).len());
            assert("individualProofOfAddress"@ != "individualCellphoneNumber"@);
            assert(("individualProofOfAddress"@).len() != ("individualEmail"@).len());
            assert("individualProofOfAddress"@ != "individualEmail"@);
            assert(("individualProofOfAddress"@).len() != ("individualResidenceAddress"@).len());
            assert("individualProofOfAddress"@ != "individualResidenceAddress"@);
            assert(("individualProofOfAddress"@).len() != ("individualGovernmentId"@).len());
            assert("individualProofOfAddress"@ != "individualGovernmentId"@);
            assert(("individualProofOfAddress"@).len() != ("individualDateOfBirth"@).len());
            assert("individualProofOfAddress"@ != "individualDateOfBirth"@);
            assert(("individualProofOfAddress"@).len() != ("individualSsn"@).len());
            assert("individualProofOfAddress"@ != "individualSsn"@);
            assert(("individualProofOfAddress"@).len() != ("individualSourceOfFunds"@).len());
            assert("individualProofOfAddress"@ != "individualSourceOfFunds"@);
            assert(spec_parse_profile_field_id("individualProofOfAddress"@) == Some(ProfileFieldId::IndividualProofOfAddress));
        },
        ProfileFieldId::IndividualAchAuthorizationForm => {
            reveal_strlit("individualLegalName");
            reveal_strlit("individualCellphoneNumber");
            reveal_strlit("individualEmail");
            reveal_strlit("individualResidenceAddress");
            reveal_strlit("individualGovernmentId");
            reveal_strlit("individualDateOfBirth");
            reveal_strlit("individualSsn");
            reveal_strlit("individualSourceOfFunds");
            reveal_strlit("individualProofOfAddress");
            reveal_strlit("individualAchAuthorizationForm");
            assert(("individualAchAuthorizationForm"@).len() != ("individualLegalName"@).len());
            assert("individualAchAuthorizationForm"@ != "individualLegalName"@);
            assert(("individualAchAuthorizationForm"@).len() != ("individualCellphoneNumber"@).len());
            assert("individualAchAuthorizationForm"@ != "individualCellphoneNumber"@);
            assert(("individualAchAuthorizationForm"@).len() != ("individualEmail"@).len());
            assert("individualAchAuthorizationForm"@ != "individualEmail"@);
            assert(("individualAchAuthorizationForm"@).len() != ("individualResidenceAddress"@).len());
            assert("individualAchAuthorizationForm"@ != "individualResidenceAddress"@);
            assert(("individualAchAuthorizationForm"@).len() != ("individualGovernmentId"@).len());
            assert("individualAchAuthorizationForm"@ != "individualGovernmentId"@);
            assert(("individualAchAuthorizationForm"@).len() != ("individualDateOfBirth"@).len());
            assert("individualAchAuthorizationForm"@ != "individualDateOfBirth"@);
            assert(("individualAchAuthorizationForm"@).len() != ("individualSsn"@).len());
            assert("individualAchAuthorizationForm"@ != "individualSsn"@);
            assert(("individualAchAuthorizationForm"@).len() != ("individualSourceOfFunds"@).len());
            assert("individualAchAuthorizationForm"@ != "individualSourceOfFunds"@);
            assert(("individualAchAuthorizationForm"@).len() != ("individualProofOfAddress"@).len());
            assert("individualAchAuthorizationForm"@ != "individualProofOfAddress"@);
            assert(spec_parse_profile_field_id("individualAchAuthorizationForm"@) == Some(ProfileFieldId::IndividualAchAuthorizationForm));
        },
    }
}

/// Which side of an identity document an upload carries. Both sides are
/// required for two-sided document kinds.
#[derive(Debug, Copy, Clone, PartialEq, Eq, Structural)]
pub enum DocumentSubType {
    /// The front side of the document.
    Front,
    /// The back side of the document.
    Back,
}

/// The wire token of each `DocumentSubType`.
pub open spec fn document_sub_type_token(x: DocumentSubType) -> Seq<char> {
    match x {
        DocumentSubType::Front => "FRONT"@,
        DocumentSubType::Back => "BACK"@,
    }
}

/// The `DocumentSubType` selected by a wire token, if any.
pub open spec fn spec_parse_document_sub_type(s: Seq<char>) -> Option<DocumentSubType> {
    if s == "FRONT"@ {
        Some(DocumentSubType::Front)
    } else if s == "BACK"@ {
        Some(DocumentSubType::Back)
    } else {
        None
    }
}

impl DocumentSubType {
    /// Writes the wire token.
    pub fn token(&self) -> (r: String)
        ensures
            r@ == document_sub_type_token(*self),
    {
        match self {
            DocumentSubType::Front => String::from_str("FRONT"),
            DocumentSubType::Back => String::from_str("BACK"),
        }
    }

    /// Reads a wire token.
    pub fn from_token(s: &str) -> (r: Option<DocumentSubType>)
        ensures
            r == spec_parse_document_sub_type(s@),
    {
        if str_eq(s, "FRONT") {
            Some(DocumentSubType::Front)
        } else if str_eq(s, "BACK") {
            Some(DocumentSubType::Back)
        } else {
            None
        }
    }
}

/// Writing any `DocumentSubType` token and reading it back reproduces the value.
pub proof fn lemma_document_sub_type_round_trip(x: DocumentSubType)
    ensures
        spec_parse_document_sub_type(document_sub_type_token(x)) == Some(x),
{
    match x {
        DocumentSubType::Front => {
            reveal_strlit("FRONT");
            assert(spec_parse_document_sub_type("FRONT"@) == Some(DocumentSubType::Front));
        },
        DocumentSubType::Back => {
            reveal_strlit("FRONT");
            reveal_strlit("BACK");
            assert(("BACK"@).len() != ("FRONT"@).len());
            assert("BACK"@ != "FRONT"@);
            assert(spec_parse_document_sub_type("BACK"@) == Some(DocumentSubType::Back));
        },
    }
}


/// A representation of the underlying KYC data carried by a profile field:
/// a tagged union over seven value shapes. On the wire it travels as a
/// `fieldType` discriminator token beside a `value` payload whose shape
/// depends on the discriminator.
#[derive(Debug, Clone, PartialEq, Eq)]
pub enum ProfileFieldType {
    /// A basic string.
    String(Option<String>),
    /// A full cellphone number including country code (e.g. `+15554445555`).
    Cellphone(Option<String>),
    /// A correctly formatted email address.
    Email(Option<String>),
    /// An address object.
    Address(Option<Address>),
    /// A particular day, written `YYYY-MM-DD` (e.g. `1992-12-15`).
    Date(Option<String>),
    /// A binary document, uploaded separately; the server returns the list
    /// of document identifiers associated with the field.
    Document(Vec<String>),
    /// A payment-method record, referenced by its identifier.
    PaymentMethod(Option<String>),
}

/// The mathematical form of a `ProfileFieldType`.
pub enum ProfileFieldTypeView {
    /// See `ProfileFieldType::String`.
    String(Option<Seq<char>>),
    /// See `ProfileFieldType::Cellphone`.
    Cellphone(Option<Seq<char>>),
    /// See `ProfileFieldType::Email`.
    Email(Option<Seq<char>>),
    /// See `ProfileFieldType::Address`.
    Address(Option<AddressView>),
    /// See `ProfileFieldType::Date`.
    Date(Option<Seq<char>>),
    /// See `ProfileFieldType::Document`.
    Document(Seq<Seq<char>>),
    /// See `ProfileFieldType::PaymentMethod`.
    PaymentMethod(Option<Seq<char>>),
}

impl View for ProfileFieldType {
    type V = ProfileFieldTypeView;

    open spec fn view(&self) -> ProfileFieldTypeView {
        match self {
            ProfileFieldType::String(o) => ProfileFieldTypeView::String(crate::common::opt_text(*o)),
            ProfileFieldType::Cellphone(o) => ProfileFieldTypeView::Cellphone(
                crate::common::opt_text(*o),
            ),
            ProfileFieldType::Email(o) => ProfileFieldTypeView::Email(crate::common::opt_text(*o)),
            ProfileFieldType::Address(o) => ProfileFieldTypeView::Address(
                match o {
                    Some(a) => Some(a@),
                    None => None,
                },
            ),
            ProfileFieldType::Date(o) => ProfileFieldTypeView::Date(crate::common::opt_text(*o)),
            ProfileFieldType::Document(l) => ProfileFieldTypeView::Document(l.deep_view()),
            ProfileFieldType::PaymentMethod(o) => ProfileFieldTypeView::PaymentMethod(
                crate::common::opt_text(*o),
            ),
        }
    }
}

/// The `fieldType` discriminator token of each value kind.
pub open spec fn field_type_token(v: ProfileFieldTypeView) -> Seq<char> {
    match v {
        ProfileFieldTypeView::String(_) => "STRING"@,
        ProfileFieldTypeView::Cellphone(_) => "CELLPHONE"@,
        ProfileFieldTypeView::Email(_) => "EMAIL"@,
        ProfileFieldTypeView::Address(_) => "ADDRESS"@,
        ProfileFieldTypeView::Date(_) => "DATE"@,
        ProfileFieldTypeView::Document(_) => "DOCUMENT"@,
        ProfileFieldTypeView::PaymentMethod(_) => "PAYMENT_METHOD"@,
    }
}

/// The `value` payload each value kind writes beside its discriminator:
/// an absent option is null, a present one its text, an address its
/// object, a document list its list of identifiers.
pub open spec fn field_value_payload(v: ProfileFieldTypeView) -> FieldPayloadView {
    match v {
        ProfileFieldTypeView::String(None) => FieldPayloadView::Null,
        ProfileFieldTypeView::String(Some(s)) => FieldPayloadView::Text(s),
        ProfileFieldTypeView::Cellphone(None) => FieldPayloadView::Null,
        ProfileFieldTypeView::Cellphone(Some(s)) => FieldPayloadView::Text(s),
        ProfileFieldTypeView::Email(None) => FieldPayloadView::Null,
        ProfileFieldTypeView::Email(Some(s)) => FieldPayloadView::Text(s),
        ProfileFieldTypeView::Address(None) => FieldPayloadView::Null,
        ProfileFieldTypeView::Address(Some(a)) => FieldPayloadView::Structured(a),
        ProfileFieldTypeView::Date(None) => FieldPayloadView::Null,
        ProfileFieldTypeView::Date(Some(s)) => FieldPayloadView::Text(s),
        ProfileFieldTypeView::Document(l) => FieldPayloadView::List(l),
        ProfileFieldTypeView::PaymentMethod(None) => FieldPayloadView::Null,
        ProfileFieldTypeView::PaymentMethod(Some(s)) => FieldPayloadView::Text(s),
    }
}

/// What decoding a discriminator/payload pair yields: a value, or one of
/// the two failure classes.
pub enum FieldDecode {
    /// The pair is the encoding of this value.
    Value(ProfileFieldTypeView),
    /// The discriminator matches no known value kind: a protocol-version
    /// mismatch, never silently coerced to a default.
    Unrecognized,
    /// The discriminator is known but the payload has the wrong shape
    /// for it.
    Mismatched,
}

/// Decoding of the externally-tagged pair. A known discriminator accepts
/// null or the one payload shape it implies; an unknown discriminator is
/// rejected outright.
pub open spec fn spec_decode_field_value(token: Seq<char>, p: FieldPayloadView) -> FieldDecode {
    if token == "STRING"@ {
        match p {
            FieldPayloadView::Null => FieldDecode::Value(ProfileFieldTypeView::String(None)),
            FieldPayloadView::Text(s) => FieldDecode::Value(ProfileFieldTypeView::String(Some(s))),
            _ => FieldDecode::Mismatched,
        }
    } else if token == "CELLPHONE"@ {
        match p {
            FieldPayloadView::Null => FieldDecode::Value(ProfileFieldTypeView::Cellphone(None)),
            FieldPayloadView::Text(s) => FieldDecode::Value(
                ProfileFieldTypeView::Cellphone(Some(s)),
            ),
            _ => FieldDecode::Mismatched,
        }
    } else if token == "EMAIL"@ {
        match p {
            FieldPayloadView::Null => FieldDecode::Value(ProfileFieldTypeView::Email(None)),
            FieldPayloadView::Text(s) => FieldDecode::Value(ProfileFieldTypeView::Email(Some(s))),
            _ => FieldDecode::Mismatched,
        }
    } else if token == "ADDRESS"@ {
        match p {
            FieldPayloadView::Null => FieldDecode::Value(ProfileFieldTypeView::Address(None)),
            FieldPayloadView::Structured(a) => FieldDecode::Value(
                ProfileFieldTypeView::Address(Some(a)),
            ),
            _ => FieldDecode::Mismatched,
        }
    } else if token == "DATE"@ {
        match p {
            FieldPayloadView::Null => FieldDecode::Value(ProfileFieldTypeView::Date(None)),
            FieldPayloadView::Text(s) => FieldDecode::Value(ProfileFieldTypeView::Date(Some(s))),
            _ => FieldDecode::Mismatched,
        }
    } else if token == "DOCUMENT"@ {
        match p {
            FieldPayloadView::List(l) => FieldDecode::Value(ProfileFieldTypeView::Document(l)),
            _ => FieldDecode::Mismatched,
        }
    } else if token == "PAYMENT_METHOD"@ {
        match p {
            FieldPayloadView::Null => FieldDecode::Value(ProfileFieldTypeView::PaymentMethod(None)),
            FieldPayloadView::Text(s) => FieldDecode::Value(
                ProfileFieldTypeView::PaymentMethod(Some(s)),
            ),
            _ => FieldDecode::Mismatched,
        }
    } else {
        FieldDecode::Unrecognized
    }
}

/// Why a discriminator/payload pair failed to decode.
#[derive(Debug, Clone, PartialEq, Eq)]
pub enum FieldDecodeError {
    /// The `fieldType` discriminator matched no known value kind.
    UnrecognizedFieldType {
        /// The rejected discriminator token, unchanged.
        token: String,
    },
    /// The payload shape does not fit the discriminator.
    MismatchedValue {
        /// The discriminator whose payload was malformed.
        token: String,
    },
}

impl ProfileFieldType {
    /// Writes the value as its wire pair: the `fieldType` discriminator
    /// token and the `value` payload.
    pub fn encode(self) -> (r: (String, FieldPayload))
        ensures
            r.0@ == field_type_token(self@),
            r.1@ == field_value_payload(self@),
    {
        match self {
            ProfileFieldType::String(None) => (String::from_str("STRING"), FieldPayload::Null),
            ProfileFieldType::String(Some(s)) => (
                String::from_str("STRING"),
                FieldPayload::Text(s),
            ),
            ProfileFieldType::Cellphone(None) => (
                String::from_str("CELLPHONE"),
                FieldPayload::Null,
            ),
            ProfileFieldType::Cellphone(Some(s)) => (
                String::from_str("CELLPHONE"),
                FieldPayload::Text(s),
            ),
            ProfileFieldType::Email(None) => (String::from_str("EMAIL"), FieldPayload::Null),
            ProfileFieldType::Email(Some(s)) => (
                String::from_str("EMAIL"),
                FieldPayload::Text(s),
            ),
            ProfileFieldType::Address(None) => (String::from_str("ADDRESS"), FieldPayload::Null),
            ProfileFieldType::Address(Some(a)) => (
                String::from_str("ADDRESS"),
                FieldPayload::Structured(a),
            ),
            ProfileFieldType::Date(None) => (String::from_str("DATE"), FieldPayload::Null),
            ProfileFieldType::Date(Some(s)) => (String::from_str("DATE"), FieldPayload::Text(s)),
            ProfileFieldType::Document(l) => (
                String::from_str("DOCUMENT"),
                FieldPayload::List(l),
            ),
            ProfileFieldType::PaymentMethod(None) => (
                String::from_str("PAYMENT_METHOD"),
                FieldPayload::Null,
            ),
            ProfileFieldType::PaymentMethod(Some(s)) => (
                String::from_str("PAYMENT_METHOD"),
                FieldPayload::Text(s),
            ),
        }
    }

    /// Decodes a wire pair. An unknown discriminator fails with an
    /// unrecognized-field-type error rather than defaulting; a known
    /// discriminator over the wrong payload shape fails as mismatched.
    pub fn decode(token: &str, payload: FieldPayload) -> (r: Result<
        ProfileFieldType,
        FieldDecodeError,
    >)
        ensures
            match spec_decode_field_value(token@, payload@) {
                FieldDecode::Value(v) => (r matches Ok(x) && x@ == v),
                FieldDecode::Unrecognized => (r matches Err(
                    FieldDecodeError::UnrecognizedFieldType { token: t },
                ) && t@ == token@),
                FieldDecode::Mismatched => (r matches Err(FieldDecodeError::MismatchedValue {
                    token: t,
                }) && t@ == token@),
            },
    {
        if str_eq(token, "STRING") {
            match payload {
                FieldPayload::Null => Ok(ProfileFieldType::String(None)),
                FieldPayload::Text(s) => Ok(ProfileFieldType::String(Some(s))),
                _ => Err(FieldDecodeError::MismatchedValue { token: token.to_owned() }),
            }
        } else if str_eq(token, "CELLPHONE") {
            match payload {
                FieldPayload::Null => Ok(ProfileFieldType::Cellphone(None)),
                FieldPayload::Text(s) => Ok(ProfileFieldType::Cellphone(Some(s))),
                _ => Err(FieldDecodeError::MismatchedValue { token: token.to_owned() }),
            }
        } else if str_eq(token, "EMAIL") {
            match payload {
                FieldPayload::Null => Ok(ProfileFieldType::Email(None)),
                FieldPayload::Text(s) => Ok(ProfileFieldType::Email(Some(s))),
                _ => Err(FieldDecodeError::MismatchedValue { token: token.to_owned() }),
            }
        } else if str_eq(token, "ADDRESS") {
            match payload {
                FieldPayload::Null => Ok(ProfileFieldType::Address(None)),
                FieldPayload::Structured(a) => Ok(ProfileFieldType::Address(Some(a))),
                _ => Err(FieldDecodeError::MismatchedValue { token: token.to_owned() }),
            }
        } else if str_eq(token, "DATE") {
            match payload {
                FieldPayload::Null => Ok(ProfileFieldType::Date(None)),
                FieldPayload::Text(s) => Ok(ProfileFieldType::Date(Some(s))),
                _ => Err(FieldDecodeError::MismatchedValue { token: token.to_owned() }),
            }
        } else if str_eq(token, "DOCUMENT") {
            match payload {
                FieldPayload::List(l) => Ok(ProfileFieldType::Document(l)),
                _ => Err(FieldDecodeError::MismatchedValue { token: token.to_owned() }),
            }
        } else if str_eq(token, "PAYMENT_METHOD") {
            match payload {
                FieldPayload::Null => Ok(ProfileFieldType::PaymentMethod(None)),
                FieldPayload::Text(s) => Ok(ProfileFieldType::PaymentMethod(Some(s))),
                _ => Err(FieldDecodeError::MismatchedValue { token: token.to_owned() }),
            }
        } else {
            Err(FieldDecodeError::UnrecognizedFieldType { token: token.to_owned() })
        }
    }
}

/// Encoding any profile-field value as its discriminator/payload pair and
/// decoding the pair reproduces the value exactly.
pub proof fn lemma_field_value_round_trip(v: ProfileFieldTypeView)
    ensures
        spec_decode_field_value(field_type_token(v), field_value_payload(v)) == FieldDecode::Value(
            v,
        ),
{
    reveal_strlit("STRING");
    reveal_strlit("CELLPHONE");
    reveal_strlit("EMAIL");
    reveal_strlit("ADDRESS");
    reveal_strlit("DATE");
    reveal_strlit("DOCUMENT");
    reveal_strlit("PAYMENT_METHOD");
    assert(("STRING"@).len() == 6);
    assert(("CELLPHONE"@).len() == 9);
    assert(("EMAIL"@).len() == 5);
    assert(("ADDRESS"@).len() == 7);
    assert(("DATE"@).len() == 4);
    assert(("DOCUMENT"@).len() == 8);
    assert(("PAYMENT_METHOD"@).len() == 14);
}


/// One KYC datapoint of an account, with its verification state.
#[derive(Debug, Clone, PartialEq, Eq)]
pub struct ProfileField {
    /// The specific datapoint encapsulated by the field.
    pub field_id: ProfileFieldId,
    /// A representation of the underlying KYC data.
    pub value: ProfileFieldType,
    /// A message to the accountholder regarding the field.
    pub note: Option<String>,
    /// When the field was last updated.
    pub updated_t: Option<u64>,
    /// The current verification status of the field.
    pub status: ProfileFieldStatus,
}

/// One KYC datapoint submitted at account creation or update.
#[derive(Debug, Clone, PartialEq, Eq)]
pub struct CreateProfileField {
    /// The specific datapoint encapsulated by the field.
    pub field_id: ProfileFieldId,
    /// A representation of the underlying KYC data.
    pub value: ProfileFieldType,
}

/// The master (platform-owner) account, as returned whole by the server.
#[derive(Debug, Clone)]
pub struct MasterAccount {
    /// The account identifier.
    pub id: String,
    /// The account's own SRN, as raw text.
    pub srn: String,
    /// When the account was created, in epoch milliseconds.
    pub created_at: u64,
    /// When the account was last updated, if ever.
    pub updated_at: Option<u64>,
    /// When the account was deleted, if ever.
    pub deleted_at: Option<u64>,
    /// When the account was disabled, if ever.
    pub disabled_at: Option<u64>,
    /// When the account was locked, if ever.
    pub locked_at: Option<u64>,
    /// When the account went under review, if ever.
    pub under_review_at: Option<u64>,
    /// When the account entered review, if ever.
    pub in_review_at: Option<u64>,
    /// When compliance approved the account, if ever.
    pub compliance_approved_at: Option<u64>,
    /// The verification state of the account.
    pub status: AccountStatus,
    /// The owner's profile.
    pub profile: MasterAccountProfile,
    /// The payment methods attached to the account.
    pub payment_methods: Vec<crate::payment_method::PaymentMethod>,
    /// Cryptocurrency deposit addresses, per currency.
    pub deposit_addresses: HashMap<Currency, String>,
    /// The channel on which the server pushes notifications.
    pub pusher_channel: String,
    /// The owner's email address.
    pub email: String,
    /// Whether the account is verified.
    pub verified: bool,
    /// The raw account-kind tag.
    pub kind: String,
}

/// The profile half of the master account.
#[derive(Debug, Clone)]
pub struct MasterAccountProfile {
    /// The owner's first name.
    pub first_name: String,
    /// The owner's last name.
    pub last_name: String,
    /// The owner's language code.
    pub language: String,
    /// The owner's address.
    pub address: Address,
    /// Whether this is a business account.
    pub business_account: bool,
    /// Whether cellphone notifications are on.
    pub notify_cellphone: bool,
    /// Whether the onboarding dashboard has been completed.
    pub onboarding_dashboard_completed: bool,
    /// The currency the dashboard displays.
    pub display_currency: String,
    /// The raw profile-kind tag.
    pub kind: String,
    /// The business vertical.
    pub vertical: String,
    /// The owner's country code.
    pub country: String,
}

/// A sub-account with its balances and KYC fields, as the server returns it.
#[derive(Debug, Clone)]
pub struct Account {
    /// The account identifier.
    pub id: String,
    /// The verification state of the account.
    pub status: AccountStatus,
    /// The kind of account.
    pub kind: AccountType,
    /// The country of the account holder.
    pub country: String,
    /// When the account was created, in epoch milliseconds.
    pub created_at: u64,
    /// When the account was last updated, in epoch milliseconds.
    pub updated_at: u64,
    /// Cryptocurrency deposit addresses, per currency.
    pub deposit_addresses: HashMap<Currency, String>,
    /// Total balances, per currency.
    pub total_balances: HashMap<Currency, Amount>,
    /// Available balances, per currency.
    pub available_balances: HashMap<Currency, Amount>,
    /// The account's KYC fields.
    pub profile_fields: Vec<ProfileField>,
}

/// The request body that creates an account.
#[derive(Debug, Clone)]
pub struct CreateAccount {
    /// The type of account; only individual accounts are supported.
    pub kind: AccountType,
    /// The country of the account holder; for individuals, the country
    /// of residence.
    pub country: String,
    /// The KYC fields submitted at creation time; as many or as few as
    /// needed.
    pub profile_fields: Vec<CreateProfileField>,
    /// The account that referred this one, for noncustodial accounts.
    pub referrer_account_id: Option<String>,
    /// When true, the new account is a custodial subaccount owned by the
    /// caller; otherwise a standalone account. Defaults to true.
    pub subaccount: Option<bool>,
    /// When true, prevents all outbound emails to the account. Defaults
    /// to false.
    pub disable_email: Option<bool>,
}

/// The request body that updates an account's KYC fields.
#[derive(Debug, Clone)]
pub struct UpdateAccount {
    /// The fields to submit, with their values.
    pub profile_fields: Vec<CreateProfileField>,
}

/// A binary identity-document upload. The document body travels raw, with
/// an explicit content type; there is no chunking, and the size cap is
/// enforced server-side only.
#[derive(Debug, Clone)]
pub struct UploadDocument<D> {
    /// The field the uploaded document belongs to; only document-kind
    /// fields accept an upload.
    pub field_id: ProfileFieldId,
    /// The kind of identity document, for government-identity fields.
    pub document_type: Option<DocumentType>,
    /// Which side of the document this upload carries; two-sided kinds
    /// need both.
    pub document_sub_type: Option<DocumentSubType>,
    /// The document body to upload.
    pub document: D,
    /// The content type of the document, e.g. `image/jpeg`.
    pub content_type: String,
}

} // verus!
