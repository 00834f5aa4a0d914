use vstd::prelude::*;

use crate::srn::SystemResourceName;
use crate::text::str_eq;

verus! {

/// A postal address. Every field is optional; the server decides which
/// are required for a given KYC purpose.
#[derive(Debug, Clone, PartialEq, Eq)]
pub struct Address {
    /// A valid street address
    pub street1: Option<String>,
    /// Additional street address
    pub street2: Option<String>,
    /// The city name
    pub city: Option<String>,
    /// A valid state code, two uppercase letters, e.g. `CA`
    pub state: Option<String>,
    /// A valid US zipcode
    pub postal_code: Option<String>,
    /// The country code (alpha-2 country code)
    pub country: Option<String>,
}

/// The text of an optional string, when present.
pub open spec fn opt_text(o: Option<String>) -> Option<Seq<char>> {
    match o {
        Some(s) => Some(s@),
        None => None,
    }
}

/// The mathematical form of an `Address`.
pub struct AddressView {
    /// See `Address::street1`.
    pub street1: Option<Seq<char>>,
    /// See `Address::street2`.
    pub street2: Option<Seq<char>>,
    /// See `Address::city`.
    pub city: Option<Seq<char>>,
    /// See `Address::state`.
    pub state: Option<Seq<char>>,
    /// See `Address::postal_code`.
    pub postal_code: Option<Seq<char>>,
    /// See `Address::country`.
    pub country: Option<Seq<char>>,
}

impl View for Address {
    type V = AddressView;

    open spec fn view(&self) -> AddressView {
        AddressView {
            street1: opt_text(self.street1),
            street2: opt_text(self.street2),
            city: opt_text(self.city),
            state: opt_text(self.state),
            postal_code: opt_text(self.postal_code),
            country: opt_text(self.country),
        }
    }
}

/// The binary document kinds accepted for an identity-document upload.
#[derive(Debug, Copy, Clone, PartialEq, Eq, Structural)]
pub enum DocumentType {
    /// A government-issued identity document
    GovtId,
    /// A driving license
    DrivingLicense,
    /// A passport card
    PassportCard,
    /// A passport
    Passport,
}

/// The wire token of each document kind.
pub open spec fn document_type_token(d: DocumentType) -> Seq<char> {
    match d {
        DocumentType::GovtId => "GOVT_ID"@,
        DocumentType::DrivingLicense => "DRIVING_LICENSE"@,
        DocumentType::PassportCard => "PASSPORT_CARD"@,
        DocumentType::Passport => "PASSPORT"@,
    }
}

impl DocumentType {
    /// Writes the document kind's wire token.
    pub fn token(&self) -> (r: String)
        ensures
            r@ == document_type_token(*self),
    {
        match self {
            DocumentType::GovtId => String::from_str("GOVT_ID"),
            DocumentType::DrivingLicense => String::from_str("DRIVING_LICENSE"),
            DocumentType::PassportCard => String::from_str("PASSPORT_CARD"),
            DocumentType::Passport => String::from_str("PASSPORT"),
        }
    }
}

/// A webhook notification that names the entity which changed without
/// carrying the entity itself.
#[derive(Debug, Clone, PartialEq, Eq)]
pub struct MetadataCallbackPayload {
    /// A unique identifier for this webhook subscription
    pub subscription_id: String,
    /// An SRN for the entity that the callback was designated for
    pub trigger: SystemResourceName,
}

/// A webhook callback payload: either the updated entity itself, or only
/// the metadata naming it.
#[derive(Debug, Clone)]
pub enum CallbackPayload<T> {
    /// The metadata of the subscription
    Metadata(MetadataCallbackPayload),
    /// The updated entity
    Data(T),
}

/// The payload half of a KYC field value, as it stands on the wire beside
/// (or without) its discriminator: nothing, a piece of text, a structured
/// address, or a list of document identifiers.
#[derive(Debug, Clone, PartialEq, Eq)]
pub enum FieldPayload {
    /// An absent value (JSON null).
    Null,
    /// A bare piece of text.
    Text(String),
    /// A structured address object.
    Structured(Address),
    /// A list of document identifiers.
    List(Vec<String>),
}

/// The mathematical form of a `FieldPayload`.
pub enum FieldPayloadView {
    /// See `FieldPayload::Null`.
    Null,
    /// See `FieldPayload::Text`.
    Text(Seq<char>),
    /// See `FieldPayload::Structured`.
    Structured(AddressView),
    /// See `FieldPayload::List`.
    List(Seq<Seq<char>>),
}

impl View for FieldPayload {
    type V = FieldPayloadView;

    open spec fn view(&self) -> FieldPayloadView {
        match self {
            FieldPayload::Null => FieldPayloadView::Null,
            FieldPayload::Text(s) => FieldPayloadView::Text(s@),
            FieldPayload::Structured(a) => FieldPayloadView::Structured(a@),
            FieldPayload::List(l) => FieldPayloadView::List(l.deep_view()),
        }
    }
}

/// Copies an optional string, field for field.
pub fn clone_opt_string(o: &Option<String>) -> (r: Option<String>)
    ensures
        opt_text(r) == opt_text(*o),
{
    match o {
        Some(s) => Some(s.clone()),
        None => None,
    }
}

impl Address {
    /// Copies the address, field for field.
    pub fn clone_fields(&self) -> (r: Address)
        ensures
            r@ == self@,
    {
        Address {
            street1: clone_opt_string(&self.street1),
            street2: clone_opt_string(&self.street2),
            city: clone_opt_string(&self.city),
            state: clone_opt_string(&self.state),
            postal_code: clone_opt_string(&self.postal_code),
            country: clone_opt_string(&self.country),
        }
    }
}

/// The document kind named by a wire token, if any.
pub open spec fn spec_parse_document_type(s: Seq<char>) -> Option<DocumentType> {
    if s == "GOVT_ID"@ {
        Some(DocumentType::GovtId)
    } else if s == "DRIVING_LICENSE"@ {
        Some(DocumentType::DrivingLicense)
    } else if s == "PASSPORT_CARD"@ {
        Some(DocumentType::PassportCard)
    } else if s == "PASSPORT"@ {
        Some(DocumentType::Passport)
    } else {
        None
    }
}

impl DocumentType {
    /// Reads a document-kind wire token.
    pub fn from_token(s: &str) -> (r: Option<DocumentType>)
        ensures
            r == spec_parse_document_type(s@),
    {
        if str_eq(s, "GOVT_ID") {
            Some(DocumentType::GovtId)
        } else if str_eq(s, "DRIVING_LICENSE") {
            Some(DocumentType::DrivingLicense)
        } else if str_eq(s, "PASSPORT_CARD") {
            Some(DocumentType::PassportCard)
        } else if str_eq(s, "PASSPORT") {
            Some(DocumentType::Passport)
        } else {
            None
        }
    }
}

/// Writing any document kind's token and reading it back reproduces the
/// kind.
pub proof fn lemma_document_type_round_trip(d: DocumentType)
    ensures
        spec_parse_document_type(document_type_token(d)) == Some(d),
{
    reveal_strlit("GOVT_ID");
    reveal_strlit("DRIVING_LICENSE");
    reveal_strlit("PASSPORT_CARD");
    reveal_strlit("PASSPORT");
    assert(("GOVT_ID"@).len() == 7);
    assert(("DRIVING_LICENSE"@).len() == 15);
    assert(("PASSPORT_CARD"@).len() == 13);
    assert(("PASSPORT"@).len() == 8);
}

} // verus!
