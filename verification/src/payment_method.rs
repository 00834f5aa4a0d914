use vstd::prelude::*;

use crate::currency::Currency;
use crate::srn::SystemResourceName;
use crate::text::str_eq;

verus! {

/// The lifecycle state of a payment method, as the server last reported
/// it. No further transitions are modeled client-side.
#[derive(Debug, Copy, Clone, PartialEq, Eq, Structural)]
pub enum PaymentMethodStatus {
    /// The payment method has not been activated and is pending review
    /// server-side. No user action is required.
    Pending,
    /// The payment method requires additional information from the user
    /// before being useful, e.g. a still-missing bank statement.
    AwaitingFollowup,
    /// The payment method is active and ready for use.
    Active,
    /// The payment method has been rejected and cannot be used.
    Rejected,
}

/// The wire token of each `PaymentMethodStatus`.
pub open spec fn payment_method_status_token(x: PaymentMethodStatus) -> Seq<char> {
    match x {
        PaymentMethodStatus::Pending => "PENDING"@,
        PaymentMethodStatus::AwaitingFollowup => "AWAITING_FOLLOWUP"@,
        PaymentMethodStatus::Active => "ACTIVE"@,
        PaymentMethodStatus::Rejected => "REJECTED"@,
    }
}

/// The `PaymentMethodStatus` selected by a wire token, if any.
pub open spec fn spec_parse_payment_method_status(s: Seq<char>) -> Option<PaymentMethodStatus> {
    if s == "PENDING"@ {
        Some(PaymentMethodStatus::Pending)
    } else if s == "AWAITING_FOLLOWUP"@ {
        Some(PaymentMethodStatus::AwaitingFollowup)
    } else if s == "ACTIVE"@ {
        Some(PaymentMethodStatus::Active)
    } else if s == "REJECTED"@ {
        Some(PaymentMethodStatus::Rejected)
    } else {
        None
    }
}

impl PaymentMethodStatus {
    /// Writes the wire token.
    pub fn token(&self) -> (r: String)
        ensures
            r@ == payment_method_status_token(*self),
    {
        match self {
            PaymentMethodStatus::Pending => String::from_str("PENDING"),
            PaymentMethodStatus::AwaitingFollowup => String::from_str("AWAITING_FOLLOWUP"),
            PaymentMethodStatus::Active => String::from_str("ACTIVE"),
            PaymentMethodStatus::Rejected => String::from_str("REJECTED"),
        }
    }

    /// Reads a wire token.
    pub fn from_token(s: &str) -> (r: Option<PaymentMethodStatus>)
        ensures
            r == spec_parse_payment_method_status(s@),
    {
        if str_eq(s, "PENDING") {
            Some(PaymentMethodStatus::Pending)
        } else if str_eq(s, "AWAITING_FOLLOWUP") {
            Some(PaymentMethodStatus::AwaitingFollowup)
        } else if str_eq(s, "ACTIVE") {
            Some(PaymentMethodStatus::Active)
        } else if str_eq(s, "REJECTED") {
            Some(PaymentMethodStatus::Rejected)
        } else {
            None
        }
    }
}

/// Writing any `PaymentMethodStatus` token and reading it back reproduces the value.
pub proof fn lemma_payment_method_status_round_trip(x: PaymentMethodStatus)
    ensures
        spec_parse_payment_method_status(payment_method_status_token(x)) == Some(x),
{
    match x {
        PaymentMethodStatus::Pending => {
            reveal_strlit("PENDING");
            assert(spec_parse_payment_method_status("PENDING"@) == Some(PaymentMethodStatus::Pending));
        },
        PaymentMethodStatus::AwaitingFollowup => {
            reveal_strlit("PENDING");
            reveal_strlit("AWAITING_FOLLOWUP");
            assert(("AWAITING_FOLLOWUP"@).len() != ("PENDING"@).len());
            assert("AWAITING_FOLLOWUP"@ != "PENDING"@);
            assert(spec_parse_payment_method_status("AWAITING_FOLLOWUP"@) == Some(PaymentMethodStatus::AwaitingFollowup));
        },
        PaymentMethodStatus::Active => {
            reveal_strlit("PENDING");
            reveal_strlit("AWAITING_FOLLOWUP");
            reveal_strlit("ACTIVE");
            assert(("ACTIVE"@).len() != ("PENDING"@).len());
            assert("ACTIVE"@ != "PENDING"@);
            assert(("ACTIVE"@).len() != ("AWAITING_FOLLOWUP"@).len());
            assert("ACTIVE"@ != "AWAITING_FOLLOWUP"@);
            assert(spec_parse_payment_method_status("ACTIVE"@) == Some(PaymentMethodStatus::Active));
        },
        PaymentMethodStatus::Rejected => {
            reveal_strlit("PENDING");
            reveal_strlit("AWAITING_FOLLOWUP");
            reveal_strlit("ACTIVE");
            reveal_strlit("REJECTED");
            assert(("REJECTED"@).len() != ("PENDING"@).len());
            assert("REJECTED"@ != "PENDING"@);
            assert(("REJECTED"@).len() != ("AWAITING_FOLLOWUP"@).len());
            assert("REJECTED"@ != "AWAITING_FOLLOWUP"@);
            assert(("REJECTED"@).len() != ("ACTIVE"@).len());
            assert("REJECTED"@ != "ACTIVE"@);
            assert(spec_parse_payment_method_status("REJECTED"@) == Some(PaymentMethodStatus::Rejected));
        },
    }
}

/// The kind of payment method being created.
#[derive(Debug, Copy, Clone, PartialEq, Eq, Structural)]
pub enum PaymentMethodType {
    /// Wire transfer.
    WireTransfer,
    /// Transfer using the local banking system; in the US, an ACH
    /// payment.
    LocalTransfer,
}

/// The wire token of each `PaymentMethodType`.
pub open spec fn payment_method_type_token(x: PaymentMethodType) -> Seq<char> {
    match x {
        PaymentMethodType::WireTransfer => "WIRE_TRANSFER"@,
        PaymentMethodType::LocalTransfer => "LOCAL_TRANSFER"@,
    }
}

/// The `PaymentMethodType` selected by a wire token, if any.
pub open spec fn spec_parse_payment_method_type(s: Seq<char>) -> Option<PaymentMethodType> {
    if s == "WIRE_TRANSFER"@ {
        Some(PaymentMethodType::WireTransfer)
    } else if s == "LOCAL_TRANSFER"@ {
        Some(PaymentMethodType::LocalTransfer)
    } else {
        None
    }
}

impl PaymentMethodType {
    /// Writes the wire token.
    pub fn token(&self) -> (r: String)
        ensures
            r@ == payment_method_type_token(*self),
    {
        match self {
            PaymentMethodType::WireTransfer => String::from_str("WIRE_TRANSFER"),
            PaymentMethodType::LocalTransfer => String::from_str("LOCAL_TRANSFER"),
        }
    }

    /// Reads a wire token.
    pub fn from_token(s: &str) -> (r: Option<PaymentMethodType>)
        ensures
            r == spec_parse_payment_method_type(s@),
    {
        if str_eq(s, "WIRE_TRANSFER") {
            Some(PaymentMethodType::WireTransfer)
        } else if str_eq(s, "LOCAL_TRANSFER") {
            Some(PaymentMethodType::LocalTransfer)
        } else {
            None
        }
    }
}

/// Writing any `PaymentMethodType` token and reading it back reproduces the value.
pub proof fn lemma_payment_method_type_round_trip(x: PaymentMethodType)
    ensures
        spec_parse_payment_method_type(payment_method_type_token(x)) == Some(x),
{
    match x {
        PaymentMethodType::WireTransfer => {
            reveal_strlit("WIRE_TRANSFER");
            assert(spec_parse_payment_method_type("WIRE_TRANSFER"@) == Some(PaymentMethodType::WireTransfer));
        },
        PaymentMethodType::LocalTransfer => {
            reveal_strlit("WIRE_TRANSFER");
            reveal_strlit("LOCAL_TRANSFER");
            assert(("LOCAL_TRANSFER"@).len() != ("WIRE_TRANSFER"@).len());
            assert("LOCAL_TRANSFER"@ != "WIRE_TRANSFER"@);
            assert(spec_parse_payment_method_type("LOCAL_TRANSFER"@) == Some(PaymentMethodType::LocalTransfer));
        },
    }
}

/// The countries in which an ACH payment method can be created; only the
/// United States is supported.
#[derive(Debug, Copy, Clone, PartialEq, Eq, Structural)]
pub enum AchPaymentMethodCountry {
    /// United States.
    US,
}

/// The wire token of each `AchPaymentMethodCountry`.
pub open spec fn ach_payment_method_country_token(x: AchPaymentMethodCountry) -> Seq<char> {
    match x {
        AchPaymentMethodCountry::US => "US"@,
    }
}

/// The `AchPaymentMethodCountry` selected by a wire token, if any.
pub open spec fn spec_parse_ach_payment_method_country(s: Seq<char>) -> Option<AchPaymentMethodCountry> {
    if s == "US"@ {
        Some(AchPaymentMethodCountry::US)
    } else {
        None
    }
}

impl AchPaymentMethodCountry {
    /// Writes the wire token.
    pub fn token(&self) -> (r: String)
        ensures
            r@ == ach_payment_method_country_token(*self),
    {
        match self {
            AchPaymentMethodCountry::US => String::from_str("US"),
        }
    }

    /// Reads a wire token.
    pub fn from_token(s: &str) -> (r: Option<AchPaymentMethodCountry>)
        ensures
            r == spec_parse_ach_payment_method_country(s@),
    {
        if str_eq(s, "US") {
            Some(AchPaymentMethodCountry::US)
        } else {
            None
        }
    }
}

/// The request body that creates an ACH payment method from a processor
/// token.
#[derive(Debug, Clone)]
pub struct CreateAchPaymentMethod {
    /// A processor token minted by the account-aggregation provider for
    /// this bank account.
    pub plaid_processor_token: String,
    /// The kind of payment method; only local transfer is supported here.
    pub payment_method_type: PaymentMethodType,
    /// The country of the bank account; only the US is supported.
    pub country: AchPaymentMethodCountry,
}

/// A payment method, as the server returns it.
#[derive(Debug, Clone)]
pub struct PaymentMethod {
    /// The payment-method identifier.
    pub id: String,
    /// The SRN of the owning account or user.
    pub owner: SystemResourceName,
    /// When the payment method was created, in epoch milliseconds.
    pub created_at: u64,
    /// A human-readable name.
    pub name: String,
    /// The currency the payment method settles in by default.
    pub default_currency: Currency,
    /// The lifecycle state.
    pub status: PaymentMethodStatus,
    /// The raw link-type tag.
    pub link_type: String,
    /// The raw beneficiary-type tag.
    pub beneficiary_type: String,
    /// Whether deposits are supported, when reported.
    pub supports_deposits: Option<bool>,
    /// The last four digits of the account number.
    pub last4_digits: String,
    /// The card or bank brand, when reported.
    pub brand: Option<String>,
    /// The country code of the account.
    pub country_code: String,
    /// Whether the payment method is disabled.
    pub disabled: bool,
    /// Whether payments can be charged to it.
    pub supports_payment: bool,
    /// The currencies that can be charged.
    pub chargeable_currencies: Vec<Currency>,
    /// The currencies that can be deposited.
    pub depositable_currencies: Vec<Currency>,
    /// The payment method's own SRN.
    pub srn: SystemResourceName,
}

/// One page of the payment-method listing, with its paging counts.
#[derive(Debug, Clone)]
pub struct PaymentMethodList {
    /// The payment methods on this page.
    pub data: Vec<PaymentMethod>,
    /// How many records exist in all.
    pub records_total: usize,
    /// The offset of this page.
    pub position: usize,
    /// How many records the filter matched.
    pub records_filtered: usize,
}

} // verus!
