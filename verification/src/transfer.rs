use vstd::prelude::*;

use std::collections::HashMap;

use crate::amount::Amount;
use crate::currency::Currency;
use crate::text::str_eq;

verus! {

/// The lifecycle state of a transfer, as the server last reported it.
/// All transitions are server-driven; the client only decodes the state.
#[derive(Debug, Copy, Clone, PartialEq, Eq, Structural)]
pub enum TransferStatus {
    /// A quote-only transfer: it cannot be confirmed and funds never
    /// move on it.
    Preview,
    /// A transfer with a valid quote, the initial state of a newly
    /// created transfer. It must be confirmed within the server's
    /// confirmation window or it expires.
    Unconfirmed,
    /// The server is moving the money to its destination; no further
    /// action is required.
    Pending,
    /// The transfer executed and the funds were confirmed at the
    /// destination.
    Completed,
    /// An unconfirmed transfer that outlived its confirmation window.
    Expired,
    /// The transfer could not be completed.
    Failed,
    /// The transfer was reversed at a later time, as can happen with
    /// ACH payouts.
    Reversed,
}

/// The wire token of each `TransferStatus`.
pub open spec fn transfer_status_token(x: TransferStatus) -> Seq<char> {
    match x {
        TransferStatus::Preview => "PREVIEW"@,
        TransferStatus::Unconfirmed => "UNCONFIRMED"@,
        TransferStatus::Pending => "PENDING"@,
        TransferStatus::Completed => "COMPLETED"@,
        TransferStatus::Expired => "EXPIRED"@,
        TransferStatus::Failed => "FAILED"@,
        TransferStatus::Reversed => "REVERSED"@,
    }
}

/// The `TransferStatus` selected by a wire token, if any.
pub open spec fn spec_parse_transfer_status(s: Seq<char>) -> Option<TransferStatus> {
    if s == "PREVIEW"@ {
        Some(TransferStatus::Preview)
    } else if s == "UNCONFIRMED"@ {
        Some(TransferStatus::Unconfirmed)
    } else if s == "PENDING"@ {
        Some(TransferStatus::Pending)
    } else if s == "COMPLETED"@ {
        Some(TransferStatus::Completed)
    } else if s == "EXPIRED"@ {
        Some(TransferStatus::Expired)
    } else if s == "FAILED"@ {
        Some(TransferStatus::Failed)
    } else if s == "REVERSED"@ {
        Some(TransferStatus::Reversed)
    } else {
        None
    }
}

impl TransferStatus {
    /// Writes the wire token.
    pub fn token(&self) -> (r: String)
        ensures
            r@ == transfer_status_token(*self),
    {
        match self {
            TransferStatus::Preview => String::from_str("PREVIEW"),
            TransferStatus::Unconfirmed => String::from_str("UNCONFIRMED"),
            TransferStatus::Pending => String::from_str("PENDING"),
            TransferStatus::Completed => String::from_str("COMPLETED"),
            TransferStatus::Expired => String::from_str("EXPIRED"),
            TransferStatus::Failed => String::from_str("FAILED"),
            TransferStatus::Reversed => String::from_str("REVERSED"),
        }
    }

    /// Reads a wire token.
    pub fn from_token(s: &str) -> (r: Option<TransferStatus>)
        ensures
            r == spec_parse_transfer_status(s@),
    {
        if str_eq(s, "PREVIEW") {
            Some(TransferStatus::Preview)
        } else if str_eq(s, "UNCONFIRMED") {
            Some(TransferStatus::Unconfirmed)
        } else if str_eq(s, "PENDING") {
            Some(TransferStatus::Pending)
        } else if str_eq(s, "COMPLETED") {
            Some(TransferStatus::Completed)
        } else if str_eq(s, "EXPIRED") {
            Some(TransferStatus::Expired)
        } else if str_eq(s, "FAILED") {
            Some(TransferStatus::Failed)
        } else if str_eq(s, "REVERSED") {
            Some(TransferStatus::Reversed)
        } else {
            None
        }
    }
}

/// Writing any `TransferStatus` token and reading it back reproduces the value.
pub proof fn lemma_transfer_status_round_trip(x: TransferStatus)
    ensures
        spec_parse_transfer_status(transfer_status_token(x)) == Some(x),
{
    match x {
        TransferStatus::Preview => {
            reveal_strlit("PREVIEW");
            assert(spec_parse_transfer_status("PREVIEW"@) == Some(TransferStatus::Preview));
        },
        TransferStatus::Unconfirmed => {
            reveal_strlit("PREVIEW");
            reveal_strlit("UNCONFIRMED");
            assert(("UNCONFIRMED"@).len() != ("PREVIEW"@).len());
            assert("UNCONFIRMED"@ != "PREVIEW"@);
            assert(spec_parse_transfer_status("UNCONFIRMED"@) == Some(TransferStatus::Unconfirmed));
        },
        TransferStatus::Pending => {
            reveal_strlit("PREVIEW");
            reveal_strlit("UNCONFIRMED");
            reveal_strlit("PENDING");
            assert(("PENDING"@)[1] != ("PREVIEW"@)[1]);
            assert("PENDING"@ != "PREVIEW"@);
            assert(("PENDING"@).len() != ("UNCONFIRMED"@).len());
            assert("PENDING"@ != "UNCONFIRMED"@);
            assert(spec_parse_transfer_status("PENDING"@) == Some(TransferStatus::Pending));
        },
        TransferStatus::Completed => {
            reveal_strlit("PREVIEW");
            reveal_strlit("UNCONFIRMED");
            reveal_strlit("PENDING");
            reveal_strlit("COMPLETED");
            assert(("COMPLETED"@).len() != ("PREVIEW"@).len());
            assert("COMPLETED"@ != "PREVIEW"@);
            assert(("COMPLETED"@).len() != ("UNCONFIRMED"@).len());
            assert("COMPLETED"@ != "UNCONFIRMED"@);
            assert(("COMPLETED"@).len() != ("PENDING"@).len());
            assert("COMPLETED"@ != "PENDING"@);
            assert(spec_parse_transfer_status("COMPLETED"@) == Some(TransferStatus::Completed));
        },
        TransferStatus::Expired => {
            reveal_strlit("PREVIEW");
            reveal_strlit("UNCONFIRMED");
            reveal_strlit("PENDING");
            reveal_strlit("COMPLETED");
            reveal_strlit("EXPIRED");
            assert(("EXPIRED"@)[0] != ("PREVIEW"@)[0]);
            assert("EXPIRED"@ != "PREVIEW"@);
            assert(("EXPIRED"@).len() != ("UNCONFIRMED"@).len());
            assert("EXPIRED"@ != "UNCONFIRMED"@);
            assert(("EXPIRED"@)[0] != ("PENDING"@)[0]);
            assert("EXPIRED"@ != "PENDING"@);
            assert(("EXPIRED"@).len() != ("COMPLETED"@).len());
            assert("EXPIRED"@ != "COMPLETED"@);
            assert(spec_parse_transfer_status("EXPIRED"@) == Some(TransferStatus::Expired));
        },
        TransferStatus::Failed => {
            reveal_strlit("PREVIEW");
            reveal_strlit("UNCONFIRMED");
            reveal_strlit("PENDING");
            reveal_strlit("COMPLETED");
            reveal_strlit("EXPIRED");
            reveal_strlit("FAILED");
            assert(("FAILED"@).len() != ("PREVIEW"@).len());
            assert("FAILED"@ != "PREVIEW"@);
            assert(("FAILED"@).len() != ("UNCONFIRMED"@).len());
            assert("FAILED"@ != "UNCONFIRMED"@);
            assert(("FAILED"@).len() != ("PENDING"@).len());
            assert("FAILED"@ != "PENDING"@);
            assert(("FAILED"@).len() != ("COMPLETED"@).len());
            assert("FAILED"@ != "COMPLETED"@);
            assert(("FAILED"@).len() != ("EXPIRED"@).len());
            assert("FAILED"@ != "EXPIRED"@);
            assert(spec_parse_transfer_status("FAILED"@) == Some(TransferStatus::Failed));
        },
        TransferStatus::Reversed => {
            reveal_strlit("PREVIEW");
            reveal_strlit("UNCONFIRMED");
            reveal_strlit("PENDING");
            reveal_strlit("COMPLETED");
            reveal_strlit("EXPIRED");
            reveal_strlit("FAILED");
            reveal_strlit("REVERSED");
            assert(("REVERSED"@).len() != ("PREVIEW"@).len());
            assert("REVERSED"@ != "PREVIEW"@);
            assert(("REVERSED"@).len() != ("UNCONFIRMED"@).len());
            assert("REVERSED"@ != "UNCONFIRMED"@);
            assert(("REVERSED"@).len() != ("PENDING"@).len());
            assert("REVERSED"@ != "PENDING"@);
            assert(("REVERSED"@).len() != ("COMPLETED"@).len());
            assert("REVERSED"@ != "COMPLETED"@);
            assert(("REVERSED"@).len() != ("EXPIRED"@).len());
            assert("REVERSED"@ != "EXPIRED"@);
            assert(("REVERSED"@).len() != ("FAILED"@).len());
            assert("REVERSED"@ != "FAILED"@);
            assert(spec_parse_transfer_status("REVERSED"@) == Some(TransferStatus::Reversed));
        },
    }
}

impl Default for TransferStatus {
    /// A transfer whose status has not been reported is taken as pending.
    fn default() -> (r: TransferStatus)
        ensures
            r == TransferStatus::Pending,
    {
        TransferStatus::Pending
    }
}

/// The request body that creates a transfer. Exactly one of the source
/// and destination amounts should be given.
#[derive(Debug, Clone)]
pub struct CreateTransfer {
    /// An SRN, in textual form, naming where the funds are retrieved from.
    pub source: String,
    /// The amount to withdraw from the source, in units of the source
    /// currency. Give this or the destination amount, not both.
    pub source_amount: Option<Amount>,
    /// The currency to withdraw from the source wallet.
    pub source_currency: Currency,
    /// An SRN, in textual form, naming where the funds go: an email
    /// address, cellphone number, digital-currency address or bank
    /// account.
    pub dest: String,
    /// The total amount to deposit, in units of the destination currency.
    /// Give this or the source amount, not both.
    pub dest_amount: Option<Amount>,
    /// The currency to deposit; when absent, the withdrawal currency is
    /// used and no exchange is performed.
    pub dest_currency: Option<Currency>,
    /// An optional user-visible message sent with the transaction.
    pub message: Option<String>,
    /// An optional URL the server posts a status callback to.
    pub notify_url: Option<String>,
    /// When true, the transfer order confirms automatically.
    pub auto_confirm: Option<bool>,
    /// An optional custom tag for the transfer.
    pub custom_id: Option<String>,
    /// When true, the amount given is treated as already including fees.
    pub amount_includes_fees: Option<bool>,
    /// When true, creates a quote-only transfer that never executes.
    pub preview: Option<bool>,
    /// When true, disables outbound messages to the destination.
    pub mute_messages: Option<bool>,
}

/// A transfer, as the server returns it. Every monetary quantity is an
/// exact decimal: no digit is lost to floating point.
#[derive(Debug, Clone)]
pub struct Transfer {
    /// The transfer identifier.
    pub id: String,
    /// The SRN text of the owner.
    pub owner: String,
    /// The SRN text of the source.
    pub source: String,
    /// The amount withdrawn from the source.
    pub source_amount: Amount,
    /// The currency withdrawn.
    pub source_currency: Currency,
    /// The SRN text of the destination.
    pub dest: String,
    /// The amount deposited at the destination.
    pub dest_amount: Amount,
    /// The currency deposited.
    pub dest_currency: Currency,
    /// The lifecycle state.
    pub status: TransferStatus,
    /// A finer-grained pending sub-state, when reported.
    pub pending_sub_status: Option<String>,
    /// When the transfer completed, if it has.
    pub completed_at: Option<u64>,
    /// When the transfer was last updated, if ever.
    pub updated_at: Option<u64>,
    /// When the transfer was cancelled, if it was.
    pub cancelled_at: Option<u64>,
    /// When the confirmation window closes, if one is open.
    pub expires_at: Option<u64>,
    /// The exchange rate applied, as an exact decimal, when reported.
    pub exchange_rate: Option<Amount>,
    /// The fees charged, per currency.
    pub fees: HashMap<Currency, Amount>,
    /// The total fees charged, as an exact decimal.
    pub total_fees: Amount,
    /// The user-visible message sent with the transaction, if any.
    pub message: Option<String>,
    /// The custom tag, if any.
    pub custom_id: Option<String>,
}

} // verus!
