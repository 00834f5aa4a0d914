use vstd::prelude::*;

use crate::text::{find_char, lemma_find_char_hit, lemma_find_char_miss, str_eq};

verus! {

/// System Resource Name: a typed identifier that may reference any object
/// within the platform. All SRNs follow the same URI-like textual format,
/// `type:identifier`, with one suffixed exception (`paymentmethod:{id}:ach`).
#[derive(Debug, Clone, Hash, PartialEq, Eq)]
pub enum SystemResourceName {
    /// An account, e.g. `account:AC_XXXXXXXX`
    Account(String),
    /// A user, e.g. `user:US_XXXXXXXX`
    User(String),
    /// A single wallet that can hold cryptocurrency, e.g. `wallet:WA_XXXXXXXX`
    Wallet(String),
    /// A transfer (possibly including a conversion) of currency
    Transfer(String),
    /// A payment method such as a bank account, e.g. `paymentmethod:PA_XXXXXXXX`
    PaymentMethod(String),
    /// A payment method used to pull funds into an account over ACH; its
    /// textual form carries the `ach` suffix, e.g. `paymentmethod:PA_X:ach`
    AchPaymentMethod(String),
    /// An email address, e.g. `email:dev@example.com`
    Email(String),
    /// A cellphone number, e.g. `cellphone:+15555555555`
    CellPhone(String),
    /// A Bitcoin blockchain address
    Bitcoin(String),
    /// An Ethereum blockchain address (also used for ERC-20 token transfers)
    Ethereum(String),
    /// An Avalanche blockchain address (X and C chains)
    Avalanche(String),
    /// A Stellar blockchain address
    Stellar(String),
    /// An Algorand blockchain address
    Algorand(String),
    /// A Polygon blockchain address
    Matic(String),
    /// A Flow blockchain address
    Flow(String),
    /// A Loopring blockchain address
    Loopring(String),
}

/// The mathematical form of a `SystemResourceName`: the same tagged union
/// over character sequences.
pub enum SrnView {
    /// See `SystemResourceName::Account`.
    Account(Seq<char>),
    /// See `SystemResourceName::User`.
    User(Seq<char>),
    /// See `SystemResourceName::Wallet`.
    Wallet(Seq<char>),
    /// See `SystemResourceName::Transfer`.
    Transfer(Seq<char>),
    /// See `SystemResourceName::PaymentMethod`.
    PaymentMethod(Seq<char>),
    /// See `SystemResourceName::AchPaymentMethod`.
    AchPaymentMethod(Seq<char>),
    /// See `SystemResourceName::Email`.
    Email(Seq<char>),
    /// See `SystemResourceName::CellPhone`.
    CellPhone(Seq<char>),
    /// See `SystemResourceName::Bitcoin`.
    Bitcoin(Seq<char>),
    /// See `SystemResourceName::Ethereum`.
    Ethereum(Seq<char>),
    /// See `SystemResourceName::Avalanche`.
    Avalanche(Seq<char>),
    /// See `SystemResourceName::Stellar`.
    Stellar(Seq<char>),
    /// See `SystemResourceName::Algorand`.
    Algorand(Seq<char>),
    /// See `SystemResourceName::Matic`.
    Matic(Seq<char>),
    /// See `SystemResourceName::Flow`.
    Flow(Seq<char>),
    /// See `SystemResourceName::Loopring`.
    Loopring(Seq<char>),
}

impl View for SystemResourceName {
    type V = SrnView;

    open spec fn view(&self) -> SrnView {
        match self {
            SystemResourceName::Account(id) => SrnView::Account(id@),
            SystemResourceName::User(id) => SrnView::User(id@),
            SystemResourceName::Wallet(id) => SrnView::Wallet(id@),
            SystemResourceName::Transfer(id) => SrnView::Transfer(id@),
            SystemResourceName::PaymentMethod(id) => SrnView::PaymentMethod(id@),
            SystemResourceName::AchPaymentMethod(id) => SrnView::AchPaymentMethod(id@),
            SystemResourceName::Email(id) => SrnView::Email(id@),
            SystemResourceName::CellPhone(id) => SrnView::CellPhone(id@),
            SystemResourceName::Bitcoin(id) => SrnView::Bitcoin(id@),
            SystemResourceName::Ethereum(id) => SrnView::Ethereum(id@),
            SystemResourceName::Avalanche(id) => SrnView::Avalanche(id@),
            SystemResourceName::Stellar(id) => SrnView::Stellar(id@),
            SystemResourceName::Algorand(id) => SrnView::Algorand(id@),
            SystemResourceName::Matic(id) => SrnView::Matic(id@),
            SystemResourceName::Flow(id) => SrnView::Flow(id@),
            SystemResourceName::Loopring(id) => SrnView::Loopring(id@),
        }
    }
}

/// The identifier wrapped by a reference, whatever its kind.
pub open spec fn srn_ident(v: SrnView) -> Seq<char> {
    match v {
        SrnView::Account(id) => id,
        SrnView::User(id) => id,
        SrnView::Wallet(id) => id,
        SrnView::Transfer(id) => id,
        SrnView::PaymentMethod(id) => id,
        SrnView::AchPaymentMethod(id) => id,
        SrnView::Email(id) => id,
        SrnView::CellPhone(id) => id,
        SrnView::Bitcoin(id) => id,
        SrnView::Ethereum(id) => id,
        SrnView::Avalanche(id) => id,
        SrnView::Stellar(id) => id,
        SrnView::Algorand(id) => id,
        SrnView::Matic(id) => id,
        SrnView::Flow(id) => id,
        SrnView::Loopring(id) => id,
    }
}

/// The one textual form of a reference: its type tag, a colon, and the
/// identifier; the ACH payment-method kind appends an `ach` suffix.
pub open spec fn srn_text(v: SrnView) -> Seq<char> {
    match v {
        SrnView::Account(id) => "account:"@ + id,
        SrnView::User(id) => "user:"@ + id,
        SrnView::Wallet(id) => "wallet:"@ + id,
        SrnView::Transfer(id) => "transfer:"@ + id,
        SrnView::PaymentMethod(id) => "paymentmethod:"@ + id,
        SrnView::AchPaymentMethod(id) => "paymentmethod:"@ + id + ":ach"@,
        SrnView::Email(id) => "email:"@ + id,
        SrnView::CellPhone(id) => "cellphone:"@ + id,
        SrnView::Bitcoin(id) => "bitcoin:"@ + id,
        SrnView::Ethereum(id) => "ethereum:"@ + id,
        SrnView::Avalanche(id) => "avalanche:"@ + id,
        SrnView::Stellar(id) => "stellar:"@ + id,
        SrnView::Algorand(id) => "algorand:"@ + id,
        SrnView::Matic(id) => "matic:"@ + id,
        SrnView::Flow(id) => "flow:"@ + id,
        SrnView::Loopring(id) => "loopring:"@ + id,
    }
}

/// The reference kind selected by a bare (suffix-free) type tag, if any.
/// The tag order here is the one the decoder commits to.
pub open spec fn variant_of_tag(kind: Seq<char>, ident: Seq<char>) -> Option<SrnView> {
    if kind == "paymentmethod"@ {
        Some(SrnView::PaymentMethod(ident))
    } else if kind == "email"@ {
        Some(SrnView::Email(ident))
    } else if kind == "cellphone"@ {
        Some(SrnView::CellPhone(ident))
    } else if kind == "bitcoin"@ {
        Some(SrnView::Bitcoin(ident))
    } else if kind == "ethereum"@ {
        Some(SrnView::Ethereum(ident))
    } else if kind == "avalanche"@ {
        Some(SrnView::Avalanche(ident))
    } else if kind == "stellar"@ {
        Some(SrnView::Stellar(ident))
    } else if kind == "algorand"@ {
        Some(SrnView::Algorand(ident))
    } else if kind == "matic"@ {
        Some(SrnView::Matic(ident))
    } else if kind == "flow"@ {
        Some(SrnView::Flow(ident))
    } else if kind == "loopring"@ {
        Some(SrnView::Loopring(ident))
    } else if kind == "account"@ {
        Some(SrnView::Account(ident))
    } else if kind == "user"@ {
        Some(SrnView::User(ident))
    } else if kind == "wallet"@ {
        Some(SrnView::Wallet(ident))
    } else if kind == "transfer"@ {
        Some(SrnView::Transfer(ident))
    } else {
        None
    }
}

/// What decoding a piece of text yields, before error payloads are attached:
/// a reference, or one of the two failure classes.
pub enum SrnParse {
    /// The text is the form of this reference.
    Value(SrnView),
    /// The text has no type segment: it is empty or holds no colon.
    MissingType,
    /// The type tag (or the suffix arrangement) matches no known kind.
    UnknownKind,
}

/// Decoding of the `type:identifier[:suffix]` form, over at most three
/// segments. An absent colon means the type segment is missing; an
/// unrecognized tag, or any suffix other than `ach` after `paymentmethod`,
/// is an unknown kind.
pub open spec fn spec_parse_srn(s: Seq<char>) -> SrnParse {
    match find_char(s, ':', 0) {
        None => SrnParse::MissingType,
        Some(i) => {
            let kind = s.subrange(0, i);
            let rest = s.subrange(i + 1, s.len() as int);
            match find_char(rest, ':', 0) {
                None => match variant_of_tag(kind, rest) {
                    Some(v) => SrnParse::Value(v),
                    None => SrnParse::UnknownKind,
                },
                Some(j) => {
                    let ident = rest.subrange(0, j);
                    let suffix = rest.subrange(j + 1, rest.len() as int);
                    if kind == "paymentmethod"@ && suffix == "ach"@ {
                        SrnParse::Value(SrnView::AchPaymentMethod(ident))
                    } else {
                        SrnParse::UnknownKind
                    }
                },
            }
        },
    }
}

/// Decoding text of the shape `tag:ident`, where neither part holds a
/// colon, lands exactly on the tag table.
proof fn lemma_parse_tagged(tag: Seq<char>, id: Seq<char>)
    requires
        forall|k: int| 0 <= k < tag.len() ==> tag[k] != ':',
        !id.contains(':'),
    ensures
        ({
            let text = tag + seq![':'] + id;
            match variant_of_tag(tag, id) {
                Some(v) => spec_parse_srn(text) == SrnParse::Value(v),
                None => spec_parse_srn(text) == SrnParse::UnknownKind,
            }
        }),
{
    let text = tag + seq![':'] + id;
    assert(text[tag.len() as int] == ':');
    lemma_find_char_hit(text, ':', 0, tag.len() as int);
    assert(text.subrange(0, tag.len() as int) =~= tag);
    let rest = text.subrange(tag.len() as int + 1, text.len() as int);
    assert(rest =~= id);
    assert(forall|k: int| 0 <= k < id.len() ==> id[k] != ':');
    lemma_find_char_miss(rest, ':', 0);
}

/// Decoding text of the shape `paymentmethod:ident:ach`, where the
/// identifier holds no colon, lands on the ACH payment-method kind.
proof fn lemma_parse_ach(id: Seq<char>)
    requires
        !id.contains(':'),
    ensures
        spec_parse_srn("paymentmethod"@ + seq![':'] + id + seq![':'] + "ach"@) == SrnParse::Value(
            SrnView::AchPaymentMethod(id),
        ),
{
    reveal_strlit("paymentmethod");
    reveal_strlit("ach");
    let tag = "paymentmethod"@;
    let text = tag + seq![':'] + id + seq![':'] + "ach"@;
    assert(text[tag.len() as int] == ':');
    assert(forall|k: int| 0 <= k < tag.len() ==> text[k] == tag[k]);
    lemma_find_char_hit(text, ':', 0, tag.len() as int);
    assert(text.subrange(0, tag.len() as int) =~= tag);
    let rest = text.subrange(tag.len() as int + 1, text.len() as int);
    assert(rest =~= id + seq![':'] + "ach"@);
    assert(rest[id.len() as int] == ':');
    assert(forall|k: int| 0 <= k < id.len() ==> rest[k] == id[k] && id[k] != ':');
    lemma_find_char_hit(rest, ':', 0, id.len() as int);
    assert(rest.subrange(0, id.len() as int) =~= id);
    assert(rest.subrange(id.len() as int + 1, rest.len() as int) =~= "ach"@);
}

/// Formatting a reference and decoding the text reproduces the reference,
/// for every reference whose identifier holds no colon. (An identifier with
/// a colon in it would shift the segment boundaries, so the law excludes
/// those inputs.)
pub proof fn lemma_srn_round_trip(v: SrnView)
    requires
        !srn_ident(v).contains(':'),
    ensures
        spec_parse_srn(srn_text(v)) == SrnParse::Value(v),
{
    reveal_strlit("paymentmethod");
    reveal_strlit("email");
    reveal_strlit("cellphone");
    reveal_strlit("bitcoin");
    reveal_strlit("ethereum");
    reveal_strlit("avalanche");
    reveal_strlit("stellar");
    reveal_strlit("algorand");
    reveal_strlit("matic");
    reveal_strlit("flow");
    reveal_strlit("loopring");
    reveal_strlit("account");
    reveal_strlit("user");
    reveal_strlit("wallet");
    reveal_strlit("transfer");
    let id = srn_ident(v);
    match v {
        SrnView::Account(_) => {
            reveal_strlit("account:");
            assert("account:"@ =~= "account"@ + seq![':']);
            lemma_parse_tagged("account"@, id);
            assert(srn_text(v) =~= "account"@ + seq![':'] + id);
        },
        SrnView::User(_) => {
            reveal_strlit("user:");
            assert("user:"@ =~= "user"@ + seq![':']);
            lemma_parse_tagged("user"@, id);
            assert(srn_text(v) =~= "user"@ + seq![':'] + id);
        },
        SrnView::Wallet(_) => {
            reveal_strlit("wallet:");
            assert("wallet:"@ =~= "wallet"@ + seq![':']);
            lemma_parse_tagged("wallet"@, id);
            assert(srn_text(v) =~= "wallet"@ + seq![':'] + id);
        },
        SrnView::Transfer(_) => {
            reveal_strlit("transfer:");
            assert("transfer:"@ =~= "transfer"@ + seq![':']);
            lemma_parse_tagged("transfer"@, id);
            assert(srn_text(v) =~= "transfer"@ + seq![':'] + id);
        },
        SrnView::PaymentMethod(_) => {
            reveal_strlit("paymentmethod:");
            assert("paymentmethod:"@ =~= "paymentmethod"@ + seq![':']);
            lemma_parse_tagged("paymentmethod"@, id);
            assert(srn_text(v) =~= "paymentmethod"@ + seq![':'] + id);
        },
        SrnView::AchPaymentMethod(_) => {
            reveal_strlit("paymentmethod:");
            reveal_strlit(":ach");
            reveal_strlit("ach");
            reveal_strlit("paymentmethod");
            lemma_parse_ach(id);
            assert("paymentmethod:"@ =~= "paymentmethod"@ + seq![':']);
            assert(":ach"@ =~= seq![':'] + "ach"@);
            assert(srn_text(v) =~= "paymentmethod"@ + seq![':'] + id + seq![':'] + "ach"@);
        },
        SrnView::Email(_) => {
            reveal_strlit("email:");
            assert("email:"@ =~= "email"@ + seq![':']);
            lemma_parse_tagged("email"@, id);
            assert(srn_text(v) =~= "email"@ + seq![':'] + id);
        },
        SrnView::CellPhone(_) => {
            reveal_strlit("cellphone:");
            assert("cellphone:"@ =~= "cellphone"@ + seq![':']);
            lemma_parse_tagged("cellphone"@, id);
            assert(srn_text(v) =~= "cellphone"@ + seq![':'] + id);
        },
        SrnView::Bitcoin(_) => {
            reveal_strlit("bitcoin:");
            assert("bitcoin:"@ =~= "bitcoin"@ + seq![':']);
            lemma_parse_tagged("bitcoin"@, id);
            assert(srn_text(v) =~= "bitcoin"@ + seq![':'] + id);
        },
        SrnView::Ethereum(_) => {
            reveal_strlit("ethereum:");
            assert("ethereum:"@ =~= "ethereum"@ + seq![':']);
            lemma_parse_tagged("ethereum"@, id);
            assert(srn_text(v) =~= "ethereum"@ + seq![':'] + id);
        },
        SrnView::Avalanche(_) => {
            reveal_strlit("avalanche:");
            assert("avalanche:"@ =~= "avalanche"@ + seq![':']);
            lemma_parse_tagged("avalanche"@, id);
            assert(srn_text(v) =~= "avalanche"@ + seq![':'] + id);
        },
        SrnView::Stellar(_) => {
            reveal_strlit("stellar:");
            assert("stellar:"@ =~= "stellar"@ + seq![':']);
            lemma_parse_tagged("stellar"@, id);
            assert(srn_text(v) =~= "stellar"@ + seq![':'] + id);
        },
        SrnView::Algorand(_) => {
            reveal_strlit("algorand:");
            assert("algorand:"@ =~= "algorand"@ + seq![':']);
            lemma_parse_tagged("algorand"@, id);
            assert(srn_text(v) =~= "algorand"@ + seq![':'] + id);
        },
        SrnView::Matic(_) => {
            reveal_strlit("matic:");
            assert("matic:"@ =~= "matic"@ + seq![':']);
            lemma_parse_tagged("matic"@, id);
            assert(srn_text(v) =~= "matic"@ + seq![':'] + id);
        },
        SrnView::Flow(_) => {
            reveal_strlit("flow:");
            assert("flow:"@ =~= "flow"@ + seq![':']);
            lemma_parse_tagged("flow"@, id);
            assert(srn_text(v) =~= "flow"@ + seq![':'] + id);
        },
        SrnView::Loopring(_) => {
            reveal_strlit("loopring:");
            assert("loopring:"@ =~= "loopring"@ + seq![':']);
            lemma_parse_tagged("loopring"@, id);
            assert(srn_text(v) =~= "loopring"@ + seq![':'] + id);
        },
    }
}

/// Why a piece of text failed to decode as a reference.
#[derive(Debug, Clone, PartialEq, Eq)]
pub enum SrnDecodeError {
    /// The input had no type segment at all: it was empty or held no colon.
    MissingType {
        /// The rejected input, unchanged.
        input: String,
    },
    /// The type tag matched no known reference kind, or a suffix was present
    /// where none is allowed.
    UnknownVariant {
        /// The rejected input, unchanged.
        input: String,
        /// Every textual form the decoder accepts.
        expected: Vec<String>,
    },
}

/// Every textual form the decoder accepts, as shown to callers inside an
/// unknown-variant error.
pub open spec fn expected_srn_forms() -> Seq<Seq<char>> {
    seq![
        "paymentmethod:{id}"@,
        "paymentmethod:{id}:ach"@,
        "email:{id}"@,
        "cellphone:{id}"@,
        "bitcoin:{id}"@,
        "ethereum:{id}"@,
        "avalanche:{id}"@,
        "stellar:{id}"@,
        "algorand:{id}"@,
        "matic:{id}"@,
        "flow:{id}"@,
        "loopring:{id}"@,
        "account:{id}"@,
        "user:{id}"@,
        "wallet:{id}"@,
        "transfer:{id}"@,
    ]
}

/// Builds the list of accepted textual forms.
pub fn srn_expected_forms() -> (r: Vec<String>)
    ensures
        r.deep_view() == expected_srn_forms(),
{
    let mut r: Vec<String> = Vec::new();
    r.push(String::from_str("paymentmethod:{id}"));
    r.push(String::from_str("paymentmethod:{id}:ach"));
    r.push(String::from_str("email:{id}"));
    r.push(String::from_str("cellphone:{id}"));
    r.push(String::from_str("bitcoin:{id}"));
    r.push(String::from_str("ethereum:{id}"));
    r.push(String::from_str("avalanche:{id}"));
    r.push(String::from_str("stellar:{id}"));
    r.push(String::from_str("algorand:{id}"));
    r.push(String::from_str("matic:{id}"));
    r.push(String::from_str("flow:{id}"));
    r.push(String::from_str("loopring:{id}"));
    r.push(String::from_str("account:{id}"));
    r.push(String::from_str("user:{id}"));
    r.push(String::from_str("wallet:{id}"));
    r.push(String::from_str("transfer:{id}"));
    proof {
        assert(r.deep_view() =~~= expected_srn_forms());
    }
    r
}

/// Builds the unknown-variant error for a rejected input.
fn unknown_variant_error(s: &str) -> (r: SrnDecodeError)
    ensures
        (r matches SrnDecodeError::UnknownVariant { input, expected } && input@ == s@
            && expected.deep_view() == expected_srn_forms()),
{
    SrnDecodeError::UnknownVariant { input: s.to_owned(), expected: srn_expected_forms() }
}

impl SystemResourceName {
    /// Writes the reference in its textual form.
    pub fn to_string(&self) -> (r: String)
        ensures
            r@ == srn_text(self@),
    {
        match self {
            SystemResourceName::Account(id) => String::from_str("account:").concat(id.as_str()),
            SystemResourceName::User(id) => String::from_str("user:").concat(id.as_str()),
            SystemResourceName::Wallet(id) => String::from_str("wallet:").concat(id.as_str()),
            SystemResourceName::Transfer(id) => String::from_str("transfer:").concat(id.as_str()),
            SystemResourceName::PaymentMethod(id) => String::from_str("paymentmethod:").concat(
                id.as_str(),
            ),
            SystemResourceName::AchPaymentMethod(id) => String::from_str("paymentmethod:").concat(
                id.as_str(),
            ).concat(":ach"),
            SystemResourceName::Email(id) => String::from_str("email:").concat(id.as_str()),
            SystemResourceName::CellPhone(id) => String::from_str("cellphone:").concat(id.as_str()),
            SystemResourceName::Bitcoin(id) => String::from_str("bitcoin:").concat(id.as_str()),
            SystemResourceName::Ethereum(id) => String::from_str("ethereum:").concat(id.as_str()),
            SystemResourceName::Avalanche(id) => String::from_str("avalanche:").concat(id.as_str()),
            SystemResourceName::Stellar(id) => String::from_str("stellar:").concat(id.as_str()),
            SystemResourceName::Algorand(id) => String::from_str("algorand:").concat(id.as_str()),
            SystemResourceName::Matic(id) => String::from_str("matic:").concat(id.as_str()),
            SystemResourceName::Flow(id) => String::from_str("flow:").concat(id.as_str()),
            SystemResourceName::Loopring(id) => String::from_str("loopring:").concat(id.as_str()),
        }
    }

    /// Decodes the `type:identifier[:suffix]` textual form.
    pub fn parse(s: &str) -> (r: Result<SystemResourceName, SrnDecodeError>)
        ensures
            match spec_parse_srn(s@) {
                SrnParse::Value(v) => (r matches Ok(x) && x@ == v),
                SrnParse::MissingType => (r matches Err(SrnDecodeError::MissingType { input })
                    && input@ == s@),
                SrnParse::UnknownKind => (r matches Err(SrnDecodeError::UnknownVariant {
                    input,
                    expected,
                }) && input@ == s@ && expected.deep_view() == expected_srn_forms()),
            },
    {
        let len = s.unicode_len();
        let mut i: usize = 0;
        while i < len && s.get_char(i) != ':'
            invariant
                len == s@.len(),
                i <= len,
                forall|k: int| 0 <= k < i ==> s@[k] != ':',
            decreases len - i,
        {
            i = i + 1;
        }
        if i == len {
            proof {
                lemma_find_char_miss(s@, ':', 0);
            }
            return Err(SrnDecodeError::MissingType { input: s.to_owned() });
        }
        proof {
            lemma_find_char_hit(s@, ':', 0, i as int);
        }
        let kind = s.substring_char(0, i);
        let rest = s.substring_char(i + 1, len);
        let rlen = rest.unicode_len();
        let mut j: usize = 0;
        while j < rlen && rest.get_char(j) != ':'
            invariant
                rlen == rest@.len(),
                j <= rlen,
                forall|k: int| 0 <= k < j ==> rest@[k] != ':',
            decreases rlen - j,
        {
            j = j + 1;
        }
        if j == rlen {
            proof {
                lemma_find_char_miss(rest@, ':', 0);
            }
            if str_eq(kind, "paymentmethod") {
                Ok(SystemResourceName::PaymentMethod(rest.to_owned()))
            } else if str_eq(kind, "email") {
                Ok(SystemResourceName::Email(rest.to_owned()))
            } else if str_eq(kind, "cellphone") {
                Ok(SystemResourceName::CellPhone(rest.to_owned()))
            } else if str_eq(kind, "bitcoin") {
                Ok(SystemResourceName::Bitcoin(rest.to_owned()))
            } else if str_eq(kind, "ethereum") {
                Ok(SystemResourceName::Ethereum(rest.to_owned()))
            } else if str_eq(kind, "avalanche") {
                Ok(SystemResourceName::Avalanche(rest.to_owned()))
            } else if str_eq(kind, "stellar") {
                Ok(SystemResourceName::Stellar(rest.to_owned()))
            } else if str_eq(kind, "algorand") {
                Ok(SystemResourceName::Algorand(rest.to_owned()))
            } else if str_eq(kind, "matic") {
                Ok(SystemResourceName::Matic(rest.to_owned()))
            } else if str_eq(kind, "flow") {
                Ok(SystemResourceName::Flow(rest.to_owned()))
            } else if str_eq(kind, "loopring") {
                Ok(SystemResourceName::Loopring(rest.to_owned()))
            } else if str_eq(kind, "account") {
                Ok(SystemResourceName::Account(rest.to_owned()))
            } else if str_eq(kind, "user") {
                Ok(SystemResourceName::User(rest.to_owned()))
            } else if str_eq(kind, "wallet") {
                Ok(SystemResourceName::Wallet(rest.to_owned()))
            } else if str_eq(kind, "transfer") {
                Ok(SystemResourceName::Transfer(rest.to_owned()))
            } else {
                Err(unknown_variant_error(s))
            }
        } else {
            proof {
                lemma_find_char_hit(rest@, ':', 0, j as int);
            }
            let ident = rest.substring_char(0, j);
            let suffix = rest.substring_char(j + 1, rlen);
            if str_eq(kind, "paymentmethod") && str_eq(suffix, "ach") {
                Ok(SystemResourceName::AchPaymentMethod(ident.to_owned()))
            } else {
                Err(unknown_variant_error(s))
            }
        }
    }
}

} // verus!
