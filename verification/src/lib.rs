//! Typed client binding for a financial-services HTTP API: accounts, KYC
//! profile fields, payment methods, transfers, and users.
//!
//! The heart of the crate is a family of small, fully specified codecs:
//! the System Resource Name (SRN) tagged-string codec, the profile-field
//! tagged-union value model, the currency and status token tables, and an
//! exact decimal amount representation. Around them sit the request-plan
//! builders and the response classifier that a thin HTTP shell drives.

pub mod account;
pub mod amount;
pub mod client;
pub mod common;
pub mod currency;
pub mod error;
pub mod environment;
pub mod payment_method;
pub mod srn;
pub mod transfer;
pub mod text;
pub mod user;

pub use account::Account;
pub use account::AccountStatus;
pub use account::AccountType;
pub use account::CreateAccount;
pub use account::CreateProfileField;
pub use account::DocumentSubType;
pub use account::FieldDecodeError;
pub use account::MasterAccount;
pub use account::MasterAccountProfile;
pub use account::ProfileField;
pub use account::ProfileFieldId;
pub use account::ProfileFieldStatus;
pub use account::ProfileFieldType;
pub use account::UpdateAccount;
pub use account::UploadDocument;
pub use amount::Amount;
pub use client::Client;
pub use client::ClientFromEnvironmentError;
pub use client::HttpMethod;
pub use client::HttpRequest;
pub use client::OnboardingUrl;
pub use client::UserDocumentUpload;
pub use client::settle_response;
pub use common::Address;
pub use common::CallbackPayload;
pub use common::DocumentType;
pub use common::FieldPayload;
pub use common::MetadataCallbackPayload;
pub use currency::Currency;
pub use environment::Environment;
pub use environment::EnvironmentParseError;
pub use error::ApiError;
pub use error::Error;
pub use error::ExceptionKind;
pub use error::TransportError;
pub use payment_method::AchPaymentMethodCountry;
pub use payment_method::CreateAchPaymentMethod;
pub use payment_method::PaymentMethod;
pub use payment_method::PaymentMethodList;
pub use payment_method::PaymentMethodStatus;
pub use payment_method::PaymentMethodType;
pub use srn::SrnDecodeError;
pub use srn::SystemResourceName;
pub use transfer::CreateTransfer;
pub use transfer::Transfer;
pub use transfer::TransferStatus;
pub use user::DepositAddresses;
pub use user::ModifyUser;
pub use user::User;
pub use user::UserBalances;
pub use user::UserField;
pub use user::UserFieldId;
pub use user::UserFieldStatus;
pub use user::UserFieldType;
pub use user::UserScope;
pub use user::UserStatus;
