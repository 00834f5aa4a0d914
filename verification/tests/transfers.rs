use std::collections::HashMap;

use wyre::{Amount, CreateTransfer, Currency, SystemResourceName, Transfer, TransferStatus};

#[test]
fn transfer_status_tokens_round_trip() {
    let statuses = [
        (TransferStatus::Preview, "PREVIEW"),
        (TransferStatus::Unconfirmed, "UNCONFIRMED"),
        (TransferStatus::Pending, "PENDING"),
        (TransferStatus::Completed, "COMPLETED"),
        (TransferStatus::Expired, "EXPIRED"),
        (TransferStatus::Failed, "FAILED"),
        (TransferStatus::Reversed, "REVERSED"),
    ];
    for (status, token) in statuses {
        assert_eq!(status.token(), token);
        assert_eq!(TransferStatus::from_token(token), Some(status));
    }
    assert_eq!(TransferStatus::from_token("UNKNOWN"), None);
}

#[test]
fn transfer_status_defaults_to_pending() {
    assert_eq!(TransferStatus::default(), TransferStatus::Pending);
}

#[test]
fn create_transfer_pair_preserves_currency_amount_and_status() {
    // A request and the transfer the server echoes back: every monetary
    // and status field passes through the token and decimal codecs
    // without loss.
    let request = CreateTransfer {
        source: SystemResourceName::AchPaymentMethod("PA_1".to_string()).to_string(),
        source_amount: Some(Amount::from_text("20.00").unwrap()),
        source_currency: Currency::USD,
        dest: SystemResourceName::Ethereum(
            "0xc12fae05cbe72a501540f260d6c49ddc6f9d9f4d".to_string(),
        ).to_string(),
        dest_amount: None,
        dest_currency: Some(Currency::USDC),
        message: Some("test transfer".to_string()),
        notify_url: None,
        auto_confirm: Some(true),
        custom_id: None,
        amount_includes_fees: Some(false),
        preview: Some(false),
        mute_messages: Some(true),
    };

    // The wire carries tokens and decimal literals; decode them back the
    // way the response decoder would.
    let source_currency_token = request.source_currency.code();
    let dest_currency_token = request.dest_currency.unwrap().code();
    let source_amount_text = request.source_amount.clone().unwrap().to_text();
    let status_token = TransferStatus::Unconfirmed.token();

    let mut fees: HashMap<Currency, Amount> = HashMap::new();
    fees.insert(Currency::USD, Amount::from_text("0.35").unwrap());

    let echoed = Transfer {
        id: "TF_1".to_string(),
        owner: "account:AC_1".to_string(),
        source: request.source.clone(),
        source_amount: Amount::from_text(&source_amount_text).unwrap(),
        source_currency: Currency::from_code(&source_currency_token),
        dest: request.dest.clone(),
        dest_amount: Amount::from_text("19.65").unwrap(),
        dest_currency: Currency::from_code(&dest_currency_token),
        status: TransferStatus::from_token(&status_token).unwrap(),
        pending_sub_status: None,
        completed_at: None,
        updated_at: None,
        cancelled_at: None,
        expires_at: Some(1_654_635_351_327),
        exchange_rate: Some(Amount::from_text("1.0000").unwrap()),
        fees,
        total_fees: Amount::from_text("0.35").unwrap(),
        message: request.message.clone(),
        custom_id: None,
    };

    assert_eq!(echoed.source_currency, request.source_currency);
    assert_eq!(echoed.dest_currency, request.dest_currency.unwrap());
    assert_eq!(echoed.source_amount, request.source_amount.unwrap());
    assert_eq!(echoed.source_amount.to_text(), "20.00");
    assert_eq!(echoed.status, TransferStatus::Unconfirmed);
    assert_eq!(echoed.exchange_rate.unwrap().to_text(), "1.0000");
}
