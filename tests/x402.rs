use agent_factory::x402::{
    AgentServiceCallEvent, PaymentRequest, PaymentStatus, X402Config, X402Error,
};

const AGENT: [u8; 32] = [7u8; 32];
const RECIPIENT: [u8; 32] = [8u8; 32];
const PAYER: [u8; 32] = [9u8; 32];

fn config(min: u64, max: u64) -> X402Config {
    X402Config::configure(AGENT, RECIPIENT, true, min, max, 60, 253)
}

fn request(amount: u64, nonce: u64) -> PaymentRequest {
    PaymentRequest {
        payer: PAYER,
        amount,
        service_id: "summarize".to_string(),
        nonce,
        payer_is_agent: false,
        service_params: Vec::new(),
    }
}

#[test]
fn configure_starts_counters_at_zero() {
    let c = config(10, 1_000);
    assert_eq!(c.agent, AGENT);
    assert_eq!(c.payment_recipient, RECIPIENT);
    assert!(c.enabled);
    assert_eq!(c.min_payment_amount, 10);
    assert_eq!(c.max_payment_amount, 1_000);
    assert_eq!(c.service_timeout_seconds, 60);
    assert_eq!(c.nonce, 0);
    assert_eq!(c.total_payments_received, 0);
    assert_eq!(c.total_service_calls, 0);
    assert_eq!(c.bump, 253);
}

#[test]
fn nonce_must_be_exactly_the_next_one() {
    let mut c = config(10, 1_000);
    c.nonce = 41;
    assert_eq!(c.authorize_payment(&request(100, 42)), Ok(()));
    let record = c.settle_payment(&request(100, 42), 1_700_000_000, 1).unwrap();
    assert_eq!(c.nonce, 42);
    assert_eq!(record.amount, 100);
    // Replay of the same nonce.
    assert_eq!(c.authorize_payment(&request(100, 42)), Err(X402Error::NonceMismatch));
    assert_eq!(c.settle_payment(&request(100, 42), 1_700_000_001, 1).unwrap_err(), X402Error::NonceMismatch);
    // Skipping ahead.
    assert_eq!(c.authorize_payment(&request(100, 44)), Err(X402Error::NonceMismatch));
    assert_eq!(c.nonce, 42);
    assert_eq!(c.authorize_payment(&request(100, 43)), Ok(()));
}

#[test]
fn settled_payment_updates_counters_and_record() {
    let mut c = config(10, 1_000);
    let record = c.settle_payment(&request(250, 1), 1_700_000_123, 9).unwrap();
    assert_eq!(record.agent, AGENT);
    assert_eq!(record.payer, PAYER);
    assert_eq!(record.amount, 250);
    assert_eq!(record.timestamp, 1_700_000_123);
    assert_eq!(record.service_id, "summarize");
    assert_eq!(record.status, PaymentStatus::Verified);
    assert_eq!(record.bump, 9);
    assert_eq!(c.nonce, 1);
    assert_eq!(c.total_payments_received, 250);
    assert_eq!(c.total_service_calls, 1);
}

#[test]
fn agent_payment_is_settled_and_carries_its_params() {
    let mut c = config(10, 1_000);
    let mut req = request(500, 1);
    req.payer_is_agent = true;
    req.service_params = vec![1, 2, 3];
    let record = c.settle_payment(&req, 5, 0).unwrap();
    assert_eq!(record.status, PaymentStatus::Settled);
    let event = AgentServiceCallEvent::from_record(PAYER, &record, req.service_params.clone());
    assert_eq!(event.caller_agent, PAYER);
    assert_eq!(event.target_agent, AGENT);
    assert_eq!(event.service_id, "summarize");
    assert_eq!(event.amount, 500);
    assert_eq!(event.timestamp, 5);
    assert_eq!(event.service_params, vec![1, 2, 3]);
}

#[test]
fn disabled_payments_are_refused() {
    let mut c = config(10, 1_000);
    c.update_settings(false, 10, 1_000, 60);
    assert_eq!(c.authorize_payment(&request(100, 1)), Err(X402Error::PaymentsNotEnabled));
}

#[test]
fn amount_bounds_are_enforced() {
    let c = config(10, 1_000);
    assert_eq!(c.validate_payment_amount(9), Err(X402Error::PaymentTooLow));
    assert_eq!(c.validate_payment_amount(10), Ok(()));
    assert_eq!(c.validate_payment_amount(1_000), Ok(()));
    assert_eq!(c.validate_payment_amount(1_001), Err(X402Error::PaymentTooHigh));
    assert_eq!(c.authorize_payment(&request(9, 1)), Err(X402Error::PaymentTooLow));
    assert_eq!(c.authorize_payment(&request(1_001, 1)), Err(X402Error::PaymentTooHigh));
}

#[test]
fn zero_maximum_means_no_upper_bound() {
    let c = config(10, 0);
    assert_eq!(c.validate_payment_amount(u64::MAX), Ok(()));
    assert_eq!(c.validate_payment_amount(10), Ok(()));
    assert_eq!(c.validate_payment_amount(9), Err(X402Error::PaymentTooLow));
    assert_eq!(c.authorize_payment(&request(u64::MAX, 1)), Ok(()));
}

#[test]
fn service_id_must_be_one_to_thirty_two_bytes() {
    let c = config(0, 0);
    let mut req = request(1, 1);
    req.service_id = String::new();
    assert_eq!(c.authorize_payment(&req), Err(X402Error::InvalidServiceId));
    req.service_id = "x".repeat(32);
    assert_eq!(c.authorize_payment(&req), Ok(()));
    req.service_id = "x".repeat(33);
    assert_eq!(c.authorize_payment(&req), Err(X402Error::InvalidServiceId));
    // Seventeen two-byte characters: 34 bytes.
    req.service_id = "\u{e9}".repeat(17);
    assert_eq!(c.authorize_payment(&req), Err(X402Error::InvalidServiceId));
    req.service_id = "\u{e9}".repeat(16);
    assert_eq!(c.authorize_payment(&req), Ok(()));
}

#[test]
fn service_params_are_limited_to_one_kilobyte() {
    let c = config(0, 0);
    let mut req = request(1, 1);
    req.payer_is_agent = true;
    req.service_params = vec![0u8; 1024];
    assert_eq!(c.authorize_payment(&req), Ok(()));
    req.service_params = vec![0u8; 1025];
    assert_eq!(c.authorize_payment(&req), Err(X402Error::InvalidServiceId));
}

#[test]
fn counter_overflow_is_refused_before_any_change() {
    let mut c = config(0, 0);
    c.total_payments_received = u64::MAX - 5;
    assert_eq!(c.authorize_payment(&request(6, 1)), Err(X402Error::MathOverflow));
    assert_eq!(c.settle_payment(&request(6, 1), 0, 0).unwrap_err(), X402Error::MathOverflow);
    assert_eq!(c.nonce, 0);
    assert_eq!(c.total_payments_received, u64::MAX - 5);
    assert_eq!(c.record_payment(6), Err(X402Error::MathOverflow));
    assert_eq!(c.total_service_calls, 0);
    assert_eq!(c.record_payment(5), Ok(()));
    assert_eq!(c.total_payments_received, u64::MAX);
    assert_eq!(c.total_service_calls, 1);
}

#[test]
fn nonce_increment_overflows_at_the_top() {
    let mut c = config(0, 0);
    c.nonce = u64::MAX - 1;
    assert_eq!(c.increment_nonce(), Ok(u64::MAX));
    assert_eq!(c.increment_nonce(), Err(X402Error::NonceOverflow));
    assert_eq!(c.nonce, u64::MAX);
    // No nonce can follow the last one.
    assert_eq!(c.authorize_payment(&request(1, 0)), Err(X402Error::NonceMismatch));
}

#[test]
fn update_keeps_nonce_and_counters() {
    let mut c = config(10, 1_000);
    c.settle_payment(&request(100, 1), 0, 0).unwrap();
    c.update_settings(true, 1, 0, 30);
    assert_eq!(c.nonce, 1);
    assert_eq!(c.total_payments_received, 100);
    assert_eq!(c.total_service_calls, 1);
    assert_eq!(c.min_payment_amount, 1);
    assert_eq!(c.max_payment_amount, 0);
    assert_eq!(c.service_timeout_seconds, 30);
}
