use vstd::prelude::*;

use crate::agent::{byte_len, Address};

verus! {

/// Longest service identifier, in bytes.
pub const MAX_SERVICE_ID_LEN: usize = 32;

/// Largest parameter payload of an agent-to-agent call, in bytes.
pub const MAX_SERVICE_PARAMS_LEN: usize = 1024;

/// Failures of the payment protocol.
#[derive(Debug, Clone, Copy, PartialEq, Eq, Structural)]
pub enum X402Error {
    PaymentTooLow,
    PaymentTooHigh,
    PaymentsNotEnabled,
    InvalidPaymentSignature,
    PaymentExpired,
    NonceMismatch,
    NonceOverflow,
    MathOverflow,
    ServiceTimeout,
    InvalidServiceId,
    PaymentAlreadySettled,
    InsufficientPayment,
}

/// Trust tier of an accepted payment.
#[derive(Debug, Clone, Copy, PartialEq, Eq, Structural)]
pub enum PaymentStatus {
    Pending,
    /// Paid directly by a person.
    Verified,
    /// Paid by another agent.
    Settled,
    Failed,
}

/// Payment settings and counters of one agent.
#[derive(Debug, Clone, Copy)]
pub struct X402Config {
    pub agent: Address,
    pub payment_recipient: Address,
    pub enabled: bool,
    pub min_payment_amount: u64,
    /// Zero means no upper bound.
    pub max_payment_amount: u64,
    /// Stored; no deadline is enforced from it.
    pub service_timeout_seconds: u64,
    pub total_payments_received: u64,
    pub total_service_calls: u64,
    /// The nonce of the last accepted payment; the next must carry one more.
    pub nonce: u64,
    pub bump: u8,
}

/// The record of one accepted payment. It never changes once written.
#[derive(Debug, Clone)]
pub struct X402PaymentRecord {
    pub agent: Address,
    pub payer: Address,
    pub amount: u64,
    pub timestamp: i64,
    pub service_id: String,
    pub status: PaymentStatus,
    pub bump: u8,
}

/// A request to pay an agent for a service.
#[derive(Debug, Clone)]
pub struct PaymentRequest {
    pub payer: Address,
    pub amount: u64,
    pub service_id: String,
    /// Must be one more than the agent's stored nonce.
    pub nonce: u64,
    /// Whether the payer is another agent rather than a person.
    pub payer_is_agent: bool,
    /// Parameters of an agent-to-agent call; empty for direct payments.
    pub service_params: Vec<u8>,
}

/// Published when one agent has paid another for a service call.
#[derive(Debug, Clone)]
pub struct AgentServiceCallEvent {
    pub caller_agent: Address,
    pub target_agent: Address,
    pub service_id: String,
    pub amount: u64,
    pub timestamp: i64,
    pub service_params: Vec<u8>,
}

impl AgentServiceCallEvent {
    /// The event of an agent-to-agent call that produced `record`.
    pub fn from_record(caller_agent: Address, record: &X402PaymentRecord, service_params: Vec<u8>) -> (r: AgentServiceCallEvent)
        ensures
            r.caller_agent == caller_agent,
            r.target_agent == record.agent,
            r.service_id == record.service_id,
            r.amount == record.amount,
            r.timestamp == record.timestamp,
            r.service_params == service_params,
    {
        AgentServiceCallEvent {
            caller_agent,
            target_agent: record.agent,
            service_id: record.service_id.clone(),
            amount: record.amount,
            timestamp: record.timestamp,
            service_params,
        }
    }
}

/// The configured bounds on one amount: at least the minimum, and at most the
/// maximum unless that is zero.
pub open spec fn amount_check(cfg: X402Config, amount: u64) -> Result<(), X402Error> {
    if amount < cfg.min_payment_amount {
        Err(X402Error::PaymentTooLow)
    } else if cfg.max_payment_amount > 0 && amount > cfg.max_payment_amount {
        Err(X402Error::PaymentTooHigh)
    } else {
        Ok(())
    }
}

/// Every check of a payment, in order, the first that fails giving the error.
pub open spec fn payment_check(
    cfg: X402Config,
    amount: u64,
    service_id: Seq<char>,
    nonce: u64,
    params_len: nat,
) -> Result<(), X402Error> {
    if !cfg.enabled {
        Err(X402Error::PaymentsNotEnabled)
    } else if amount_check(cfg, amount) is Err {
        amount_check(cfg, amount)
    } else if nonce != cfg.nonce + 1 {
        Err(X402Error::NonceMismatch)
    } else if byte_len(service_id) == 0 || byte_len(service_id) > MAX_SERVICE_ID_LEN
        || params_len > MAX_SERVICE_PARAMS_LEN {
        Err(X402Error::InvalidServiceId)
    } else if cfg.total_payments_received + amount > u64::MAX || cfg.total_service_calls + 1 > u64::MAX {
        Err(X402Error::MathOverflow)
    } else {
        Ok(())
    }
}

/// The configuration once a payment of `amount` has been accepted.
pub open spec fn after_payment(cfg: X402Config, amount: u64) -> X402Config {
    X402Config {
        nonce: (cfg.nonce + 1) as u64,
        total_payments_received: (cfg.total_payments_received + amount) as u64,
        total_service_calls: (cfg.total_service_calls + 1) as u64,
        ..cfg
    }
}

/// `payment_check` on a request.
pub open spec fn request_check(cfg: X402Config, request: PaymentRequest) -> Result<(), X402Error> {
    payment_check(cfg, request.amount, request.service_id@, request.nonce, request.service_params@.len())
}

impl X402Config {
    /// First-time setup: the given settings, nonce and counters at zero.
    pub fn configure(
        agent: Address,
        payment_recipient: Address,
        enabled: bool,
        min_payment_amount: u64,
        max_payment_amount: u64,
        service_timeout_seconds: u64,
        bump: u8,
    ) -> (r: X402Config)
        ensures
            r == (X402Config {
                agent,
                payment_recipient,
                enabled,
                min_payment_amount,
                max_payment_amount,
                service_timeout_seconds,
                total_payments_received: 0,
                total_service_calls: 0,
                nonce: 0,
                bump,
            }),
    {
        X402Config {
            agent,
            payment_recipient,
            enabled,
            min_payment_amount,
            max_payment_amount,
            service_timeout_seconds,
            total_payments_received: 0,
            total_service_calls: 0,
            nonce: 0,
            bump,
        }
    }

    /// Changes the settings in place; the nonce and the counters stay.
    pub fn update_settings(
        &mut self,
        enabled: bool,
        min_payment_amount: u64,
        max_payment_amount: u64,
        service_timeout_seconds: u64,
    )
        ensures
            *final(self) == (X402Config {
                enabled,
                min_payment_amount,
                max_payment_amount,
                service_timeout_seconds,
                ..*old(self)
            }),
    {
        self.enabled = enabled;
        self.min_payment_amount = min_payment_amount;
        self.max_payment_amount = max_payment_amount;
        self.service_timeout_seconds = service_timeout_seconds;
    }

    /// Checks an amount against the configured bounds.
    pub fn validate_payment_amount(&self, amount: u64) -> (r: Result<(), X402Error>)
        ensures
            r == amount_check(*self, amount),
    {
        if amount < self.min_payment_amount {
            return Err(X402Error::PaymentTooLow);
        }
        if self.max_payment_amount > 0 && amount > self.max_payment_amount {
            return Err(X402Error::PaymentTooHigh);
        }
        Ok(())
    }

    /// Moves the nonce on by one and returns it.
    pub fn increment_nonce(&mut self) -> (r: Result<u64, X402Error>)
        ensures
            old(self).nonce == u64::MAX ==> r == Err::<u64, X402Error>(X402Error::NonceOverflow)
                && *final(self) == *old(self),
            old(self).nonce < u64::MAX ==> r == Ok::<u64, X402Error>((old(self).nonce + 1) as u64)
                && *final(self) == (X402Config { nonce: (old(self).nonce + 1) as u64, ..*old(self) }),
    {
        if self.nonce == u64::MAX {
            return Err(X402Error::NonceOverflow);
        }
        self.nonce = self.nonce + 1;
        Ok(self.nonce)
    }

    /// Counts one accepted payment of `amount`. On failure nothing changes.
    pub fn record_payment(&mut self, amount: u64) -> (r: Result<(), X402Error>)
        ensures
            old(self).total_payments_received + amount > u64::MAX || old(self).total_service_calls == u64::MAX
                ==> r == Err::<(), X402Error>(X402Error::MathOverflow) && *final(self) == *old(self),
            old(self).total_payments_received + amount <= u64::MAX && old(self).total_service_calls < u64::MAX
                ==> r is Ok && *final(self) == (X402Config {
                    total_payments_received: (old(self).total_payments_received + amount) as u64,
                    total_service_calls: (old(self).total_service_calls + 1) as u64,
                    ..*old(self)
                }),
    {
        if self.total_payments_received > u64::MAX - amount || self.total_service_calls == u64::MAX {
            return Err(X402Error::MathOverflow);
        }
        self.total_payments_received = self.total_payments_received + amount;
        self.total_service_calls = self.total_service_calls + 1;
        Ok(())
    }

    /// Checks a payment before any value moves: payments enabled, amount
    /// within bounds, the nonce exactly one past the stored one, a service id
    /// of 1 to 32 bytes with at most 1024 bytes of parameters, and counters
    /// that can take it.
    pub fn authorize_payment(&self, request: &PaymentRequest) -> (r: Result<(), X402Error>)
        ensures
            r == request_check(*self, *request),
    {
        if !self.enabled {
            return Err(X402Error::PaymentsNotEnabled);
        }
        match self.validate_payment_amount(request.amount) {
            Ok(()) => {},
            Err(e) => return Err(e),
        }
        if self.nonce == u64::MAX || request.nonce != self.nonce + 1 {
            return Err(X402Error::NonceMismatch);
        }
        let id_len = request.service_id.as_str().len();
        if id_len == 0 || id_len > MAX_SERVICE_ID_LEN || request.service_params.len() > MAX_SERVICE_PARAMS_LEN {
            return Err(X402Error::InvalidServiceId);
        }
        if self.total_payments_received > u64::MAX - request.amount || self.total_service_calls == u64::MAX {
            return Err(X402Error::MathOverflow);
        }
        Ok(())
    }

    /// Accepts a payment whose value has moved to the recipient: checks it
    /// again, advances the nonce by one, counts the payment and returns its
    /// record, `Settled` when an agent paid and `Verified` otherwise. On
    /// failure the configuration is unchanged.
    pub fn settle_payment(&mut self, request: &PaymentRequest, timestamp: i64, bump: u8) -> (r: Result<X402PaymentRecord, X402Error>)
        ensures
            request_check(*old(self), *request) matches Err(e) ==> (r matches Err(f) && f == e
                && *final(self) == *old(self)),
            request_check(*old(self), *request) is Ok ==> (r matches Ok(record) && {
                &&& *final(self) == after_payment(*old(self), request.amount)
                &&& record.agent == old(self).agent
                &&& record.payer == request.payer
                &&& record.amount == request.amount
                &&& record.timestamp == timestamp
                &&& record.service_id == request.service_id
                &&& record.status == (if request.payer_is_agent { PaymentStatus::Settled } else { PaymentStatus::Verified })
                &&& record.bump == bump
            }),
    {
        match self.authorize_payment(request) {
            Ok(()) => {},
            Err(e) => return Err(e),
        }
        match self.increment_nonce() {
            Ok(_) => {},
            Err(e) => return Err(e),
        }
        match self.record_payment(request.amount) {
            Ok(()) => {},
            Err(e) => return Err(e),
        }
        let status = if request.payer_is_agent { PaymentStatus::Settled } else { PaymentStatus::Verified };
        Ok(X402PaymentRecord {
            agent: self.agent,
            payer: request.payer,
            amount: request.amount,
            timestamp,
            service_id: request.service_id.clone(),
            status,
            bump,
        })
    }
}

/// With no upper bound configured, every amount at or above the minimum
/// passes the bounds check, however large.
pub proof fn lemma_unbounded_max(cfg: X402Config, amount: u64)
    requires
        cfg.max_payment_amount == 0,
        amount >= cfg.min_payment_amount,
    ensures
        amount_check(cfg, amount) == Ok::<(), X402Error>(()),
{
}

/// Starting from nonce `N`, a payment that is otherwise valid succeeds with
/// nonce `N + 1` and leaves the stored nonce at `N + 1`; after it, the same
/// payment replayed fails with `NonceMismatch`, and so does any nonce but
/// `N + 2`.
pub proof fn lemma_nonce_sequence(cfg: X402Config, amount: u64, service_id: Seq<char>, params_len: nat)
    requires
        cfg.enabled,
        amount_check(cfg, amount) is Ok,
        1 <= byte_len(service_id) <= MAX_SERVICE_ID_LEN,
        params_len <= MAX_SERVICE_PARAMS_LEN,
        cfg.nonce < u64::MAX,
        cfg.total_payments_received + amount <= u64::MAX,
        cfg.total_service_calls < u64::MAX,
    ensures
        payment_check(cfg, amount, service_id, (cfg.nonce + 1) as u64, params_len) is Ok,
        after_payment(cfg, amount).nonce == cfg.nonce + 1,
        payment_check(after_payment(cfg, amount), amount, service_id, (cfg.nonce + 1) as u64, params_len)
            == Err::<(), X402Error>(X402Error::NonceMismatch),
        forall|n: u64| n != cfg.nonce + 2 ==> #[trigger] payment_check(after_payment(cfg, amount), amount, service_id, n, params_len)
            == Err::<(), X402Error>(X402Error::NonceMismatch),
{
}

} // verus!
