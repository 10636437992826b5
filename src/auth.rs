//! The device-flow authentication poller: it reads the device-code answer,
//! then classifies each answer of the token endpoint and says how long to
//! wait before the next poll, or how the exchange ended.
use vstd::prelude::*;
use crate::text::opt_seq;

verus! {

/// Why a device-flow exchange failed.
#[derive(Debug, PartialEq, Eq)]
pub enum AuthFailure {
    /// The device-code answer lacks `device_code`.
    MissingDeviceCode,
    /// The device-code answer lacks `user_code`.
    MissingUserCode,
    /// The device-code answer lacks `verification_uri`.
    MissingVerificationUri,
    /// The code expired before the user authorized it.
    Expired,
    /// The user denied access.
    Denied,
    /// The token endpoint answered with another error code.
    Unknown(String),
}

/// A failure with its texts as sequences of characters.
pub enum Failure {
    MissingDeviceCode,
    MissingUserCode,
    MissingVerificationUri,
    Expired,
    Denied,
    Unknown(Seq<char>),
}

impl View for AuthFailure {
    type V = Failure;

    open spec fn view(&self) -> Failure {
        match self {
            AuthFailure::MissingDeviceCode => Failure::MissingDeviceCode,
            AuthFailure::MissingUserCode => Failure::MissingUserCode,
            AuthFailure::MissingVerificationUri => Failure::MissingVerificationUri,
            AuthFailure::Expired => Failure::Expired,
            AuthFailure::Denied => Failure::Denied,
            AuthFailure::Unknown(code) => Failure::Unknown(code@),
        }
    }
}

/// The client identifier of the GitHub App that the device flow signs in to.
pub const CLIENT_ID: &'static str = "Ov23liQIMCvcASsBifc1";

/// The wait between polls where the device-code answer names none.
pub const DEFAULT_INTERVAL: u64 = 5;

/// The extra wait after the endpoint asks to slow down.
pub const SLOW_DOWN_DELAY: u64 = 5;

/// The device-code answer: what the user is shown and what the poller sends.
pub struct DeviceCode {
    pub device_code: String,
    pub user_code: String,
    pub verification_uri: String,
    /// Seconds to wait between polls.
    pub interval: u64,
}

impl DeviceCode {
    /// Reads the device-code answer from its fields: each of the three codes
    /// is required, in this order; the interval defaults to five seconds.
    pub fn from_fields(
        device_code: Option<String>,
        user_code: Option<String>,
        verification_uri: Option<String>,
        interval: Option<u64>,
    ) -> (r: Result<DeviceCode, AuthFailure>)
        ensures
            device_code.is_none() ==> r == Err::<DeviceCode, AuthFailure>(AuthFailure::MissingDeviceCode),
            device_code.is_some() && user_code.is_none() ==> r == Err::<DeviceCode, AuthFailure>(
                AuthFailure::MissingUserCode,
            ),
            device_code.is_some() && user_code.is_some() && verification_uri.is_none() ==> r == Err::<
                DeviceCode,
                AuthFailure,
            >(AuthFailure::MissingVerificationUri),
            r.is_ok() == (device_code.is_some() && user_code.is_some() && verification_uri.is_some()),
            r.is_ok() ==> {
                let d = r.unwrap();
                &&& d.device_code@ == device_code.unwrap()@
                &&& d.user_code@ == user_code.unwrap()@
                &&& d.verification_uri@ == verification_uri.unwrap()@
                &&& d.interval == match interval {
                    Some(i) => i,
                    None => DEFAULT_INTERVAL,
                }
            },
    {
        let device_code = match device_code {
            Some(c) => c,
            None => return Err(AuthFailure::MissingDeviceCode),
        };
        let user_code = match user_code {
            Some(c) => c,
            None => return Err(AuthFailure::MissingUserCode),
        };
        let verification_uri = match verification_uri {
            Some(u) => u,
            None => return Err(AuthFailure::MissingVerificationUri),
        };
        let interval = match interval {
            Some(i) => i,
            None => DEFAULT_INTERVAL,
        };
        Ok(DeviceCode { device_code, user_code, verification_uri, interval })
    }
}

/// One answer of the token endpoint: its `access_token` and `error` fields.
pub struct TokenReply {
    pub access_token: Option<String>,
    pub error: Option<String>,
}

/// Where an exchange stands.
#[derive(Debug, Clone, Copy, PartialEq, Eq, Structural)]
pub enum Phase {
    /// Waiting for the user; poll after `wait` seconds.
    Awaiting,
    /// The endpoint handed out the token.
    Succeeded,
    /// The exchange ended with a failure.
    Failed,
}

/// The state of the poller.
pub struct PollerState {
    pub interval: u64,
    pub wait: u64,
    pub polls: nat,
    pub phase: Phase,
    pub token: Seq<char>,
    pub failure: Failure,
}

/// The poller of one device-flow exchange.
pub struct TokenPoller {
    interval: u64,
    wait: u64,
    polls: u64,
    phase: Phase,
    token: String,
    failure: AuthFailure,
}

impl View for TokenPoller {
    type V = PollerState;

    closed spec fn view(&self) -> PollerState {
        PollerState {
            interval: self.interval,
            wait: self.wait,
            polls: self.polls as nat,
            phase: self.phase,
            token: self.token@,
            failure: self.failure@,
        }
    }
}

/// The answer that tells the poller to keep waiting.
pub open spec fn pending_code() -> Seq<char> {
    "authorization_pending"@
}

/// The answer that tells the poller to wait longer.
pub open spec fn slow_down_code() -> Seq<char> {
    "slow_down"@
}

/// The answer that says the code expired.
pub open spec fn expired_code() -> Seq<char> {
    "expired_token"@
}

/// The answer that says the user denied access.
pub open spec fn denied_code() -> Seq<char> {
    "access_denied"@
}

/// The poller before its first poll.
pub open spec fn poller_start(interval: u64) -> PollerState {
    PollerState {
        interval,
        wait: interval,
        polls: 0,
        phase: Phase::Awaiting,
        token: Seq::empty(),
        failure: Failure::Expired,
    }
}

/// The wait after a request to slow down: the interval and five seconds more.
pub open spec fn slowed(interval: u64) -> u64 {
    if interval <= u64::MAX - SLOW_DOWN_DELAY {
        (interval + SLOW_DOWN_DELAY) as u64
    } else {
        u64::MAX
    }
}

/// Where the poller goes on an answer with these `access_token` and `error`
/// fields. A token ends the exchange; `authorization_pending`, or no error
/// at all, waits the interval; `slow_down` waits five seconds more;
/// `expired_token`, `access_denied` and any other code end it with a failure.
/// An exchange that is over stays as it is.
pub open spec fn poll_next(s: PollerState, token: Option<Seq<char>>, error: Option<Seq<char>>) -> PollerState {
    if s.phase != Phase::Awaiting {
        s
    } else {
        let s1 = PollerState { polls: s.polls + 1, ..s };
        match token {
            Some(t) => PollerState { phase: Phase::Succeeded, token: t, ..s1 },
            None => match error {
                None => PollerState { wait: s.interval, ..s1 },
                Some(code) => if code == pending_code() {
                    PollerState { wait: s.interval, ..s1 }
                } else if code == slow_down_code() {
                    PollerState { wait: slowed(s.interval), ..s1 }
                } else if code == expired_code() {
                    PollerState { phase: Phase::Failed, failure: Failure::Expired, ..s1 }
                } else if code == denied_code() {
                    PollerState { phase: Phase::Failed, failure: Failure::Denied, ..s1 }
                } else {
                    PollerState { phase: Phase::Failed, failure: Failure::Unknown(code), ..s1 }
                },
            },
        }
    }
}

/// The poller after it has been handed the answers in order, each as its
/// `access_token` and `error` fields; it takes no answer once the exchange
/// is over.
pub open spec fn poll_all(
    s: PollerState,
    replies: Seq<(Option<Seq<char>>, Option<Seq<char>>)>,
) -> PollerState
    decreases replies.len(),
{
    if replies.len() == 0 || s.phase != Phase::Awaiting {
        s
    } else {
        poll_all(poll_next(s, replies[0].0, replies[0].1), replies.drop_first())
    }
}

/// Answers `authorization_pending`, `authorization_pending`, then a token:
/// the exchange succeeds with that token after exactly three polls, whatever
/// answers would follow. An answer `expired_token` ends it with a failure
/// after one poll, and no later answer is taken.
pub proof fn lemma_poll_script(
    interval: u64,
    token: Seq<char>,
    rest: Seq<(Option<Seq<char>>, Option<Seq<char>>)>,
)
    ensures
        ({
            let pending = (None::<Seq<char>>, Some(pending_code()));
            let s = poll_all(
                poller_start(interval),
                seq![pending, pending, (Some(token), None::<Seq<char>>)] + rest,
            );
            s.phase == Phase::Succeeded && s.token == token && s.polls == 3
        }),
        ({
            let f = poll_all(
                poller_start(interval),
                seq![(None::<Seq<char>>, Some(expired_code()))] + rest,
            );
            f.phase == Phase::Failed && f.failure == Failure::Expired && f.polls == 1
        }),
{
    reveal_strlit("authorization_pending");
    reveal_strlit("slow_down");
    reveal_strlit("expired_token");
    let pending = (None::<Seq<char>>, Some(pending_code()));
    let r1 = seq![pending, pending, (Some(token), None::<Seq<char>>)] + rest;
    let s0 = poller_start(interval);
    let s1 = poll_next(s0, r1[0].0, r1[0].1);
    let s2 = poll_next(s1, r1[1].0, r1[1].1);
    let s3 = poll_next(s2, r1[2].0, r1[2].1);
    assert(r1.drop_first()[0] == r1[1]);
    assert(r1.drop_first().drop_first()[0] == r1[2]);
    assert(poll_all(s0, r1) == poll_all(s1, r1.drop_first()));
    assert(poll_all(s1, r1.drop_first()) == poll_all(s2, r1.drop_first().drop_first()));
    assert(poll_all(s2, r1.drop_first().drop_first()) == poll_all(
        s3,
        r1.drop_first().drop_first().drop_first(),
    ));
    assert(s3.phase == Phase::Succeeded);
    let r2 = seq![(None::<Seq<char>>, Some(expired_code()))] + rest;
    let f1 = poll_next(s0, r2[0].0, r2[0].1);
    assert(expired_code().len() != pending_code().len());
    assert(expired_code().len() != slow_down_code().len());
    assert(poll_all(s0, r2) == poll_all(f1, r2.drop_first()));
    assert(f1.phase == Phase::Failed);
}

/// Whether `code` is the text `lit`.
fn is_code(code: &String, lit: &str) -> (r: bool)
    ensures
        r == (code@ == lit@),
{
    let expected = String::from_str(lit);
    *code == expected
}

impl TokenPoller {
    /// A poller that waits `interval` seconds before each poll.
    pub fn new(interval: u64) -> (r: TokenPoller)
        ensures
            r@ == poller_start(interval),
    {
        TokenPoller {
            interval,
            wait: interval,
            polls: 0,
            phase: Phase::Awaiting,
            token: String::new(),
            failure: AuthFailure::Expired,
        }
    }

    /// Hands in the next answer of the token endpoint and returns where the
    /// exchange stands.
    pub fn on_reply(&mut self, reply: TokenReply) -> (r: Phase)
        requires
            old(self)@.polls < u64::MAX,
        ensures
            final(self)@ == poll_next(old(self)@, opt_seq(reply.access_token), opt_seq(reply.error)),
            r == final(self)@.phase,
    {
        if self.phase != Phase::Awaiting {
            return self.phase;
        }
        self.polls = self.polls + 1;
        match reply.access_token {
            Some(t) => {
                self.token = t;
                self.phase = Phase::Succeeded;
            },
            None => match reply.error {
                None => {
                    self.wait = self.interval;
                },
                Some(code) => {
                    if is_code(&code, "authorization_pending") {
                        self.wait = self.interval;
                    } else if is_code(&code, "slow_down") {
                        self.wait = if self.interval <= u64::MAX - SLOW_DOWN_DELAY {
                            self.interval + SLOW_DOWN_DELAY
                        } else {
                            u64::MAX
                        };
                    } else if is_code(&code, "expired_token") {
                        self.failure = AuthFailure::Expired;
                        self.phase = Phase::Failed;
                    } else if is_code(&code, "access_denied") {
                        self.failure = AuthFailure::Denied;
                        self.phase = Phase::Failed;
                    } else {
                        self.failure = AuthFailure::Unknown(code);
                        self.phase = Phase::Failed;
                    }
                },
            },
        }
        self.phase
    }

    /// Where the exchange stands.
    pub fn phase(&self) -> (r: Phase)
        ensures
            r == self@.phase,
    {
        self.phase
    }

    /// Seconds to wait before the next poll.
    pub fn wait(&self) -> (r: u64)
        ensures
            r == self@.wait,
    {
        self.wait
    }

    /// The number of answers handed in while the exchange was open.
    pub fn polls(&self) -> (r: u64)
        ensures
            r == self@.polls,
    {
        self.polls
    }

    /// The token, once the exchange succeeded.
    pub fn token(&self) -> (r: &String)
        ensures
            r@ == self@.token,
    {
        &self.token
    }

    /// The failure, once the exchange failed.
    pub fn failure(&self) -> (r: &AuthFailure)
        ensures
            r@ == self@.failure,
    {
        &self.failure
    }
}

} // verus!
