//! The frontend JSONL contract (version 1): account rows, banked-reset state and
//! the events a backend emits. Decoding from JSON happens at the process edge;
//! these are the values the verified logic reads.

use vstd::prelude::*;

verus! {

/// The contract version this frontend speaks.
pub const CONTRACT_VERSION: u8 = 1;

/// The auto-reset threshold (whole percent remaining) assumed when an older
/// backend omits `autoResetThresholdPercent`.
pub const DEFAULT_AUTO_RESET_THRESHOLD: u8 = 1;

/// One tracked account row, as the backend presents it.
#[derive(Clone, Debug)]
pub struct Account {
    pub provider: String,
    pub email: String,
    pub org: String,
    pub label: String,
    pub org_name: String,
    pub active: bool,
    pub tier: String,
    pub read_only: bool,
    pub can_switch: bool,
    pub windows: Vec<Window>,
    pub stale: String,
    pub fetched_at: String,
    pub error: String,
    pub recommended: bool,
    pub why: String,
    pub all_spent: bool,
    pub login: Login,
    pub banked_resets: Option<BankedResets>,
}

/// Banked Codex reset state of one account.
#[derive(Clone, Debug)]
pub struct BankedResets {
    /// `None` means unknown, never zero.
    pub available_count: Option<u32>,
    /// `None` means the details have not been fetched.
    pub credits: Option<Vec<BankedResetCredit>>,
    pub fetched_at: String,
    pub stale: String,
    pub error: String,
    pub can_redeem: bool,
    pub pending_request: Option<PendingResetRequest>,
    pub auto_reset: bool,
    /// Whole percent remaining (0..=99) at which automatic resets trigger.
    pub auto_reset_threshold_percent: u8,
    pub auto_reset_status: String,
}

/// One banked reset credit.
#[derive(Clone, Debug)]
pub struct BankedResetCredit {
    pub id: String,
    pub reset_type: String,
    pub status: String,
    pub granted_at: String,
    pub expires_at: String,
    pub title: String,
    pub description: String,
    pub can_redeem: bool,
}

/// A redemption request whose outcome is not yet known: its id, and the credit
/// it selected when one was chosen.
#[derive(Clone, Debug)]
pub struct PendingResetRequest {
    pub request_id: String,
    pub credit_id: Option<String>,
}

/// Login state of an account.
#[derive(Clone, Debug)]
pub struct Login {
    pub state: String,
    pub message: String,
}

/// One usage window of an account.
#[derive(Clone, Debug)]
pub struct Window {
    pub key: String,
    pub group: String,
    pub label: String,
    /// IEEE-754 bit pattern of the used percentage (an `f64`); the verified
    /// logic only carries it.
    pub percent_bits: u64,
    pub known: bool,
    pub resets_at: String,
    pub severity: String,
}

/// A structured backend error.
#[derive(Clone, Debug)]
pub struct Error {
    pub code: String,
    pub message: String,
}

/// The control line a frontend writes to cancel the running operation.
#[derive(Clone, Debug)]
pub struct Cancel {
    pub cancel: bool,
}

/// One event line of the backend's stdout.
#[derive(Clone, Debug)]
pub enum Event {
    Hello { version: u8, capabilities: Vec<String> },
    Progress { version: u8, phase: String, message: String },
    Result {
        version: u8,
        ok: bool,
        cancelled: bool,
        message: String,
        accounts: Option<Vec<Account>>,
        error: Option<Error>,
    },
    ErrorResponse { version: u8, code: String, message: String },
}

/// The value a missing `known` field of a window takes: a percentage is known
/// unless the backend says otherwise.
pub fn default_true() -> (r: bool)
    ensures
        r,
{
    true
}

/// The value a missing `autoResetThresholdPercent` takes.
pub fn default_auto_reset_threshold() -> (r: u8)
    ensures
        r == DEFAULT_AUTO_RESET_THRESHOLD,
{
    DEFAULT_AUTO_RESET_THRESHOLD
}

impl Default for Login {
    fn default() -> (r: Self)
        ensures
            r.state@ == Seq::<char>::empty(),
            r.message@ == Seq::<char>::empty(),
    {
        Login { state: String::new(), message: String::new() }
    }
}

impl Default for PendingResetRequest {
    fn default() -> (r: Self)
        ensures
            r.request_id@ == Seq::<char>::empty(),
            r.credit_id is None,
    {
        PendingResetRequest { request_id: String::new(), credit_id: None }
    }
}

impl Default for Window {
    fn default() -> (r: Self)
        ensures
            r.key@ == Seq::<char>::empty(),
            r.group@ == Seq::<char>::empty(),
            r.label@ == Seq::<char>::empty(),
            r.percent_bits == 0,
            !r.known,
            r.resets_at@ == Seq::<char>::empty(),
            r.severity@ == Seq::<char>::empty(),
    {
        Window {
            key: String::new(),
            group: String::new(),
            label: String::new(),
            percent_bits: 0,
            known: false,
            resets_at: String::new(),
            severity: String::new(),
        }
    }
}

impl Default for BankedResetCredit {
    fn default() -> (r: Self)
        ensures
            r.id@ == Seq::<char>::empty(),
            r.reset_type@ == Seq::<char>::empty(),
            r.status@ == Seq::<char>::empty(),
            r.granted_at@ == Seq::<char>::empty(),
            r.expires_at@ == Seq::<char>::empty(),
            r.title@ == Seq::<char>::empty(),
            r.description@ == Seq::<char>::empty(),
            !r.can_redeem,
    {
        BankedResetCredit {
            id: String::new(),
            reset_type: String::new(),
            status: String::new(),
            granted_at: String::new(),
            expires_at: String::new(),
            title: String::new(),
            description: String::new(),
            can_redeem: false,
        }
    }
}

impl Default for BankedResets {
    fn default() -> (r: Self)
        ensures
            r.available_count is None,
            r.credits is None,
            r.fetched_at@ == Seq::<char>::empty(),
            r.stale@ == Seq::<char>::empty(),
            r.error@ == Seq::<char>::empty(),
            !r.can_redeem,
            r.pending_request is None,
            !r.auto_reset,
            r.auto_reset_threshold_percent == DEFAULT_AUTO_RESET_THRESHOLD,
            r.auto_reset_status@ == Seq::<char>::empty(),
    {
        BankedResets {
            available_count: None,
            credits: None,
            fetched_at: String::new(),
            stale: String::new(),
            error: String::new(),
            can_redeem: false,
            pending_request: None,
            auto_reset: false,
            auto_reset_threshold_percent: DEFAULT_AUTO_RESET_THRESHOLD,
            auto_reset_status: String::new(),
        }
    }
}

impl Default for Account {
    fn default() -> (r: Self)
        ensures
            r.provider@ == Seq::<char>::empty(),
            r.email@ == Seq::<char>::empty(),
            r.org@ == Seq::<char>::empty(),
            r.label@ == Seq::<char>::empty(),
            r.org_name@ == Seq::<char>::empty(),
            !r.active,
            r.tier@ == Seq::<char>::empty(),
            !r.read_only,
            !r.can_switch,
            r.windows@.len() == 0,
            r.stale@ == Seq::<char>::empty(),
            r.fetched_at@ == Seq::<char>::empty(),
            r.error@ == Seq::<char>::empty(),
            !r.recommended,
            r.why@ == Seq::<char>::empty(),
            !r.all_spent,
            r.login.state@ == Seq::<char>::empty(),
            r.login.message@ == Seq::<char>::empty(),
            r.banked_resets is None,
    {
        Account {
            provider: String::new(),
            email: String::new(),
            org: String::new(),
            label: String::new(),
            org_name: String::new(),
            active: false,
            tier: String::new(),
            read_only: false,
            can_switch: false,
            windows: Vec::new(),
            stale: String::new(),
            fetched_at: String::new(),
            error: String::new(),
            recommended: false,
            why: String::new(),
            all_spent: false,
            login: Login::default(),
            banked_resets: None,
        }
    }
}

} // verus!
