//! The panel's state and decisions: which backend command a user action
//! launches, how an operation's outcome updates the display, reset intents and
//! threshold drafts, and when the window may close.

use vstd::prelude::*;
use vstd::hash_map::StringHashMap;
use crate::intents::{
    account_index, copy_request, find_account, get_or_create_reset_intent, intent_resolved,
    snapshot_confirms, threshold_saved_in_snapshot,
};
use crate::keys::{
    after_colon, auto_reset_arg_texts, auto_reset_args, first_colon, selector_arg_texts, selector_args,
    split_key, texts,
};
use crate::protocol::{Account, PendingResetRequest};
use crate::session::Message;
use crate::text::contains_str;

verus! {

/// Something the user asked the backend to do.
#[derive(Debug)]
pub enum Action {
    Status,
    Add(String, String),
    Login(String, String),
    Switch(String),
    Remove(String),
    Sync,
    Resets(String),
    Reset(String, Option<String>),
    AutoReset(String, Option<bool>, Option<u8>),
}

/// A backend command to run: `aiu frontend COMMAND ARGS...`.
#[derive(Debug)]
pub struct Launch {
    pub command: &'static str,
    pub args: Vec<String>,
}

/// The panel's state, apart from what only the window itself holds.
pub struct PanelState {
    /// Showing sample data: no backend command ever runs.
    pub fixture: bool,
    /// The backend executable was found.
    pub backend_available: bool,
    /// The provider that adding or signing in an account applies to.
    pub provider: String,
    pub accounts: Vec<Account>,
    /// An operation is running.
    pub busy: bool,
    pub quitting: bool,
    pub message: String,
    /// One intent per account with an unresolved reset redemption.
    pub reset_intents: StringHashMap<PendingResetRequest>,
    /// The account whose reset the running operation redeems.
    pub active_reset_key: Option<String>,
    /// Threshold edits not yet confirmed by the backend.
    pub auto_threshold_drafts: StringHashMap<u8>,
    /// The account and threshold the running operation saves.
    pub active_auto_threshold: Option<(String, u8)>,
}

/// The view of an optional string.
pub open spec fn opt_text(o: Option<String>) -> Option<Seq<char>> {
    match o {
        Some(s) => Some(s@),
        None => None,
    }
}

/// The view of an optional account key with a threshold.
pub open spec fn opt_keyed(o: Option<(String, u8)>) -> Option<(Seq<char>, u8)> {
    match o {
        Some((k, t)) => Some((k@, t)),
        None => None,
    }
}

/// The backend command an action runs.
pub open spec fn command_text(a: Action) -> Seq<char> {
    match a {
        Action::Status => "status"@,
        Action::Add(..) => "add"@,
        Action::Login(..) => "login"@,
        Action::Switch(..) => "switch"@,
        Action::Remove(..) => "remove"@,
        Action::Sync => "sync"@,
        Action::Resets(..) => "resets"@,
        Action::Reset(..) => "reset"@,
        Action::AutoReset(..) => "auto-reset"@,
    }
}

/// The arguments of every action but a reset.
pub open spec fn plain_arg_texts(a: Action) -> Seq<Seq<char>> {
    match a {
        Action::Add(p, l) => seq!["--provider"@, p@, "--label"@, l@],
        Action::Login(p, l) => seq!["--provider"@, p@, "--label"@, l@],
        Action::Switch(k) => selector_arg_texts(k@),
        Action::Remove(k) => selector_arg_texts(k@),
        Action::Resets(k) => selector_arg_texts(k@),
        Action::AutoReset(k, e, t) => auto_reset_arg_texts(k@, e, t),
        _ => Seq::empty(),
    }
}

/// The arguments of a confirmed reset of `key` under `intent`: the account,
/// the confirmation, the intent's id, and its credit when it selected one.
pub open spec fn reset_arg_texts(key: Seq<char>, intent: PendingResetRequest) -> Seq<Seq<char>> {
    seq!["--provider"@, "codex"@]
        + (if first_colon(key) is Some { seq![after_colon(key)] } else { Seq::empty() })
        + seq!["--yes"@, "--request-id"@, intent.request_id@]
        + (match intent.credit_id {
            Some(c) => seq!["--credit-id"@, c@],
            None => Seq::empty(),
        })
}

/// The request the backend reports as pending for `key`, read from the first
/// account row with that selector.
pub open spec fn backend_pending_for(accounts: Seq<Account>, key: Seq<char>) -> Option<PendingResetRequest> {
    match account_index(accounts, key) {
        Some(i) => match accounts[i].banked_resets {
            Some(b) => b.pending_request,
            None => None,
        },
        None => None,
    }
}

/// The running operation's reset account, for an action.
pub open spec fn reset_key_of(a: Action) -> Option<Seq<char>> {
    match a {
        Action::Reset(k, _) => Some(k@),
        _ => None,
    }
}

/// The running operation's saved threshold, for an action.
pub open spec fn threshold_of(a: Action) -> Option<(Seq<char>, u8)> {
    match a {
        Action::AutoReset(k, _, Some(t)) => Some((k@, t)),
        _ => None,
    }
}

/// Everything but the message is unchanged.
pub open spec fn same_but_message(a: PanelState, b: PanelState) -> bool {
    &&& a.fixture == b.fixture
    &&& a.backend_available == b.backend_available
    &&& a.provider == b.provider
    &&& a.accounts == b.accounts
    &&& a.busy == b.busy
    &&& a.quitting == b.quitting
    &&& a.reset_intents@ == b.reset_intents@
    &&& opt_text(a.active_reset_key) == opt_text(b.active_reset_key)
    &&& a.auto_threshold_drafts@ == b.auto_threshold_drafts@
    &&& opt_keyed(a.active_auto_threshold) == opt_keyed(b.active_auto_threshold)
}

/// What starting `action` does to the panel and which command it launches.
pub open spec fn begun(old: PanelState, action: Action, new: PanelState, r: Option<Launch>) -> bool {
    if old.busy || old.quitting {
        r is None && new == old
    } else if old.fixture {
        r is None && same_but_message(old, new) && new.message@ == "Sample data \u{2014} backend actions are disabled"@
    } else if !old.backend_available {
        r is None && new == old
    } else if action is Reset && r is None {
        // Only a new intent needs a random id; without one nothing starts.
        &&& backend_pending_for(old.accounts@, action->Reset_0@) is None
        &&& !old.reset_intents@.contains_key(action->Reset_0@)
        &&& same_but_message(old, new)
        &&& new.message@ == "Could not start AIU: no random bytes for a reset request id"@
    } else {
        &&& r is Some
        &&& r->0.command@ == command_text(action)
        &&& new.message@ == "Working\u{2026}"@
        &&& opt_text(new.active_reset_key) == reset_key_of(action)
        &&& opt_keyed(new.active_auto_threshold) == threshold_of(action)
        &&& new.fixture == old.fixture
        &&& new.backend_available == old.backend_available
        &&& new.provider == old.provider
        &&& new.accounts == old.accounts
        &&& new.busy == old.busy
        &&& new.quitting == old.quitting
        &&& new.auto_threshold_drafts@ == old.auto_threshold_drafts@
        &&& match action {
            Action::Reset(k, credit) => {
                &&& new.reset_intents@.contains_key(k@)
                &&& intent_resolved(
                    old.reset_intents@,
                    k@,
                    backend_pending_for(old.accounts@, k@),
                    credit,
                    Some(new.reset_intents@[k@]),
                    new.reset_intents@,
                )
                &&& texts(r->0.args@) == reset_arg_texts(k@, new.reset_intents@[k@])
            },
            _ => {
                &&& new.reset_intents@ == old.reset_intents@
                &&& texts(r->0.args@) == plain_arg_texts(action)
            },
        }
    }
}

/// The text shown for an operation's result.
pub open spec fn result_text(ok: bool, cancelled: bool, message: Seq<char>, error: Option<String>) -> Seq<char> {
    if cancelled {
        "Cancelled"@
    } else if ok {
        message
    } else {
        match error {
            Some(e) => e@,
            None => "AIU operation failed"@,
        }
    }
}

/// The view of an optional snapshot of accounts.
pub open spec fn accounts_view(a: Option<Vec<Account>>) -> Option<Seq<Account>> {
    match a {
        Some(v) => Some(v@),
        None => None,
    }
}

/// What an operation's message does to the panel.
pub open spec fn finished(old: PanelState, m: Message, new: PanelState, settled: bool) -> bool {
    match m {
        Message::Progress(text) => {
            &&& !settled
            &&& same_but_message(old, new)
            &&& new.message == text
        },
        Message::Failed(text) => {
            &&& !settled
            &&& new.message == text
            &&& !new.busy
            &&& new.active_reset_key is None
            &&& new.active_auto_threshold is None
            &&& new.fixture == old.fixture
            &&& new.backend_available == old.backend_available
            &&& new.provider == old.provider
            &&& new.accounts == old.accounts
            &&& new.quitting == old.quitting
            &&& new.reset_intents@ == old.reset_intents@
            &&& new.auto_threshold_drafts@ == old.auto_threshold_drafts@
        },
        Message::Result { ok, cancelled, message, accounts, error } => {
            let committed = ok && !cancelled;
            &&& settled
            &&& new.message@ == result_text(ok, cancelled, message@, error)
            &&& !new.busy
            &&& new.active_reset_key is None
            &&& new.active_auto_threshold is None
            &&& new.fixture == old.fixture
            &&& new.backend_available == old.backend_available
            &&& new.provider == old.provider
            &&& new.quitting == old.quitting
            // A refreshed snapshot replaces the display only on success.
            &&& new.accounts == (if ok && accounts is Some { accounts->0 } else { old.accounts })
            // A terminal provider response ends the reset intent; errors and
            // cancellations keep it for an exact retry.
            &&& new.reset_intents@ == (match old.active_reset_key {
                Some(k) => if committed { old.reset_intents@.remove(k@) } else { old.reset_intents@ },
                None => old.reset_intents@,
            })
            // A threshold draft clears only once the snapshot holds it.
            &&& new.auto_threshold_drafts@ == (match old.active_auto_threshold {
                Some((k, t)) =>
                    if committed && snapshot_confirms(accounts_view(accounts), k@, t) {
                        old.auto_threshold_drafts@.remove(k@)
                    } else {
                        old.auto_threshold_drafts@
                    },
                None => old.auto_threshold_drafts@,
            })
        },
    }
}

/// The arguments of a confirmed reset (see `reset_arg_texts`).
pub fn reset_args(key: &str, intent: &PendingResetRequest) -> (r: Vec<String>)
    ensures
        texts(r@) == reset_arg_texts(key@, *intent),
{
    let mut args: Vec<String> = Vec::new();
    args.push(String::from_str("--provider"));
    args.push(String::from_str("codex"));
    let ghost first = args@;
    let (_, rest) = split_key(key);
    if let Some(selector) = rest {
        args.push(selector);
    }
    let ghost second = args@;
    args.push(String::from_str("--yes"));
    args.push(String::from_str("--request-id"));
    args.push(intent.request_id.clone());
    let ghost third = args@;
    if let Some(id) = &intent.credit_id {
        args.push(String::from_str("--credit-id"));
        args.push(id.clone());
    }
    proof {
        let a: Seq<Seq<char>> = if first_colon(key@) is Some { seq![after_colon(key@)] } else { Seq::empty() };
        let c: Seq<Seq<char>> = match &intent.credit_id {
            Some(c) => seq!["--credit-id"@, c@],
            None => Seq::empty(),
        };
        assert(texts(first) =~= seq!["--provider"@, "codex"@]);
        assert(texts(second) =~= texts(first) + a);
        assert(texts(third) =~= texts(second) + seq!["--yes"@, "--request-id"@, intent.request_id@]);
        assert(texts(args@) =~= texts(third) + c);
    }
    args
}

impl PanelState {
    /// The request the backend reports as pending for `key`.
    pub fn backend_pending(&self, key: &str) -> (r: Option<PendingResetRequest>)
        ensures
            r == backend_pending_for(self.accounts@, key@),
    {
        match find_account(self.accounts.as_slice(), key) {
            Some(i) => match &self.accounts[i].banked_resets {
                Some(resets) => match &resets.pending_request {
                    Some(p) => Some(copy_request(p)),
                    None => None,
                },
                None => None,
            },
            None => None,
        }
    }

    /// Prepares `action`: decides whether it may run and, if so, which
    /// command to launch (see `begun`). The caller reports the launch's
    /// outcome with `launched` or `launch_failed`.
    pub fn begin(&mut self, action: Action) -> (r: Option<Launch>)
        ensures
            begun(*old(self), action, *final(self), r),
    {
        if self.busy || self.quitting {
            return None;
        }
        if self.fixture {
            self.message = String::from_str("Sample data \u{2014} backend actions are disabled");
            return None;
        }
        if !self.backend_available {
            return None;
        }
        let active_reset_key = match &action {
            Action::Reset(k, _) => Some(k.clone()),
            _ => None,
        };
        let active_auto_threshold = match &action {
            Action::AutoReset(k, _, Some(t)) => Some((k.clone(), *t)),
            _ => None,
        };
        let launch = match action {
            Action::Status => Launch { command: "status", args: Vec::new() },
            Action::Sync => Launch { command: "sync", args: Vec::new() },
            Action::Add(p, l) => Launch { command: "add", args: provider_label_args(p, l) },
            Action::Login(p, l) => Launch { command: "login", args: provider_label_args(p, l) },
            Action::Switch(k) => {
                let (command, args) = selector_args("switch", k);
                Launch { command, args }
            },
            Action::Remove(k) => {
                let (command, args) = selector_args("remove", k);
                Launch { command, args }
            },
            Action::Resets(k) => {
                let (command, args) = selector_args("resets", k);
                Launch { command, args }
            },
            Action::Reset(k, credit_id) => {
                let from_backend = self.backend_pending(k.as_str());
                match get_or_create_reset_intent(&mut self.reset_intents, k.as_str(), from_backend, credit_id) {
                    Some(intent) => Launch { command: "reset", args: reset_args(k.as_str(), &intent) },
                    None => {
                        self.message = String::from_str("Could not start AIU: no random bytes for a reset request id");
                        return None;
                    },
                }
            },
            Action::AutoReset(k, enabled, threshold) => {
                Launch { command: "auto-reset", args: auto_reset_args(k.as_str(), enabled, threshold) }
            },
        };
        proof {
            assert(texts(Seq::<String>::empty()) =~= Seq::<Seq<char>>::empty());
        }
        self.message = String::from_str("Working\u{2026}");
        self.active_reset_key = active_reset_key;
        self.active_auto_threshold = active_auto_threshold;
        Some(launch)
    }

    /// The launched command is running.
    pub fn launched(&mut self)
        ensures
            final(self).busy,
            final(self).message == old(self).message,
            final(self).fixture == old(self).fixture,
            final(self).backend_available == old(self).backend_available,
            final(self).provider == old(self).provider,
            final(self).accounts == old(self).accounts,
            final(self).quitting == old(self).quitting,
            final(self).reset_intents@ == old(self).reset_intents@,
            final(self).active_reset_key == old(self).active_reset_key,
            final(self).auto_threshold_drafts@ == old(self).auto_threshold_drafts@,
            final(self).active_auto_threshold == old(self).active_auto_threshold,
    {
        self.busy = true;
    }

    /// The command could not be started; `error` says why.
    pub fn launch_failed(&mut self, error: &str)
        ensures
            final(self).message@ == "Could not start AIU: "@ + error@,
            final(self).active_reset_key is None,
            final(self).active_auto_threshold is None,
            final(self).busy == old(self).busy,
            final(self).fixture == old(self).fixture,
            final(self).backend_available == old(self).backend_available,
            final(self).provider == old(self).provider,
            final(self).accounts == old(self).accounts,
            final(self).quitting == old(self).quitting,
            final(self).reset_intents@ == old(self).reset_intents@,
            final(self).auto_threshold_drafts@ == old(self).auto_threshold_drafts@,
    {
        self.active_reset_key = None;
        self.active_auto_threshold = None;
        self.message = String::from_str("Could not start AIU: ").concat(error);
    }

    /// Applies an operation's message (see `finished`). Returns whether the
    /// operation produced a result, which restarts the refresh interval.
    pub fn finish(&mut self, message: Message) -> (settled: bool)
        ensures
            finished(*old(self), message, *final(self), settled),
    {
        match message {
            Message::Progress(text) => {
                self.message = text;
                false
            },
            Message::Failed(text) => {
                self.active_reset_key = None;
                self.active_auto_threshold = None;
                self.message = text;
                self.busy = false;
                false
            },
            Message::Result { ok, cancelled, message, accounts, error } => {
                let completed_reset = self.active_reset_key.take();
                let completed_auto_threshold = self.active_auto_threshold.take();
                let acknowledged = match &completed_auto_threshold {
                    Some((key, threshold)) => {
                        let snapshot = match &accounts {
                            Some(v) => Some(v.as_slice()),
                            None => None,
                        };
                        threshold_saved_in_snapshot(snapshot, key.as_str(), *threshold)
                    },
                    None => false,
                };
                if ok {
                    if let Some(accounts) = accounts {
                        self.accounts = accounts;
                    }
                }
                if ok && !cancelled && acknowledged {
                    if let Some((key, _)) = &completed_auto_threshold {
                        self.auto_threshold_drafts.remove(key.as_str());
                    }
                }
                if ok && !cancelled {
                    if let Some(key) = &completed_reset {
                        self.reset_intents.remove(key.as_str());
                    }
                }
                self.message = if cancelled {
                    String::from_str("Cancelled")
                } else if ok {
                    message
                } else {
                    match error {
                        Some(e) => e,
                        None => String::from_str("AIU operation failed"),
                    }
                };
                self.busy = false;
                true
            },
        }
    }
}

/// The providers offered after reading the first `n` account rows: Codex,
/// then each other non-empty provider name the rows report, once, in order.
pub open spec fn provider_choices_for(accounts: Seq<Account>, n: nat) -> Seq<Seq<char>>
    decreases n,
{
    if n == 0 {
        seq!["codex"@]
    } else {
        let previous = provider_choices_for(accounts, (n - 1) as nat);
        let p = accounts[n - 1].provider@;
        if p.len() == 0 || previous.contains(p) {
            previous
        } else {
            previous.push(p)
        }
    }
}

/// What closing the window does.
#[derive(Debug, PartialEq, Eq)]
pub enum CloseDecision {
    /// Hide the window; the tray keeps the application running.
    HideToTray,
    /// Quit; when `cancel` is set the running operation must be cancelled and
    /// the window closes once it has settled.
    Quit { cancel: bool },
}

impl PanelState {
    /// A panel over `accounts`. Unless it shows sample data, a panel with a
    /// backend starts by asking it for the status; the command to launch is
    /// returned beside the panel.
    pub fn new(fixture: bool, backend_available: bool, accounts: Vec<Account>) -> (r: (PanelState, Option<Launch>))
        ensures
            r.0.fixture == fixture,
            r.0.backend_available == backend_available,
            r.0.provider@ == "codex"@,
            r.0.accounts == accounts,
            !r.0.busy,
            !r.0.quitting,
            r.0.reset_intents@ == Map::<Seq<char>, PendingResetRequest>::empty(),
            r.0.auto_threshold_drafts@ == Map::<Seq<char>, u8>::empty(),
            r.0.active_reset_key is None,
            r.0.active_auto_threshold is None,
            fixture ==> r.1 is None && r.0.message@ == "Sample data \u{2014} backend actions are disabled"@,
            !fixture && backend_available ==> (r.0.message@ == "Working\u{2026}"@
                && (r.1 matches Some(l) && l.command@ == "status"@ && l.args@.len() == 0)),
            !fixture && !backend_available ==> r.1 is None
                && r.0.message@ == "AIU backend executable is unavailable beside aiu-desktop"@,
    {
        let mut panel = PanelState {
            fixture,
            backend_available,
            provider: String::from_str("codex"),
            accounts,
            busy: false,
            quitting: false,
            message: String::new(),
            reset_intents: StringHashMap::new(),
            active_reset_key: None,
            auto_threshold_drafts: StringHashMap::new(),
            active_auto_threshold: None,
        };
        if fixture {
            panel.message = String::from_str("Sample data \u{2014} backend actions are disabled");
            (panel, None)
        } else if backend_available {
            let launch = panel.begin(Action::Status);
            proof {
                let l = launch->0;
                assert(texts(l.args@).len() == l.args@.len());
            }
            (panel, launch)
        } else {
            panel.message = String::from_str("AIU backend executable is unavailable beside aiu-desktop");
            (panel, None)
        }
    }

    /// Chooses the provider that adding or signing in applies to. Only the
    /// offered choices are accepted; anything else leaves the panel unchanged.
    pub fn select_provider(&mut self, name: &str) -> (r: bool)
        ensures
            r == provider_choices_for(old(self).accounts@, old(self).accounts@.len()).contains(name@),
            r ==> final(self).provider@ == name@,
            !r ==> final(self).provider == old(self).provider,
            final(self).message == old(self).message,
            final(self).fixture == old(self).fixture,
            final(self).backend_available == old(self).backend_available,
            final(self).accounts == old(self).accounts,
            final(self).busy == old(self).busy,
            final(self).quitting == old(self).quitting,
            final(self).reset_intents@ == old(self).reset_intents@,
            final(self).active_reset_key == old(self).active_reset_key,
            final(self).auto_threshold_drafts@ == old(self).auto_threshold_drafts@,
            final(self).active_auto_threshold == old(self).active_auto_threshold,
    {
        let choices = self.provider_choices();
        let offered = contains_str(&choices, name);
        proof {
            let c = provider_choices_for(self.accounts@, self.accounts@.len());
            if offered {
                let k = choose|k: int| 0 <= k < choices@.len() && #[trigger] choices@[k]@ == name@;
                assert(c[k] == name@);
            }
            if c.contains(name@) {
                let k = choose|k: int| 0 <= k < c.len() && c[k] == name@;
                assert(choices@[k]@ == name@);
            }
        }
        if offered {
            self.provider = String::from_str(name);
        }
        offered
    }

    /// The providers offered for adding or signing in: Codex, then every other
    /// provider the backend reports an account of, each once, in row order.
    pub fn provider_choices(&self) -> (r: Vec<String>)
        ensures
            texts(r@) == provider_choices_for(self.accounts@, self.accounts@.len()),
    {
        let mut choices: Vec<String> = Vec::new();
        choices.push(String::from_str("codex"));
        proof {
            assert(texts(choices@) =~= seq!["codex"@]);
        }
        let mut i: usize = 0;
        while i < self.accounts.len()
            invariant
                i <= self.accounts@.len(),
                texts(choices@) == provider_choices_for(self.accounts@, i as nat),
            decreases self.accounts@.len() - i,
        {
            let provider = &self.accounts[i].provider;
            let seen = contains_str(&choices, provider.as_str());
            let ghost before = choices@;
            proof {
                let prev = provider_choices_for(self.accounts@, i as nat);
                if seen {
                    let k = choose|k: int| 0 <= k < before.len() && #[trigger] before[k]@ == provider@;
                    assert(prev[k] == provider@);
                }
                if prev.contains(provider@) {
                    let k = choose|k: int| 0 <= k < prev.len() && prev[k] == provider@;
                    assert(before[k]@ == provider@);
                }
            }
            if provider.unicode_len() != 0 && !seen {
                choices.push(provider.clone());
                proof {
                    assert(texts(choices@) =~= texts(before).push(provider@));
                }
            }
            i = i + 1;
        }
        choices
    }

    /// Whether user actions may start backend commands now.
    pub open spec fn spec_editable(&self) -> bool {
        !self.busy && !self.fixture
    }

    /// Whether user actions may start backend commands now.
    pub fn editable(&self) -> (r: bool)
        ensures
            r == self.spec_editable(),
    {
        !self.busy && !self.fixture
    }

    /// Begins quitting. Returns whether a running operation must be cancelled;
    /// the window closes only once it has settled.
    pub fn quit(&mut self) -> (cancel: bool)
        ensures
            cancel == old(self).busy,
            final(self).quitting,
            final(self).message@ == "Finishing current operation\u{2026}"@,
            final(self).busy == old(self).busy,
            final(self).fixture == old(self).fixture,
            final(self).backend_available == old(self).backend_available,
            final(self).provider == old(self).provider,
            final(self).accounts == old(self).accounts,
            final(self).reset_intents@ == old(self).reset_intents@,
            final(self).active_reset_key == old(self).active_reset_key,
            final(self).auto_threshold_drafts@ == old(self).auto_threshold_drafts@,
            final(self).active_auto_threshold == old(self).active_auto_threshold,
    {
        self.quitting = true;
        self.message = String::from_str("Finishing current operation\u{2026}");
        self.busy
    }

    /// Whether the window may close now: quitting, and no operation is left
    /// to settle.
    pub fn should_close(&self) -> (r: bool)
        ensures
            r == (self.quitting && !self.busy),
    {
        self.quitting && !self.busy
    }

    /// The user asked to close the window. With a tray it hides instead,
    /// unless the application is already quitting; otherwise it quits.
    pub fn close_requested(&mut self, tray_present: bool) -> (r: CloseDecision)
        ensures
            tray_present && !old(self).quitting ==> r == CloseDecision::HideToTray && *final(self) == *old(self),
            !(tray_present && !old(self).quitting) ==> {
                &&& r == CloseDecision::Quit { cancel: old(self).busy }
                &&& final(self).quitting
                &&& final(self).message@ == "Finishing current operation\u{2026}"@
                &&& final(self).busy == old(self).busy
                &&& final(self).provider == old(self).provider
                &&& final(self).fixture == old(self).fixture
                &&& final(self).backend_available == old(self).backend_available
                &&& final(self).active_reset_key == old(self).active_reset_key
                &&& final(self).active_auto_threshold == old(self).active_auto_threshold
                &&& final(self).accounts == old(self).accounts
                &&& final(self).reset_intents@ == old(self).reset_intents@
                &&& final(self).auto_threshold_drafts@ == old(self).auto_threshold_drafts@
            },
    {
        if tray_present && !self.quitting {
            CloseDecision::HideToTray
        } else {
            let cancel = self.quit();
            CloseDecision::Quit { cancel }
        }
    }

    /// Whether the periodic status refresh is due after `elapsed_secs`
    /// seconds since the last result.
    pub fn should_poll(&self, elapsed_secs: u64) -> (r: bool)
        ensures
            r == (!self.busy && !self.fixture && elapsed_secs >= 60),
    {
        !self.busy && !self.fixture && elapsed_secs >= 60
    }

    /// The user pressed Cancel. Returns whether there is an operation to
    /// cancel; if so the panel says it is cancelling.
    pub fn request_cancel(&mut self) -> (r: bool)
        ensures
            r == old(self).busy,
            r ==> final(self).message@ == "Cancelling\u{2026}"@ && same_but_message(*old(self), *final(self)),
            !r ==> *final(self) == *old(self),
    {
        if self.busy {
            self.message = String::from_str("Cancelling\u{2026}");
            true
        } else {
            false
        }
    }
}

fn provider_label_args(provider: String, label: String) -> (r: Vec<String>)
    ensures
        texts(r@) == seq!["--provider"@, provider@, "--label"@, label@],
{
    let mut args: Vec<String> = Vec::new();
    args.push(String::from_str("--provider"));
    args.push(provider);
    args.push(String::from_str("--label"));
    args.push(label);
    proof {
        assert(texts(args@) =~= seq!["--provider"@, provider@, "--label"@, label@]);
    }
    args
}

} // verus!
