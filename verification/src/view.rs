//! What the panel offers for each account: banked-reset controls, threshold
//! drafts, the reset confirmation and usage-window labels.

use vstd::prelude::*;
use crate::intents::{account_index, current_threshold_draft, draft_resolved, find_account};
use crate::keys::{selector, selector_text};
use crate::panel::{same_but_message, PanelState};
use crate::protocol::{Account, BankedResetCredit, BankedResets, Window};
use crate::text::{decimal, u64_to_decimal};

verus! {

/// The banked-reset control an account row offers.
#[derive(Debug)]
pub enum ResetControl {
    /// A redemption is pending or uncertain: retry it with the same request.
    Retry { credit_id: Option<String> },
    /// Redeem this particular credit.
    UseCredit { credit: String, title: String },
    /// Redeem whichever credit the provider chooses.
    UseNext,
    /// Nothing can be redeemed now.
    Unavailable,
}

/// How a usage window's percentage is shown.
#[derive(Debug, PartialEq, Eq)]
pub enum WindowStatus {
    Locked,
    Unknown,
    Known,
}

/// The reset confirmation dialog: whom it names and whether confirming is
/// allowed.
#[derive(Debug)]
pub struct Confirmation {
    pub identity: String,
    pub enabled: bool,
}

/// Whether the account has a reset that is pending locally or at the backend.
pub open spec fn reset_pending_for(p: PanelState, a: Account) -> bool {
    p.reset_intents@.contains_key(selector_text(a))
        || (a.banked_resets is Some && a.banked_resets->0.pending_request is Some)
}

/// The index of the first redeemable credit, searching from `i`.
pub open spec fn redeemable_from(cs: Seq<BankedResetCredit>, i: int) -> Option<int>
    decreases cs.len() - i,
{
    if i < 0 || i >= cs.len() {
        None
    } else if cs[i].can_redeem {
        Some(i)
    } else {
        redeemable_from(cs, i + 1)
    }
}

/// The title a credit's button carries.
pub open spec fn credit_title(c: BankedResetCredit) -> Seq<char> {
    if c.title@.len() == 0 { "Use a reset"@ } else { c.title@ }
}

/// The control the rules give an account row.
pub open spec fn reset_control_for(p: PanelState, a: Account, r: ResetControl) -> bool {
    let key = selector_text(a);
    match a.banked_resets {
        None => r is Unavailable,
        Some(resets) =>
            if p.reset_intents@.contains_key(key) {
                r matches ResetControl::Retry { credit_id } && credit_id == p.reset_intents@[key].credit_id
            } else if resets.pending_request is Some {
                r matches ResetControl::Retry { credit_id } && credit_id == resets.pending_request->0.credit_id
            } else if resets.can_redeem {
                match resets.credits {
                    Some(cs) => match redeemable_from(cs@, 0) {
                        Some(i) => r matches ResetControl::UseCredit { credit, title }
                            && credit@ == cs@[i].id@ && title@ == credit_title(cs@[i]),
                        None => r is UseNext,
                    },
                    None => r is UseNext,
                }
            } else {
                r is Unavailable
            },
    }
}

/// The workspace an account is shown under: its organisation's name, or its
/// organisation id when the name is empty.
pub open spec fn workspace_text(a: Account) -> Seq<char> {
    if a.org_name@.len() == 0 { a.org@ } else { a.org_name@ }
}

/// Whether the account still offers the chosen credit (any credit, when none
/// was chosen).
pub open spec fn credit_available(a: Account, credit_id: Option<String>) -> bool {
    a.banked_resets matches Some(r) && r.can_redeem && match credit_id {
        None => true,
        Some(id) => r.credits matches Some(cs) && exists|j: int| 0 <= j < cs@.len()
            && #[trigger] cs@[j].id@ == id@ && cs@[j].can_redeem,
    }
}

/// The confirmation dialog for redeeming a reset of `key`.
pub open spec fn confirmation_for(p: PanelState, key: Seq<char>, credit_id: Option<String>, c: Confirmation) -> bool {
    match account_index(p.accounts@, key) {
        Some(i) => {
            let a = p.accounts@[i];
            &&& c.identity@ == a.email@ + " ("@ + workspace_text(a) + ")"@
            &&& c.enabled == (p.spec_editable() && !reset_pending_for(p, a) && credit_available(a, credit_id))
        },
        None => {
            &&& c.identity@ == key
            &&& !c.enabled
        },
    }
}

fn copy_text(s: &Option<String>) -> (r: Option<String>)
    ensures
        r == *s,
{
    match s {
        Some(t) => Some(t.clone()),
        None => None,
    }
}

impl PanelState {
    /// Whether the account has a pending or uncertain reset.
    pub fn reset_pending(&self, account: &Account) -> (r: bool)
        ensures
            r == reset_pending_for(*self, *account),
    {
        let key = selector(account);
        if self.reset_intents.contains_key(key.as_str()) {
            return true;
        }
        match &account.banked_resets {
            Some(resets) => resets.pending_request.is_some(),
            None => false,
        }
    }

    /// The banked-reset control of an account row (see `reset_control_for`).
    #[verifier::loop_isolation(false)]
    pub fn reset_control(&self, account: &Account) -> (r: ResetControl)
        ensures
            reset_control_for(*self, *account, r),
    {
        let resets = match &account.banked_resets {
            Some(resets) => resets,
            None => {
                return ResetControl::Unavailable;
            },
        };
        let key = selector(account);
        if let Some(intent) = self.reset_intents.get(key.as_str()) {
            return ResetControl::Retry { credit_id: copy_text(&intent.credit_id) };
        }
        if let Some(pending) = &resets.pending_request {
            return ResetControl::Retry { credit_id: copy_text(&pending.credit_id) };
        }
        if !resets.can_redeem {
            return ResetControl::Unavailable;
        }
        let credits = match &resets.credits {
            Some(credits) => credits,
            None => {
                return ResetControl::UseNext;
            },
        };
        let mut i: usize = 0;
        while i < credits.len()
            invariant
                i <= credits@.len(),
                redeemable_from(credits@, 0) == redeemable_from(credits@, i as int),
            decreases credits@.len() - i,
        {
            let credit = &credits[i];
            if credit.can_redeem {
                let title = if credit.title.unicode_len() == 0 {
                    String::from_str("Use a reset")
                } else {
                    credit.title.clone()
                };
                return ResetControl::UseCredit { credit: credit.id.clone(), title };
            }
            i = i + 1;
        }
        ResetControl::UseNext
    }

    /// Whether a credit's own "Use" button is enabled (editability aside).
    pub fn can_use_credit(&self, account: &Account, credit: &BankedResetCredit) -> (r: bool)
        ensures
            r == (!reset_pending_for(*self, *account) && account.banked_resets is Some
                && account.banked_resets->0.can_redeem && credit.can_redeem),
    {
        if self.reset_pending(account) {
            return false;
        }
        match &account.banked_resets {
            Some(resets) => resets.can_redeem && credit.can_redeem,
            None => false,
        }
    }

    /// The threshold control of `key` shows this value (see
    /// `current_threshold_draft`).
    pub fn threshold_draft(&mut self, key: &str, saved: u8) -> (r: u8)
        ensures
            draft_resolved(old(self).auto_threshold_drafts@, key@, saved, r, final(self).auto_threshold_drafts@),
            final(self).accounts == old(self).accounts,
            final(self).busy == old(self).busy,
            final(self).message == old(self).message,
            final(self).reset_intents@ == old(self).reset_intents@,
            final(self).quitting == old(self).quitting,
            final(self).fixture == old(self).fixture,
            final(self).backend_available == old(self).backend_available,
            final(self).provider == old(self).provider,
            final(self).active_reset_key == old(self).active_reset_key,
            final(self).active_auto_threshold == old(self).active_auto_threshold,
    {
        current_threshold_draft(&mut self.auto_threshold_drafts, key, saved)
    }

    /// The user edited the threshold of `key` to `value`. The draft is capped
    /// at 99% remaining; a draft equal to the saved value is not kept.
    pub fn edit_threshold_draft(&mut self, key: &str, value: u8, saved: u8) -> (r: u8)
        ensures
            r == (if value > 99 { 99 } else { value }),
            final(self).auto_threshold_drafts@ == (if r == saved {
                old(self).auto_threshold_drafts@.remove(key@)
            } else {
                old(self).auto_threshold_drafts@.insert(key@, r)
            }),
            final(self).accounts == old(self).accounts,
            final(self).busy == old(self).busy,
            final(self).message == old(self).message,
            final(self).reset_intents@ == old(self).reset_intents@,
            final(self).quitting == old(self).quitting,
            final(self).fixture == old(self).fixture,
            final(self).backend_available == old(self).backend_available,
            final(self).provider == old(self).provider,
            final(self).active_reset_key == old(self).active_reset_key,
            final(self).active_auto_threshold == old(self).active_auto_threshold,
    {
        let draft = if value > 99 { 99 } else { value };
        if draft == saved {
            self.auto_threshold_drafts.remove(key);
        } else {
            self.auto_threshold_drafts.insert(String::from_str(key), draft);
        }
        draft
    }

    /// Whether "Save threshold" is enabled: the draft differs from the saved
    /// value and actions are allowed.
    pub fn can_save_threshold(&self, draft: u8, saved: u8) -> (r: bool)
        ensures
            r == (self.spec_editable() && draft != saved),
    {
        self.editable() && draft != saved
    }

    /// The confirmation dialog for redeeming a reset of `key` (see
    /// `confirmation_for`).
    pub fn confirmation(&self, key: &str, credit_id: &Option<String>) -> (c: Confirmation)
        ensures
            confirmation_for(*self, key@, *credit_id, c),
    {
        let editable = self.editable();
        match find_account(self.accounts.as_slice(), key) {
            None => Confirmation { identity: String::from_str(key), enabled: false },
            Some(i) => {
                let account = &self.accounts[i];
                let workspace = if account.org_name.unicode_len() == 0 { &account.org } else { &account.org_name };
                let identity = account.email.clone().concat(" (").concat(workspace.as_str()).concat(")");
                let pending = self.reset_pending(account);
                let available = credit_available_now(account, credit_id);
                Confirmation { identity, enabled: editable && !pending && available }
            },
        }
    }
}

/// Whether the account still offers the chosen credit.
#[verifier::loop_isolation(false)]
pub fn credit_available_now(account: &Account, credit_id: &Option<String>) -> (r: bool)
    ensures
        r == credit_available(*account, *credit_id),
{
    let resets = match &account.banked_resets {
        Some(resets) => resets,
        None => {
            return false;
        },
    };
    if !resets.can_redeem {
        return false;
    }
    let id = match credit_id {
        None => {
            return true;
        },
        Some(id) => id,
    };
    let credits = match &resets.credits {
        Some(credits) => credits,
        None => {
            return false;
        },
    };
    let mut j: usize = 0;
    while j < credits.len()
        invariant
            j <= credits@.len(),
            forall|k: int| 0 <= k < j ==> !(#[trigger] credits@[k].id@ == id@ && credits@[k].can_redeem),
        decreases credits@.len() - j,
    {
        if credits[j].id == *id && credits[j].can_redeem {
            return true;
        }
        j = j + 1;
    }
    false
}

/// Whether the row shows banked-reset controls: Codex accounts that report
/// banked-reset state.
pub fn shows_banked_resets(account: &Account) -> (r: bool)
    ensures
        r == (account.provider@ == "codex"@ && account.banked_resets is Some),
{
    account.provider == String::from_str("codex") && account.banked_resets.is_some()
}

/// How a window's usage is shown: locked windows say so, unknown
/// percentages are never shown as a number.
pub fn window_status(w: &Window) -> (r: WindowStatus)
    ensures
        r == (if w.severity@ == "locked"@ {
            WindowStatus::Locked
        } else if !w.known {
            WindowStatus::Unknown
        } else {
            WindowStatus::Known
        }),
{
    if w.severity == String::from_str("locked") {
        WindowStatus::Locked
    } else if !w.known {
        WindowStatus::Unknown
    } else {
        WindowStatus::Known
    }
}

/// A window's caption: its label, or its key when the label is empty.
pub fn window_caption(w: &Window) -> (r: String)
    ensures
        r@ == (if w.label@.len() == 0 { w.key@ } else { w.label@ }),
{
    if w.label.unicode_len() == 0 { w.key.clone() } else { w.label.clone() }
}

/// How the reset balance is captioned: an unknown balance is shown as
/// unknown, never as zero.
pub fn banked_count_caption(r: &BankedResets) -> (s: String)
    ensures
        s@ == "Banked resets: "@ + (match r.available_count {
            Some(c) => decimal(c as nat),
            None => "unknown"@,
        }),
{
    let s = String::from_str("Banked resets: ");
    match r.available_count {
        Some(count) => s.concat(u64_to_decimal(count as u64).as_str()),
        None => s.concat("unknown"),
    }
}

/// The recommendation badge of an account row: shown only for recommended
/// accounts, and naming the next reset when every account is spent.
pub fn recommendation_caption(a: &Account) -> (r: Option<&'static str>)
    ensures
        !a.recommended ==> r is None,
        a.recommended ==> (r matches Some(t) && t@ == (if a.all_spent { "Next reset"@ } else { "Recommended"@ })),
{
    if !a.recommended {
        None
    } else if a.all_spent {
        Some("Next reset")
    } else {
        Some("Recommended")
    }
}

/// Whether a row shows its login state: only a state other than `ok`.
pub fn shows_login_state(a: &Account) -> (r: bool)
    ensures
        r == (a.login.state@.len() != 0 && a.login.state@ != "ok"@),
{
    a.login.state.unicode_len() != 0 && !(a.login.state == String::from_str("ok"))
}

} // verus!
