//! Properties that span calls: what retries reuse, what failures keep, what
//! the framing preserves and what the protocol accepts before `hello`.

use vstd::prelude::*;
use crate::intents::{draft_resolved, intent_resolved, is_v4_uuid_text};
use crate::keys::{after_colon, auto_reset_arg_texts, before_colon, first_colon, selector_arg_texts, texts};
use crate::panel::{begun, finished, Action, Launch, PanelState};
use crate::protocol::{Account, Error, Event, PendingResetRequest, CONTRACT_VERSION};
use crate::reader::{lemma_line_len_bounds, line_len};
use crate::session::{command_line_texts, prescribed, LineOutcome, Message, Step};
use crate::text::decimal;

verus! {

/// Retrying a reset reuses the intent of the first attempt: the same request
/// id and the same credit, whatever credit the retry names, and the intents
/// are left as the first attempt left them.
pub proof fn retry_reuses_request_id_and_credit(
    intents: Map<Seq<char>, PendingResetRequest>,
    key: Seq<char>,
    first_credit: Option<String>,
    retry_credit: Option<String>,
    first: PendingResetRequest,
    after_first: Map<Seq<char>, PendingResetRequest>,
    retry: Option<PendingResetRequest>,
    after_retry: Map<Seq<char>, PendingResetRequest>,
)
    requires
        intent_resolved(intents, key, None, first_credit, Some(first), after_first),
        intent_resolved(after_first, key, None, retry_credit, retry, after_retry),
    ensures
        retry == Some(first),
        after_retry == after_first,
        !intents.contains_key(key) ==> first.credit_id == first_credit && is_v4_uuid_text(first.request_id@),
{
}

/// A request the backend reports as pending is the one used, replacing any
/// local intent that was never accepted.
pub proof fn backend_pending_request_wins(
    intents: Map<Seq<char>, PendingResetRequest>,
    key: Seq<char>,
    pending: PendingResetRequest,
    credit: Option<String>,
    intent: Option<PendingResetRequest>,
    after: Map<Seq<char>, PendingResetRequest>,
)
    requires
        intent_resolved(intents, key, Some(pending), credit, intent, after),
    ensures
        intent == Some(pending),
        after[key] == pending,
{
}

/// A threshold control never leaves a draft equal to the saved value, keeps
/// every edit that differs from it, and showing it again changes nothing.
pub proof fn clean_drafts_drop_and_dirty_drafts_stay(
    drafts: Map<Seq<char>, u8>,
    key: Seq<char>,
    saved: u8,
    shown: u8,
    after: Map<Seq<char>, u8>,
    shown_again: u8,
    after_again: Map<Seq<char>, u8>,
)
    requires
        draft_resolved(drafts, key, saved, shown, after),
        draft_resolved(after, key, saved, shown_again, after_again),
    ensures
        !(after.contains_key(key) && after[key] == saved),
        drafts.contains_key(key) && drafts[key] != saved ==> shown == drafts[key] && after == drafts,
        shown_again == shown,
        after_again =~= after,
{
}

/// A frame and what is left after it make up exactly what was pending; the
/// frame holds at most one newline, at its end.
pub proof fn frames_partition_the_stream(s: Seq<u8>)
    ensures
        line_len(s) <= s.len(),
        s.take(line_len(s) as int) + s.skip(line_len(s) as int) == s,
        forall|i: int| 0 <= i < line_len(s) - 1 ==> s[i] != 10u8,
    decreases s.len(),
{
    if s.len() > 0 && s[0] != 10u8 {
        frames_partition_the_stream(s.drop_first());
        assert forall|i: int| 0 <= i < line_len(s) - 1 implies s[i] != 10u8 by {
            if i > 0 {
                assert(s[i] == s.drop_first()[i - 1]);
            }
        }
    }
    assert(s.take(line_len(s) as int) + s.skip(line_len(s) as int) =~= s);
}

/// Before a valid `hello`, no line is forwarded: the only line that lets the
/// session go on is an acceptable `hello`; anything else ends it.
pub proof fn nothing_is_forwarded_before_hello(required: Seq<char>, outcome: LineOutcome, step: Step)
    requires
        prescribed(false, required, outcome, step),
    ensures
        step is Continue ==> (outcome matches LineOutcome::Decoded(Event::Hello { version, .. })
            && version == CONTRACT_VERSION),
        !(step is Forward),
{
}

/// A `result` always ends the operation, and a second `hello` is refused.
pub proof fn result_is_terminal_and_hello_is_unique(saw_hello: bool, required: Seq<char>, outcome: LineOutcome, step: Step)
    requires
        prescribed(saw_hello, required, outcome, step),
    ensures
        (outcome matches LineOutcome::Decoded(Event::Result { .. })) ==> step is Finish,
        saw_hello && (outcome matches LineOutcome::Decoded(Event::Hello { .. })) ==> step is Finish,
{
}

/// At most one operation runs at a time, and none in sample-data mode or
/// while quitting.
pub proof fn one_operation_at_a_time(old: PanelState, action: Action, new: PanelState, launch: Option<Launch>)
    requires
        begun(old, action, new, launch),
    ensures
        launch is Some ==> !old.busy && !old.quitting && !old.fixture && old.backend_available,
{
}

/// A failed, refused or cancelled operation keeps the reset intent, so the
/// retry reuses its request id; and a threshold draft survives any result
/// that does not confirm it.
pub proof fn failures_keep_intents_and_unconfirmed_drafts(old: PanelState, m: Message, new: PanelState, settled: bool)
    requires
        finished(old, m, new, settled),
        !(m matches Message::Result { ok, cancelled, .. } && ok && !cancelled),
    ensures
        new.reset_intents@ == old.reset_intents@,
        new.auto_threshold_drafts@ == old.auto_threshold_drafts@,
{
}

/// Saving a threshold sends only the threshold, leaving the enabled setting
/// to the backend; toggling sends both settings at once.
pub proof fn auto_reset_sends_only_supplied_settings(key: Seq<char>, enabled: Option<bool>, threshold: u8)
    ensures
        auto_reset_arg_texts(key, None, Some(threshold))
            == selector_arg_texts(key) + seq!["--threshold"@, decimal(threshold as nat)],
        enabled matches Some(b) ==> auto_reset_arg_texts(key, enabled, Some(threshold)).len() == 7,
        auto_reset_arg_texts(key, None, Some(threshold)).len() == 5,
{
    assert(auto_reset_arg_texts(key, None, Some(threshold))
        =~= selector_arg_texts(key) + seq!["--threshold"@, decimal(threshold as nat)]);
}

/// The frames a stream splits into, one line after another.
pub open spec fn split_frames(s: Seq<u8>) -> Seq<Seq<u8>>
    decreases s.len(),
{
    if s.len() == 0 {
        Seq::empty()
    } else {
        proof {
            lemma_line_len_bounds(s);
        }
        seq![s.take(line_len(s) as int)] + split_frames(s.skip(line_len(s) as int))
    }
}

/// A line that stops short of the end of the stream stops at a newline.
proof fn lemma_line_ends_at_newline(s: Seq<u8>)
    ensures
        0 < line_len(s) < s.len() ==> s[line_len(s) - 1] == 10u8,
    decreases s.len(),
{
    if s.len() > 0 && s[0] != 10u8 {
        lemma_line_ends_at_newline(s.drop_first());
    }
}

/// Reading a stream line by line until nothing is left splits it into its
/// frames: `lines` and `rests` record successive calls of
/// `read_line_bounded` (each line and what was left before it, as its
/// contract gives them). The lines are exactly `split_frames(s)`, together
/// they make up the whole stream, none is empty, each holds at most one
/// newline, at its end, and every line but the last ends in a newline.
pub proof fn successive_reads_split_the_stream(s: Seq<u8>, lines: Seq<Seq<u8>>, rests: Seq<Seq<u8>>)
    requires
        rests.len() == lines.len() + 1,
        rests[0] == s,
        rests[lines.len() as int].len() == 0,
        forall|i: int| 0 <= i < lines.len() ==> {
            &&& #[trigger] rests[i].len() > 0
            &&& lines[i] == rests[i].take(line_len(rests[i]) as int)
            &&& rests[i + 1] == rests[i].skip(line_len(rests[i]) as int)
        },
    ensures
        lines == split_frames(s),
        lines.flatten() == s,
        forall|i: int| 0 <= i < lines.len() ==> #[trigger] lines[i].len() > 0,
        forall|i: int, j: int| 0 <= i < lines.len() && 0 <= j < lines[i].len() - 1 ==> #[trigger] lines[i][j] != 10u8,
        forall|i: int| 0 <= i < lines.len() - 1 ==> #[trigger] lines[i][lines[i].len() - 1] == 10u8,
    decreases lines.len(),
{
    if lines.len() == 0 {
        assert(s.len() == 0);
        assert(lines =~= split_frames(s));
    } else {
        let t = rests[1];
        let tail_lines = lines.drop_first();
        let tail_rests = rests.drop_first();
        assert forall|i: int| 0 <= i < tail_lines.len() implies {
            &&& #[trigger] tail_rests[i].len() > 0
            &&& tail_lines[i] == tail_rests[i].take(line_len(tail_rests[i]) as int)
            &&& tail_rests[i + 1] == tail_rests[i].skip(line_len(tail_rests[i]) as int)
        } by {
            assert(rests[i + 1].len() > 0);
        }
        successive_reads_split_the_stream(t, tail_lines, tail_rests);
        assert(rests[0].len() > 0);
        lemma_line_len_bounds(s);
        lemma_line_ends_at_newline(s);
        frames_partition_the_stream(s);
        let n = line_len(s) as int;
        assert(lines[0] == s.take(n));
        assert(lines =~= seq![s.take(n)] + tail_lines);
        assert(lines.flatten() == lines.first() + lines.drop_first().flatten());
        assert(lines.drop_first() =~= tail_lines);
        assert forall|i: int| 0 <= i < lines.len() implies #[trigger] lines[i].len() > 0 by {
            if i > 0 {
                assert(lines[i] == tail_lines[i - 1]);
            }
        }
        assert forall|i: int, j: int| 0 <= i < lines.len() && 0 <= j < lines[i].len() - 1 implies #[trigger] lines[i][j] != 10u8 by {
            if i > 0 {
                assert(lines[i] == tail_lines[i - 1]);
            } else {
                assert(lines[0][j] == s[j]);
            }
        }
        assert forall|i: int| 0 <= i < lines.len() - 1 implies #[trigger] lines[i][lines[i].len() - 1] == 10u8 by {
            if i > 0 {
                assert(lines[i] == tail_lines[i - 1]);
            } else {
                assert(t.len() > 0);
                assert(n < s.len());
            }
        }
    }
}

/// After a valid hello, a version 1 `result` ends the operation with a
/// result that carries the event's own values: its `ok` and `cancelled`
/// flags, its message, its account snapshot exactly as received (`None` only
/// when the event had none), and its error as `code: message`.
pub proof fn results_carry_the_event_unchanged(
    required: Seq<char>,
    ok: bool,
    cancelled: bool,
    message: String,
    accounts: Option<Vec<Account>>,
    error: Option<Error>,
    step: Step,
)
    requires
        prescribed(
            true,
            required,
            LineOutcome::Decoded(Event::Result { version: CONTRACT_VERSION, ok, cancelled, message, accounts, error }),
            step,
        ),
    ensures
        step matches Step::Finish(Message::Result { ok: o, cancelled: c, message: m, accounts: a, error: e }) && {
            &&& o == ok
            &&& c == cancelled
            &&& m == message
            &&& a == accounts
            &&& (accounts is Some ==> a is Some && a->0@ == accounts->0@)
            &&& (error is None ==> e is None)
            &&& (error matches Some(x) ==> e matches Some(t) && t@ == x.code@ + seq![':', ' '] + x.message@)
        },
{
    reveal_strlit(": ");
}

/// After a valid hello, a version 1 `progress` line is forwarded with its
/// own message and the operation goes on.
pub proof fn progress_is_forwarded_verbatim(required: Seq<char>, phase: String, message: String, step: Step)
    requires
        prescribed(
            true,
            required,
            LineOutcome::Decoded(Event::Progress { version: CONTRACT_VERSION, phase, message }),
            step,
        ),
    ensures
        step matches Step::Forward(Message::Progress(m)) && m == message,
{
}

/// A result that committed a reset ends the intent of that account only:
/// every other account keeps its intent, request id and credit unchanged, so
/// its own retry stays exact.
pub proof fn a_committed_reset_ends_only_its_own_intent(old: PanelState, m: Message, new: PanelState, settled: bool)
    requires
        finished(old, m, new, settled),
        m matches Message::Result { ok, cancelled, .. } && ok && !cancelled,
    ensures
        old.active_reset_key matches Some(done) ==> !new.reset_intents@.contains_key(done@),
        forall|k: Seq<char>| !(old.active_reset_key matches Some(done) && done@ == k) ==> {
            &&& (new.reset_intents@.contains_key(k) <==> old.reset_intents@.contains_key(k))
            &&& (old.reset_intents@.contains_key(k) ==> new.reset_intents@[k] == old.reset_intents@[k])
        },
{
}

/// Whether `provider` and `selector` address the account `key`: a key with a
/// colon is the provider, the colon and the selector (the provider holding
/// no colon); a key without one is all provider, with an empty selector.
pub open spec fn addresses(provider: Seq<char>, selector: Seq<char>, key: Seq<char>) -> bool {
    if exists|i: int| 0 <= i < key.len() && key[i] == ':' {
        &&& provider + seq![':'] + selector == key
        &&& forall|i: int| 0 <= i < provider.len() ==> provider[i] != ':'
    } else {
        provider == key && selector.len() == 0
    }
}

proof fn lemma_first_colon(s: Seq<char>)
    ensures
        first_colon(s) matches Some(i) ==> i < s.len() && s[i as int] == ':'
            && forall|j: int| 0 <= j < i ==> s[j] != ':',
        first_colon(s) is None ==> forall|j: int| 0 <= j < s.len() ==> s[j] != ':',
    decreases s.len(),
{
    if s.len() > 0 && s[0] != ':' {
        lemma_first_colon(s.drop_first());
        assert forall|j: int| 1 <= j < s.len() implies s[j] == s.drop_first()[j - 1] by {}
    }
}

/// The arguments that address an account split its key at the first colon
/// and nothing is lost: provider, colon and selector give the key back.
pub proof fn selector_arguments_address_the_key(key: Seq<char>)
    ensures
        selector_arg_texts(key).len() == 3,
        selector_arg_texts(key)[0] == "--provider"@,
        addresses(selector_arg_texts(key)[1], selector_arg_texts(key)[2], key),
{
    lemma_first_colon(key);
    match first_colon(key) {
        Some(i) => {
            assert(key.take(i as int) + seq![':'] + key.skip(i + 1int) =~= key);
        },
        None => {},
    }
}

/// Each action launches its own backend command with its own arguments:
/// status and sync take none, add and sign-in take the provider and the
/// label, switch, remove and resets address the chosen account, a reset is
/// sent as `reset` and an auto-reset setting as `auto-reset`.
pub proof fn each_action_launches_its_own_command(old: PanelState, action: Action, new: PanelState, launch: Launch)
    requires
        begun(old, action, new, Some(launch)),
    ensures
        action is Status ==> launch.command@ == "status"@ && launch.args@.len() == 0,
        action is Sync ==> launch.command@ == "sync"@ && launch.args@.len() == 0,
        action matches Action::Add(p, l) ==> launch.command@ == "add"@
            && texts(launch.args@) == seq!["--provider"@, p@, "--label"@, l@],
        action matches Action::Login(p, l) ==> launch.command@ == "login"@
            && texts(launch.args@) == seq!["--provider"@, p@, "--label"@, l@],
        action matches Action::Switch(k) ==> launch.command@ == "switch"@ && launch.args@.len() == 3
            && launch.args@[0]@ == "--provider"@ && addresses(launch.args@[1]@, launch.args@[2]@, k@),
        action matches Action::Remove(k) ==> launch.command@ == "remove"@ && launch.args@.len() == 3
            && launch.args@[0]@ == "--provider"@ && addresses(launch.args@[1]@, launch.args@[2]@, k@),
        action matches Action::Resets(k) ==> launch.command@ == "resets"@ && launch.args@.len() == 3
            && launch.args@[0]@ == "--provider"@ && addresses(launch.args@[1]@, launch.args@[2]@, k@),
        action is Reset ==> launch.command@ == "reset"@,
        action is AutoReset ==> launch.command@ == "auto-reset"@,
{
    match action {
        Action::Switch(k) => {
            selector_arguments_address_the_key(k@);
        },
        Action::Remove(k) => {
            selector_arguments_address_the_key(k@);
        },
        Action::Resets(k) => {
            selector_arguments_address_the_key(k@);
        },
        Action::Add(p, l) => {
            assert(texts(launch.args@) == seq!["--provider"@, p@, "--label"@, l@]);
        },
        Action::Login(p, l) => {
            assert(texts(launch.args@) == seq!["--provider"@, p@, "--label"@, l@]);
        },
        _ => {
            assert(texts(launch.args@).len() == launch.args@.len());
        },
    }
}

/// The backend is run as `frontend ACTION`, then every argument of the
/// command in order, then the contract version request `--contract-version 1`.
pub proof fn command_lines_keep_every_argument(action: Seq<char>, args: Seq<Seq<char>>)
    ensures
        command_line_texts(action, args).len() == args.len() + 4,
        command_line_texts(action, args)[0] == "frontend"@,
        command_line_texts(action, args)[1] == action,
        forall|i: int| 0 <= i < args.len() ==> #[trigger] command_line_texts(action, args)[i + 2] == args[i],
        command_line_texts(action, args)[args.len() + 2int] == "--contract-version"@,
        command_line_texts(action, args)[args.len() + 3int] == "1"@,
{
}

/// The enabled setting is sent as it was chosen: `--enabled true` to turn
/// automatic resets on, `--enabled false` to turn them off, so the two
/// choices never send the same arguments.
pub proof fn auto_reset_sends_the_chosen_enabled_value(key: Seq<char>, enabled: bool, threshold: Option<u8>)
    ensures
        auto_reset_arg_texts(key, Some(enabled), threshold)[3] == "--enabled"@,
        auto_reset_arg_texts(key, Some(enabled), threshold)[4] == seq!['t', 'r', 'u', 'e'] <==> enabled,
        auto_reset_arg_texts(key, Some(enabled), threshold)[4] == seq!['f', 'a', 'l', 's', 'e'] <==> !enabled,
        auto_reset_arg_texts(key, Some(true), threshold) != auto_reset_arg_texts(key, Some(false), threshold),
{
    reveal_strlit("true");
    reveal_strlit("false");
    let t = auto_reset_arg_texts(key, Some(true), threshold);
    let f = auto_reset_arg_texts(key, Some(false), threshold);
    assert("true"@ =~= seq!['t', 'r', 'u', 'e']);
    assert("false"@ =~= seq!['f', 'a', 'l', 's', 'e']);
    assert(t[4] == "true"@);
    assert(f[4] == "false"@);
    assert(t[4].len() != f[4].len());
    assert(seq!['t', 'r', 'u', 'e'] != seq!['f', 'a', 'l', 's', 'e']) by {
        assert(seq!['t', 'r', 'u', 'e'].len() != seq!['f', 'a', 'l', 's', 'e'].len());
    }
}

} // verus!
