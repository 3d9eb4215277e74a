//! Per-account state the panel keeps between backend operations: reset
//! intents (one request id per confirmed redemption, reused for every retry)
//! and threshold drafts (edits not yet saved by the backend).

use vstd::prelude::*;
use vstd::hash_map::StringHashMap;
use crate::keys::{selector, selector_text};
use crate::protocol::{Account, PendingResetRequest};

verus! {

/// Whether `c` is a lower-case hexadecimal digit.
pub open spec fn is_lower_hex(c: char) -> bool {
    ('0' <= c && c <= '9') || ('a' <= c && c <= 'f')
}

/// Whether `s` is the hyphenated lower-case text of a random (version 4,
/// RFC 4122 variant) UUID.
pub open spec fn is_v4_uuid_text(s: Seq<char>) -> bool {
    &&& s.len() == 36
    &&& forall|i: int| 0 <= i < 36 ==> #[trigger] s[i] == '-' <==> (i == 8 || i == 13 || i == 18 || i == 23)
    &&& forall|i: int| 0 <= i < 36 && i != 8 && i != 13 && i != 18 && i != 23 ==> is_lower_hex(#[trigger] s[i])
    &&& s[14] == '4'
    &&& (s[19] == '8' || s[19] == '9' || s[19] == 'a' || s[19] == 'b')
}

/// The lower-case hexadecimal digit of a nibble (`n < 16`).
pub open spec fn hex_digit(n: int) -> char {
    if n < 10 { (n + 48) as char } else { (n + 87) as char }
}

/// Two lower-case hexadecimal digits per byte, most significant first.
pub open spec fn hex_of(bytes: Seq<u8>) -> Seq<char>
    decreases bytes.len(),
{
    if bytes.len() == 0 {
        Seq::empty()
    } else {
        seq![hex_digit((bytes[0] / 16) as int), hex_digit((bytes[0] % 16) as int)] + hex_of(bytes.drop_first())
    }
}

/// Sixteen random bytes with the version (4) and variant (RFC 4122) bits of
/// a random UUID set.
pub open spec fn v4_bytes(b: Seq<u8>) -> Seq<u8> {
    b.update(6, (b[6] & 0x0f) | 0x40).update(8, (b[8] & 0x3f) | 0x80)
}

/// The hyphenated text of a UUID's sixteen bytes: 8-4-4-4-12 hex digits.
pub open spec fn hyphenated(b: Seq<u8>) -> Seq<char> {
    hex_of(b.subrange(0, 4)) + "-"@ + hex_of(b.subrange(4, 6)) + "-"@ + hex_of(b.subrange(6, 8))
        + "-"@ + hex_of(b.subrange(8, 10)) + "-"@ + hex_of(b.subrange(10, 16))
}

/// Sixteen bytes from the operating system's random source, by
/// `getrandom::fill`; `None` when the source fails. Which bytes come back is
/// left open: they are random.
#[verifier::external_body]
fn random_id_bytes() -> (r: Option<Vec<u8>>)
    ensures
        r matches Some(b) ==> b@.len() == 16,
{
    let mut bytes = [0u8; 16];
    match getrandom::fill(&mut bytes) {
        Ok(()) => Some(bytes.to_vec()),
        Err(_) => None,
    }
}

/// The text of the random (version 4) UUID made from `bytes`, by
/// `uuid::Builder::from_random_bytes(..).into_uuid()` rendered with
/// `ToString`. uuid's source sets the version and variant bits
/// (`v4_bytes`) and writes the bytes as hyphenated lower-case hex
/// (`hyphenated`); the shape that follows is stated beside it.
#[verifier::external_body]
fn uuid_text_from_random_bytes(bytes: Vec<u8>) -> (id: String)
    requires
        bytes@.len() == 16,
    ensures
        id@ == hyphenated(v4_bytes(bytes@)),
        is_v4_uuid_text(id@),
{
    let mut array = [0u8; 16];
    array.copy_from_slice(&bytes);
    uuid::Builder::from_random_bytes(array).into_uuid().to_string()
}

/// A fresh random request id, or `None` when the operating system cannot
/// supply random bytes.
pub fn new_request_id() -> (id: Option<String>)
    ensures
        id matches Some(s) ==> is_v4_uuid_text(s@),
        id matches Some(s) ==> exists|b: Seq<u8>| b.len() == 16 && s@ == hyphenated(v4_bytes(b)),
{
    match random_id_bytes() {
        Some(bytes) => {
            let ghost b = bytes@;
            let id = uuid_text_from_random_bytes(bytes);
            assert(b.len() == 16 && id@ == hyphenated(v4_bytes(b)));
            Some(id)
        },
        None => None,
    }
}

/// An exact copy of a request.
pub fn copy_request(r: &PendingResetRequest) -> (c: PendingResetRequest)
    ensures
        c == *r,
{
    PendingResetRequest {
        request_id: r.request_id.clone(),
        credit_id: match &r.credit_id {
            Some(id) => Some(id.clone()),
            None => None,
        },
    }
}

/// The intent a redemption of `key` uses, and the intents afterwards.
///
/// A request the backend reports as pending is authoritative and replaces any
/// local intent. Otherwise an existing local intent is reused unchanged (its
/// id and its credit choice); only when there is none is a new one created,
/// with a fresh id and the credit the user selected.
pub open spec fn intent_resolved(
    before: Map<Seq<char>, PendingResetRequest>,
    key: Seq<char>,
    backend_pending: Option<PendingResetRequest>,
    selected_credit: Option<String>,
    intent: Option<PendingResetRequest>,
    after: Map<Seq<char>, PendingResetRequest>,
) -> bool {
    match backend_pending {
        Some(p) => intent == Some(p) && after == before.insert(key, p),
        None => if before.contains_key(key) {
            intent == Some(before[key]) && after == before
        } else {
            match intent {
                Some(i) => {
                    &&& i.credit_id == selected_credit
                    &&& is_v4_uuid_text(i.request_id@)
                    &&& after == before.insert(key, i)
                },
                None => after == before,
            }
        },
    }
}

/// Returns the reset intent for `key`, creating it when needed (see
/// `intent_resolved`). It returns `None` only when a new intent is needed and
/// no random request id could be had; the intents are then unchanged.
pub fn get_or_create_reset_intent(
    intents: &mut StringHashMap<PendingResetRequest>,
    key: &str,
    backend_pending: Option<PendingResetRequest>,
    selected_credit: Option<String>,
) -> (r: Option<PendingResetRequest>)
    ensures
        intent_resolved(old(intents)@, key@, backend_pending, selected_credit, r, final(intents)@),
        r matches Some(i) ==> final(intents)@.contains_key(key@) && final(intents)@[key@] == i,
{
    match backend_pending {
        Some(pending) => {
            let copy = copy_request(&pending);
            intents.insert(String::from_str(key), pending);
            Some(copy)
        },
        None => {
            match intents.get(key) {
                Some(existing) => Some(copy_request(existing)),
                None => {
                    let request_id = match new_request_id() {
                        Some(id) => id,
                        None => {
                            return None;
                        },
                    };
                    let created = PendingResetRequest { request_id, credit_id: selected_credit };
                    let copy = copy_request(&created);
                    intents.insert(String::from_str(key), created);
                    Some(copy)
                },
            }
        },
    }
}

/// The draft a threshold control shows: an edit that differs from the saved
/// value is kept; an edit equal to it is clean and is dropped.
pub open spec fn draft_resolved(
    before: Map<Seq<char>, u8>,
    key: Seq<char>,
    saved: u8,
    shown: u8,
    after: Map<Seq<char>, u8>,
) -> bool {
    if before.contains_key(key) && before[key] != saved {
        shown == before[key] && after == before
    } else {
        shown == saved && after == before.remove(key)
    }
}

/// The threshold to show for `key`, dropping a draft that equals the saved
/// value.
pub fn current_threshold_draft(drafts: &mut StringHashMap<u8>, key: &str, saved: u8) -> (r: u8)
    ensures
        draft_resolved(old(drafts)@, key@, saved, r, final(drafts)@),
        !(final(drafts)@.contains_key(key@) && final(drafts)@[key@] == saved),
{
    let current = match drafts.get(key) {
        Some(draft) => Some(*draft),
        None => None,
    };
    match current {
        Some(draft) => {
            if draft != saved {
                draft
            } else {
                drafts.remove(key);
                saved
            }
        },
        None => {
            proof {
                assert(old(drafts)@.remove(key@) =~= old(drafts)@);
            }
            saved
        },
    }
}

/// The index of the first account whose selector is `key`, searching from `i`.
pub open spec fn find_from(accounts: Seq<Account>, key: Seq<char>, i: int) -> Option<int>
    decreases accounts.len() - i,
{
    if i < 0 || i >= accounts.len() {
        None
    } else if selector_text(accounts[i]) == key {
        Some(i)
    } else {
        find_from(accounts, key, i + 1)
    }
}

/// The index of the first account whose selector is `key`.
pub open spec fn account_index(accounts: Seq<Account>, key: Seq<char>) -> Option<int> {
    find_from(accounts, key, 0)
}

proof fn lemma_find_from_bounds(accounts: Seq<Account>, key: Seq<char>, i: int)
    ensures
        find_from(accounts, key, i) matches Some(j) ==> {
            &&& i <= j < accounts.len()
            &&& selector_text(accounts[j]) == key
        },
    decreases accounts.len() - i,
{
    if 0 <= i < accounts.len() && selector_text(accounts[i]) != key {
        lemma_find_from_bounds(accounts, key, i + 1);
    }
}

/// Finds the first account whose selector is `key`.
pub fn find_account(accounts: &[Account], key: &str) -> (r: Option<usize>)
    ensures
        r matches Some(i) ==> Some(i as int) == account_index(accounts@, key@),
        r is None ==> account_index(accounts@, key@) is None,
        r matches Some(i) ==> i < accounts@.len() && selector_text(accounts@[i as int]) == key@,
{
    let target = String::from_str(key);
    let mut i: usize = 0;
    proof {
        lemma_find_from_bounds(accounts@, key@, 0);
    }
    while i < accounts.len()
        invariant
            i <= accounts@.len(),
            target@ == key@,
            account_index(accounts@, key@) == find_from(accounts@, key@, i as int),
        decreases accounts@.len() - i,
    {
        let s = selector(&accounts[i]);
        if s == target {
            return Some(i);
        }
        i = i + 1;
    }
    None
}

/// Whether a snapshot records `threshold` as the saved auto-reset threshold
/// of the account `key`.
pub open spec fn snapshot_confirms(accounts: Option<Seq<Account>>, key: Seq<char>, threshold: u8) -> bool {
    accounts matches Some(a) && exists|i: int| 0 <= i < a.len() && #[trigger] row_confirms(a[i], key, threshold)
}

/// Whether this row is the account `key` and records `threshold` as saved.
pub open spec fn row_confirms(a: Account, key: Seq<char>, threshold: u8) -> bool {
    &&& selector_text(a) == key
    &&& a.banked_resets is Some
    &&& a.banked_resets->0.auto_reset_threshold_percent == threshold
}

/// The view of an optional snapshot.
pub open spec fn snapshot_view(accounts: Option<&[Account]>) -> Option<Seq<Account>> {
    match accounts {
        Some(a) => Some(a@),
        None => None,
    }
}

/// Whether an authoritative snapshot already holds the threshold the user
/// asked to save, so that the local draft may be cleared.
pub fn threshold_saved_in_snapshot(accounts: Option<&[Account]>, key: &str, threshold: u8) -> (r: bool)
    ensures
        r == snapshot_confirms(snapshot_view(accounts), key@, threshold),
{
    match accounts {
        None => false,
        Some(rows) => {
            let target = String::from_str(key);
            let mut i: usize = 0;
            while i < rows.len()
                invariant
                    accounts == Some(rows),
                    i <= rows@.len(),
                    target@ == key@,
                    forall|j: int| 0 <= j < i ==> !#[trigger] row_confirms(rows@[j], key@, threshold),
                decreases rows@.len() - i,
            {
                let account = &rows[i];
                let s = selector(account);
                if s == target {
                    if let Some(resets) = &account.banked_resets {
                        if resets.auto_reset_threshold_percent == threshold {
                            let ghost a = snapshot_view(accounts)->0;
                            assert(a == rows@);
                            assert(row_confirms(a[i as int], key@, threshold));
                            return true;
                        }
                    }
                }
                i = i + 1;
            }
            false
        },
    }
}

} // verus!
