//! Account selectors (`provider:email#org`) and the argument lists the
//! backend's commands take.

use vstd::prelude::*;
use vstd::string::*;
use crate::protocol::Account;
use crate::text::{decimal, u8_to_decimal};

verus! {

/// The selector that names an account to the backend.
pub open spec fn selector_text(a: Account) -> Seq<char> {
    a.provider@ + ":"@ + a.email@ + "#"@ + a.org@
}

/// The views of a list of strings.
pub open spec fn texts(v: Seq<String>) -> Seq<Seq<char>> {
    v.map_values(|s: String| s@)
}

/// The index of the first `:` in `s`, if any.
pub open spec fn first_colon(s: Seq<char>) -> Option<nat>
    decreases s.len(),
{
    if s.len() == 0 {
        None
    } else if s[0] == ':' {
        Some(0)
    } else {
        match first_colon(s.drop_first()) {
            Some(i) => Some(i + 1),
            None => None,
        }
    }
}

/// What precedes the first `:` (all of `s` when there is none).
pub open spec fn before_colon(s: Seq<char>) -> Seq<char> {
    match first_colon(s) {
        Some(i) => s.take(i as int),
        None => s,
    }
}

/// What follows the first `:` (nothing when there is none).
pub open spec fn after_colon(s: Seq<char>) -> Seq<char> {
    match first_colon(s) {
        Some(i) => s.skip(i + 1int),
        None => Seq::empty(),
    }
}

proof fn lemma_first_colon_after_prefix(s: Seq<char>, j: int)
    requires
        0 <= j <= s.len(),
        forall|i: int| 0 <= i < j ==> s[i] != ':',
    ensures
        first_colon(s) == (match first_colon(s.skip(j)) {
            Some(i) => Some((i + j) as nat),
            None => None::<nat>,
        }),
    decreases j,
{
    if j == 0 {
        assert(s.skip(0) =~= s);
    } else {
        let q = s.drop_first();
        assert forall|i: int| 0 <= i < j - 1 implies q[i] != ':' by {
            assert(q[i] == s[i + 1]);
        }
        lemma_first_colon_after_prefix(q, j - 1);
        assert(q.skip(j - 1) =~= s.skip(j));
    }
}

/// Splits `key` at its first `:`: the part before it, and the part after it
/// when there is a colon at all.
pub fn split_key(key: &str) -> (r: (String, Option<String>))
    ensures
        r.0@ == before_colon(key@),
        r.1 is Some <==> first_colon(key@) is Some,
        r.1 matches Some(rest) ==> rest@ == after_colon(key@),
{
    let n = key.unicode_len();
    let mut i: usize = 0;
    while i < n
        invariant
            n == key@.len(),
            i <= n,
            forall|j: int| 0 <= j < i ==> key@[j] != ':',
        decreases n - i,
    {
        if key.get_char(i) == ':' {
            proof {
                lemma_first_colon_after_prefix(key@, i as int);
                assert(key@.skip(i as int)[0] == ':');
            }
            let head = key.substring_char(0, i);
            let tail = key.substring_char(i + 1, n);
            proof {
                assert(key@.subrange(0, i as int) =~= key@.take(i as int));
                assert(key@.subrange(i + 1, n as int) =~= key@.skip(i + 1));
            }
            return (String::from_str(head), Some(String::from_str(tail)));
        }
        i = i + 1;
    }
    proof {
        lemma_first_colon_after_prefix(key@, n as int);
    }
    (String::from_str(key), None)
}

/// The selector of an account: `provider:email#org`.
pub fn selector(a: &Account) -> (s: String)
    ensures
        s@ == selector_text(*a),
{
    let s = a.provider.clone();
    let s = s.concat(":");
    let s = s.concat(a.email.as_str());
    let s = s.concat("#");
    s.concat(a.org.as_str())
}

/// The arguments that address one account: `--provider P SELECTOR`.
pub open spec fn selector_arg_texts(key: Seq<char>) -> Seq<Seq<char>> {
    seq!["--provider"@, before_colon(key), after_colon(key)]
}

/// The command `action` with the arguments that address the account `key`.
pub fn selector_args(action: &'static str, key: String) -> (r: (&'static str, Vec<String>))
    ensures
        r.0 == action,
        texts(r.1@) == selector_arg_texts(key@),
{
    let (provider, rest) = split_key(key.as_str());
    let selector = match rest {
        Some(s) => s,
        None => String::new(),
    };
    let mut args: Vec<String> = Vec::new();
    args.push(String::from_str("--provider"));
    args.push(provider);
    args.push(selector);
    proof {
        assert(texts(args@) =~= selector_arg_texts(key@));
    }
    (action, args)
}

/// How `true` and `false` are written on the command line.
pub open spec fn bool_text(b: bool) -> Seq<char> {
    if b { "true"@ } else { "false"@ }
}

/// The arguments of `auto-reset`: the account, then `--enabled` and
/// `--threshold` exactly for the settings that are supplied.
pub open spec fn auto_reset_arg_texts(key: Seq<char>, enabled: Option<bool>, threshold: Option<u8>) -> Seq<Seq<char>> {
    selector_arg_texts(key)
        + (match enabled {
            Some(b) => seq!["--enabled"@, bool_text(b)],
            None => Seq::empty(),
        })
        + (match threshold {
            Some(t) => seq!["--threshold"@, decimal(t as nat)],
            None => Seq::empty(),
        })
}

/// Builds the `auto-reset` arguments; omitted settings are left to the
/// backend to preserve.
pub fn auto_reset_args(key: &str, enabled: Option<bool>, threshold: Option<u8>) -> (r: Vec<String>)
    ensures
        texts(r@) == auto_reset_arg_texts(key@, enabled, threshold),
{
    let mut args = selector_args("auto-reset", String::from_str(key)).1;
    let ghost base = args@;
    if let Some(enabled) = enabled {
        args.push(String::from_str("--enabled"));
        if enabled {
            args.push(String::from_str("true"));
        } else {
            args.push(String::from_str("false"));
        }
    }
    let ghost mid = args@;
    if let Some(threshold) = threshold {
        args.push(String::from_str("--threshold"));
        args.push(u8_to_decimal(threshold));
    }
    proof {
        let e: Seq<Seq<char>> = match enabled {
            Some(b) => seq!["--enabled"@, bool_text(b)],
            None => Seq::empty(),
        };
        let t: Seq<Seq<char>> = match threshold {
            Some(t) => seq!["--threshold"@, decimal(t as nat)],
            None => Seq::empty(),
        };
        assert(texts(mid) =~= texts(base) + e);
        assert(texts(args@) =~= texts(mid) + t);
    }
    args
}

} // verus!
