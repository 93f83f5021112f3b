//! What the command line decides without I/O: options given as `KEY=VALUE`
//! and where a run's results go.

use vstd::prelude::*;

use crate::decimal::{decimal_digits, push_decimal};
use crate::text::{find_char, index_or_end};

verus! {

/// The message for an option without `'='`.
pub open spec fn no_equals_message(s: Seq<char>) -> Seq<char> {
    "invalid KEY=VALUE: no `=` in `"@ + s + "`"@
}

/// Splits `KEY=VALUE` at the first `'='`.
pub fn parse_key_val(s: &str) -> (r: Result<(String, String), String>)
    ensures
        index_or_end(s@, '=') == s@.len() ==> (r matches Err(e) && e@ == no_equals_message(s@)),
        index_or_end(s@, '=') < s@.len() ==> (r matches Ok((k, v)) && k@ == s@.take(
            index_or_end(s@, '=') as int,
        ) && v@ == s@.skip(index_or_end(s@, '=') + 1int)),
{
    let n = s.unicode_len();
    let pos = find_char(s, '=');
    if pos == n {
        let mut msg = String::from_str("invalid KEY=VALUE: no `=` in `");
        msg.append(s);
        msg.append("`");
        return Err(msg);
    }
    let key = String::from_str(s.substring_char(0, pos));
    let value = String::from_str(s.substring_char(pos + 1, n));
    assert(s@.subrange(0, pos as int) =~= s@.take(pos as int));
    assert(s@.subrange(pos + 1, n as int) =~= s@.skip(pos + 1));
    Ok((key, value))
}

/// The directory of a run under its workload's directory: the store's name,
/// then `_w<writers>` for writers only, `_r<readers>` for readers only, and
/// `_w<writers>_r<readers>` otherwise.
pub open spec fn run_dir_name_of(store: Seq<char>, writers: nat, readers: nat) -> Seq<char> {
    if readers > 0 && writers == 0 {
        store + "_r"@ + decimal_digits(readers)
    } else if writers > 0 && readers == 0 {
        store + "_w"@ + decimal_digits(writers)
    } else {
        store + "_w"@ + decimal_digits(writers) + "_r"@ + decimal_digits(readers)
    }
}

/// The directory of a run under its workload's directory.
pub fn run_dir_name(store: &str, writers: usize, readers: usize) -> (r: String)
    ensures
        r@ == run_dir_name_of(store@, writers as nat, readers as nat),
{
    let mut name = String::from_str(store);
    if readers > 0 && writers == 0 {
        name.append("_r");
        push_decimal(&mut name, readers as u64);
    } else if writers > 0 && readers == 0 {
        name.append("_w");
        push_decimal(&mut name, writers as u64);
    } else {
        name.append("_w");
        push_decimal(&mut name, writers as u64);
        name.append("_r");
        push_decimal(&mut name, readers as u64);
    }
    name
}

/// The files a run writes into its directory.
pub const SUMMARY_FILE: &'static str = "summary.json";

pub const SAMPLES_FILE: &'static str = "samples.jsonl";

pub const RUN_META_FILE: &'static str = "run.meta.json";

} // verus!
