//! A cache entry: its four files and the rule that decides whether it may be served.
use vstd::prelude::*;
use crate::key::is_path_component;
use crate::exit_code::{
    decimal_text, exit_code_of_text, is_digit, lemma_exit_code_text_round_trip, parse_exit_code,
};

verus! {

/// The names of an entry's four files within its command's directory.
#[derive(Debug, Clone, PartialEq, Eq)]
pub struct EntryFiles {
    pub lock: String,
    pub exit_code: String,
    pub stdout: String,
    pub stderr: String,
}

/// Prefixes the entry key with the name of one of the entry's files.
pub fn get_cache_file_with_prefix(prefix: &str, name: &str) -> (r: String)
    ensures
        r@ == prefix@ + name@,
{
    let mut full_name = String::new();
    full_name.append(prefix);
    full_name.append(name);
    full_name
}

/// The lock, exit-code, stdout and stderr file names of the entry with the given key.
pub fn get_cached_paths(encoded_args: &str) -> (r: EntryFiles)
    ensures
        r.lock@ == "lockfile_"@ + encoded_args@,
        r.exit_code@ == "exitcode_"@ + encoded_args@,
        r.stdout@ == "stdout_"@ + encoded_args@,
        r.stderr@ == "stderr_"@ + encoded_args@,
        is_path_component(encoded_args@) ==> is_path_component(r.lock@) && is_path_component(
            r.exit_code@,
        ) && is_path_component(r.stdout@) && is_path_component(r.stderr@),
{
    proof {
        reveal_strlit("lockfile_");
        reveal_strlit("exitcode_");
        reveal_strlit("stdout_");
        reveal_strlit("stderr_");
    }
    EntryFiles {
        lock: get_cache_file_with_prefix("lockfile_", encoded_args),
        exit_code: get_cache_file_with_prefix("exitcode_", encoded_args),
        stdout: get_cache_file_with_prefix("stdout_", encoded_args),
        stderr: get_cache_file_with_prefix("stderr_", encoded_args),
    }
}

/// An entry last committed at `modified_secs` is fresh at `now_secs` while its
/// age is strictly below the time-to-live.
pub open spec fn fresh_at(now_secs: int, modified_secs: int, ttl_secs: int) -> bool {
    now_secs - modified_secs < ttl_secs
}

/// The exit status that a commit marker's text lets the cache serve: it must
/// parse, and a failure is served only when failures are cached.
pub open spec fn servable_exit_code(text: Seq<u8>, cache_failures: bool) -> Option<i32> {
    match exit_code_of_text(text) {
        Some(code) => if code == 0 || cache_failures {
            Some(code)
        } else {
            None
        },
        None => None,
    }
}

/// The outcome of a lookup: the commit marker's modification time, if it
/// exists, and its text, if it could be read.
pub open spec fn entry_lookup(
    modified_secs: Option<i64>,
    now_secs: i64,
    exit_code_text: Option<Seq<u8>>,
    ttl_secs: u64,
    cache_failures: bool,
) -> Option<i32> {
    match modified_secs {
        None => None,
        Some(m) => if !fresh_at(now_secs as int, m as int, ttl_secs as int) {
            None
        } else {
            match exit_code_text {
                Some(text) => servable_exit_code(text, cache_failures),
                None => None,
            }
        },
    }
}

/// Whether an entry committed at `modified_secs` is still fresh at `now_secs`.
pub fn is_fresh(now_secs: i64, modified_secs: i64, ttl_secs: u64) -> (r: bool)
    ensures
        r == fresh_at(now_secs as int, modified_secs as int, ttl_secs as int),
{
    (now_secs as i128) - (modified_secs as i128) < ttl_secs as i128
}

/// The exit status that a commit marker's text lets the cache serve, if any.
pub fn servable_code(exit_code_text: &[u8], cache_failures: bool) -> (r: Option<i32>)
    ensures
        r == servable_exit_code(exit_code_text@, cache_failures),
{
    match parse_exit_code(exit_code_text) {
        Some(code) => if code != 0 && !cache_failures {
            None
        } else {
            Some(code)
        },
        None => None,
    }
}

/// Decides a lookup from what was found on disk: a missing, stale, unreadable
/// or unparsable commit marker is a miss, and so is a failure when failures
/// are not cached. Otherwise the cached exit status is served.
pub fn get_cached_value(
    modified_secs: Option<i64>,
    now_secs: i64,
    exit_code_text: Option<&[u8]>,
    ttl_secs: u64,
    cache_failures: bool,
) -> (r: Option<i32>)
    ensures
        r == entry_lookup(
            modified_secs,
            now_secs,
            match exit_code_text {
                Some(t) => Some(t@),
                None => None,
            },
            ttl_secs,
            cache_failures,
        ),
{
    let modified = match modified_secs {
        Some(m) => m,
        None => return None,
    };
    if !is_fresh(now_secs, modified, ttl_secs) {
        return None;
    }
    match exit_code_text {
        Some(text) => servable_code(text, cache_failures),
        None => None,
    }
}

/// An entry queried exactly its time-to-live after it was written is a miss;
/// one second earlier it is a hit whenever its exit status may be served.
pub proof fn lemma_ttl_boundary(written_secs: i64, ttl_secs: u64, text: Seq<u8>, cache_failures: bool)
    requires
        written_secs + ttl_secs <= i64::MAX,
        written_secs + ttl_secs - 1 >= i64::MIN,
    ensures
        entry_lookup(
            Some(written_secs),
            (written_secs + ttl_secs) as i64,
            Some(text),
            ttl_secs,
            cache_failures,
        ) is None,
        entry_lookup(
            Some(written_secs),
            (written_secs + ttl_secs - 1) as i64,
            Some(text),
            ttl_secs,
            cache_failures,
        ) == servable_exit_code(text, cache_failures),
{
}

/// A failed command's entry is a miss whenever failures are not cached, however
/// fresh; when they are cached, it is a hit while fresh.
pub proof fn lemma_failure_gate(modified_secs: i64, now_secs: i64, ttl_secs: u64, text: Seq<u8>)
    requires
        exit_code_of_text(text) matches Some(code) && code != 0,
    ensures
        entry_lookup(Some(modified_secs), now_secs, Some(text), ttl_secs, false) is None,
        fresh_at(now_secs as int, modified_secs as int, ttl_secs as int) ==> entry_lookup(
            Some(modified_secs),
            now_secs,
            Some(text),
            ttl_secs,
            true,
        ) == exit_code_of_text(text),
{
}

/// A commit marker whose text is not a decimal exit status makes the lookup a miss.
pub proof fn lemma_unparsable_text_is_miss(
    modified_secs: Option<i64>,
    now_secs: i64,
    text: Seq<u8>,
    ttl_secs: u64,
    cache_failures: bool,
)
    requires
        exit_code_of_text(text) is None,
    ensures
        entry_lookup(modified_secs, now_secs, Some(text), ttl_secs, cache_failures) is None,
{
}

/// A text holding a byte that is neither a digit nor a leading sign is no exit status.
pub proof fn lemma_non_numeric_text_is_unparsable(text: Seq<u8>, i: int)
    requires
        0 <= i < text.len(),
        !is_digit(text[i]),
        i > 0 || (text[i] != 45u8 && text[i] != 43u8),
    ensures
        exit_code_of_text(text) is None,
{
    if text[0] == 45u8 || text[0] == 43u8 {
        assert(text.skip(1)[i - 1] == text[i]);
    }
}

/// The exit status that a run commits is what a later lookup serves, as long
/// as the entry is fresh and the status may be served.
pub proof fn lemma_committed_status_is_served(
    code: i32,
    modified_secs: i64,
    now_secs: i64,
    ttl_secs: u64,
    cache_failures: bool,
)
    ensures
        entry_lookup(Some(modified_secs), now_secs, Some(decimal_text(code as int)), ttl_secs, cache_failures)
            == if fresh_at(now_secs as int, modified_secs as int, ttl_secs as int) && (code == 0
            || cache_failures) {
            Some(code)
        } else {
            None
        },
{
    lemma_exit_code_text_round_trip(code);
}

} // verus!
