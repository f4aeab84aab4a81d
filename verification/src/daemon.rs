//! The background process that cycles through themes.
use crate::text::{chars_of, contains, find_in, lines, rows, split_lines};
use vstd::prelude::*;

verus! {

/// Whether a line of the process table names the cycling process.
pub open spec fn daemon_listed(table: Seq<char>) -> bool {
    exists|i: int| 0 <= i < lines(table).len() && contains(#[trigger] lines(table)[i], "ravend"@)
}

/// Whether the cycling process runs. `table` is the table of the running
/// processes, one to a line.
pub fn check_daemon(table: &str) -> (running: bool)
    ensures
        running == daemon_listed(table@),
{
    let text = chars_of(table);
    let name = chars_of("ravend");
    let ls = split_lines(&text);
    let n = ls.len();
    let mut i: usize = 0;
    while i < n
        invariant
            i <= n == ls.len(),
            rows(ls@) == lines(table@),
            name@ == "ravend"@,
            forall|k: int| 0 <= k < i ==> !contains(#[trigger] lines(table@)[k], "ravend"@),
        decreases n - i,
    {
        assert(rows(ls@)[i as int] == ls@[i as int]@);
        if find_in(&ls[i], &name) {
            return true;
        }
        i += 1;
    }
    false
}

} // verus!
