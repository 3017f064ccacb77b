//! The backup of a server's directory: what goes into the archive, and
//! what the archive is called.

use crate::helpers::text::{chars_of, same_text, string_views};
use vstd::prelude::*;
use vstd::string::StringExecFns;

verus! {

/// The directory that holds the backups, inside the server's directory.
pub open spec fn backup_directory() -> Seq<char> {
    ".backup"@
}

/// The file of the backup that was begun at `stamp`.
pub open spec fn backup_path(stamp: Seq<char>) -> Seq<char> {
    backup_directory() + "/backup-"@ + stamp + ".tar.gz"@
}

/// The entries of the server's directory that a backup holds: all but the
/// directory of the backups, in their order.
pub open spec fn backed_up(entries: Seq<Seq<char>>) -> Seq<Seq<char>> {
    entries.filter(|name: Seq<char>| name != backup_directory())
}

/// The name of the backup that was begun at `stamp`, a date and a time in
/// digits.
pub fn backup_file(stamp: &str) -> (r: String)
    ensures
        r@ == backup_path(stamp@),
{
    let mut r = String::from_str(".backup");
    r.append("/backup-");
    r.append(stamp);
    r.append(".tar.gz");
    r
}

/// Picks the entries of the server's directory that go into a backup.
pub fn backup_entries(entries: &Vec<String>) -> (r: Vec<String>)
    ensures
        string_views(r@) == backed_up(string_views(entries@)),
{
    let mut r: Vec<String> = Vec::new();
    let own = chars_of(".backup");
    let ghost all = string_views(entries@);
    let ghost keep = |name: Seq<char>| name != backup_directory();
    let mut i: usize = 0;
    proof {
        reveal(Seq::filter);
    }
    while i < entries.len()
        invariant
            i <= entries.len(),
            all == string_views(entries@),
            own@ == backup_directory(),
            keep == |name: Seq<char>| name != backup_directory(),
            string_views(r@) == all.take(i as int).filter(keep),
        decreases entries.len() - i,
    {
        proof {
            reveal(Seq::filter);
            assert(all.take(i + 1).drop_last() =~= all.take(i as int));
        }
        if !same_text(&chars_of(entries[i].as_str()), &own) {
            r.push(entries[i].clone());
        }
        i += 1;
    }
    assert(all.take(i as int) =~= all);
    r
}

} // verus!
