//! Listing scans and issues: how paths and repositories are shown.

use vstd::prelude::*;
use vstd::string::StringExecFns;
use vstd::string::StringSliceAdditionalSpecFns;
use crate::text::{lemma_pieces_nonempty, pieces, same, split, strings, strip_suffix};
use crate::utils::terminal::byte_len;

verus! {

/// A path as it is shown in a table: of a path with more than two parts the
/// first part where it is longer than one byte, else the second; two dots;
/// and the last part.
pub open spec fn shortened(parts: Seq<String>, path: Seq<char>) -> Seq<char> {
    if parts.len() > 2 {
        (if byte_len(parts[0]@) > 1 {
            parts[0]@
        } else {
            parts[1]@
        }) + "/../"@ + parts.last()@
    } else {
        path
    }
}

/// A path as it is shown in a table, given its parts.
pub fn shorten_path(parts: &Vec<String>, path: &str) -> (shown: String)
    ensures
        shown@ == shortened(parts@, path@),
{
    if parts.len() > 2 {
        let first = parts[0].as_str();
        assert(first.spec_bytes() == vstd::utf8::encode_utf8(first@));
        let base = if first.len() > 1 {
            first
        } else {
            parts[1].as_str()
        };
        let mut shown = String::from_str(base);
        shown.append("/../");
        shown.append(parts[parts.len() - 1].as_str());
        shown
    } else {
        String::from_str(path)
    }
}

/// A name without the ending `.git`, where it has it.
pub open spec fn without_git(name: Seq<char>) -> Seq<char> {
    if ".git"@.is_suffix_of(name) {
        name.take(name.len() - ".git"@.len())
    } else {
        name
    }
}

/// The owner in a repository's address: the fourth of the parts between
/// its slashes, and `unknown` where it has fewer.
pub open spec fn owner_of(parts: Seq<Seq<char>>) -> Seq<char> {
    if parts.len() > 3 {
        parts[3]
    } else {
        "unknown"@
    }
}

/// A repository as it is shown: owner and name, taken from its address;
/// `N/A` where there is none.
pub open spec fn repo_shown(repo: Option<Seq<char>>) -> Seq<char> {
    match repo {
        Some(address) => if address == "N/A"@ {
            address
        } else {
            let parts = pieces(address, '/');
            owner_of(parts) + "/"@ + without_git(parts.last())
        },
        None => "N/A"@,
    }
}

/// A repository as it is shown.
pub fn format_repo(repo: Option<&str>) -> (shown: String)
    ensures
        shown@ == repo_shown(
            match repo {
                Some(r) => Some(r@),
                None => None,
            },
        ),
{
    match repo {
        Some(address) => {
            if same(address, "N/A") {
                return String::from_str(address);
            }
            let parts = split(address, '/');
            proof {
                lemma_pieces_nonempty(address@, '/');
            }
            let ghost all = strings(parts@);
            let last = parts[parts.len() - 1].as_str();
            assert(last@ == all.last());
            let name = match strip_suffix(last, ".git") {
                Some(stem) => {
                    assert(stem@ =~= without_git(last@));
                    stem
                },
                None => last,
            };
            let mut shown = if parts.len() > 3 {
                assert(all[3] == parts@[3]@);
                String::from_str(parts[3].as_str())
            } else {
                String::from_str("unknown")
            };
            shown.append("/");
            shown.append(name);
            shown
        },
        None => String::from_str("N/A"),
    }
}

} // verus!
