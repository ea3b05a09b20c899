//! The client's releases.

use vstd::prelude::*;
use vstd::string::StringExecFns;
use crate::text::{
    trim_start_matches, trim_start_matches_text, without_leading, without_leading_text,
};

verus! {

/// The version that a release's tag names: the tag without the `v.` and
/// the `v` that it may begin with.
pub open spec fn version_of(tag: Seq<char>) -> Seq<char> {
    without_leading(without_leading_text(tag, "v."@), 'v')
}

/// The version of the latest release, given its tag. A release without a
/// tag is an error; a tag that is no text names the empty version.
pub fn get_latest_release_version(tag: Option<Option<&str>>) -> (version: Result<String, String>)
    ensures
        match tag {
            Some(Some(t)) => version matches Ok(v) && v@ == version_of(t@),
            Some(None) => version matches Ok(v) && v@ == version_of(Seq::empty()),
            None => version matches Err(e) && e@ == "No tag_name found in release info"@,
        },
{
    match tag {
        Some(Some(t)) => Ok(
            String::from_str(trim_start_matches(trim_start_matches_text(t, "v."), 'v')),
        ),
        Some(None) => {
            assert(version_of(Seq::empty()) =~= Seq::<char>::empty());
            Ok(String::new())
        },
        None => Err(String::from_str("No tag_name found in release info")),
    }
}

} // verus!
