//! Small helpers without a better home.

use vstd::prelude::*;
use crate::text::{lowercase, same, to_lowercase};

verus! {

/// What version control knows of the project at the start of a scan. Every
/// part may be missing.
#[derive(Debug)]
pub struct RepoInfo {
    pub branch: Option<String>,
    pub repo_url: Option<String>,
    pub sha: Option<String>,
}

/// The label under which a status is shown, given the status in lower case;
/// nothing where the status has no label of its own.
pub open spec fn status_label(lower: Seq<char>) -> Option<Seq<char>> {
    if lower == "fix available"@ || lower == "fix_available"@ {
        Some("Fix Available"@)
    } else if lower == "processing"@ {
        Some("Processing"@)
    } else if lower == "false positive"@ || lower == "false_positive"@ {
        Some("False Positive"@)
    } else if lower == "on hold"@ || lower == "on_hold"@ {
        Some("On Hold"@)
    } else if lower == "unsupported"@ {
        Some("Unsupported"@)
    } else if lower == "plan"@ {
        Some("Plan"@)
    } else if lower == "complete"@ {
        Some("Complete"@)
    } else if lower == "scanning"@ {
        Some("Scanning"@)
    } else if lower == "failed"@ {
        Some("Failed"@)
    } else {
        None
    }
}

/// The label under which a status in lower case is shown.
pub fn label_of(lower: &str) -> (label: Option<&'static str>)
    ensures
        match label {
            Some(l) => status_label(lower@) == Some(l@),
            None => status_label(lower@) is None,
        },
{
    if same(lower, "fix available") || same(lower, "fix_available") {
        Some("Fix Available")
    } else if same(lower, "processing") {
        Some("Processing")
    } else if same(lower, "false positive") || same(lower, "false_positive") {
        Some("False Positive")
    } else if same(lower, "on hold") || same(lower, "on_hold") {
        Some("On Hold")
    } else if same(lower, "unsupported") {
        Some("Unsupported")
    } else if same(lower, "plan") {
        Some("Plan")
    } else if same(lower, "complete") {
        Some("Complete")
    } else if same(lower, "scanning") {
        Some("Scanning")
    } else if same(lower, "failed") {
        Some("Failed")
    } else {
        None
    }
}

/// The words in which the status of an issue or a scan is shown: its label,
/// whatever the case it is written in, and the status itself where it has no
/// label.
pub fn get_status<'a>(status: &'a str) -> (shown: &'a str)
    ensures
        shown@ == (match status_label(lowercase(status@)) {
            Some(label) => label,
            None => status@,
        }),
{
    let lower = to_lowercase(status);
    match label_of(lower.as_str()) {
        Some(label) => label,
        None => status,
    }
}

/// The patterns of what is left out of a packaged project unless the
/// caller names others: tests, dependencies, generated and temporary files,
/// style sheets, data and scripts.
pub fn default_exclude_globs() -> (globs: Vec<&'static str>)
    ensures
        globs@.len() == 17,
        globs@[0]@ == "**/tests/**"@,
        globs@[1]@ == "**/.corgea/**"@,
        globs@[2]@ == "**/test/**"@,
        globs@[3]@ == "**/spec/**"@,
        globs@[4]@ == "**/specs/**"@,
        globs@[5]@ == "**/node_modules/**"@,
        globs@[6]@ == "**/tmp/**"@,
        globs@[7]@ == "**/migrations/**"@,
        globs@[8]@ == "**/python*/site-packages/**"@,
        globs@[9]@ == "**/*.csv"@,
        globs@[10]@ == "**/*.mmdb"@,
        globs@[11]@ == "**/*.css"@,
        globs@[12]@ == "**/*.less"@,
        globs@[13]@ == "**/*.scss"@,
        globs@[14]@ == "**/*.map"@,
        globs@[15]@ == "**/*.env"@,
        globs@[16]@ == "**/*.sh"@,
{
    let mut globs: Vec<&'static str> = Vec::new();
    globs.push("**/tests/**");
    globs.push("**/.corgea/**");
    globs.push("**/test/**");
    globs.push("**/spec/**");
    globs.push("**/specs/**");
    globs.push("**/node_modules/**");
    globs.push("**/tmp/**");
    globs.push("**/migrations/**");
    globs.push("**/python*/site-packages/**");
    globs.push("**/*.csv");
    globs.push("**/*.mmdb");
    globs.push("**/*.css");
    globs.push("**/*.less");
    globs.push("**/*.scss");
    globs.push("**/*.map");
    globs.push("**/*.env");
    globs.push("**/*.sh");
    globs
}

/// What becomes of a path when a project is packaged.
#[derive(Debug, Clone, Copy, PartialEq, Eq, Structural)]
pub enum ZipEntry {
    /// The file goes into the archive.
    File,
    /// The directory goes into the archive.
    Directory,
    /// The path is left out.
    Skip,
}

/// What becomes of a path, given what it is and whether a pattern excludes
/// it.
pub fn create_zip_from_list_of_files(is_file: bool, is_dir: bool, excluded: bool) -> (entry: ZipEntry)
    ensures
        entry == (if excluded {
            ZipEntry::Skip
        } else if is_file {
            ZipEntry::File
        } else if is_dir {
            ZipEntry::Directory
        } else {
            ZipEntry::Skip
        }),
{
    if excluded {
        ZipEntry::Skip
    } else if is_file {
        ZipEntry::File
    } else if is_dir {
        ZipEntry::Directory
    } else {
        ZipEntry::Skip
    }
}

/// The status bit of a file that is new in the working tree.
pub const WT_NEW: u32 = 128;

/// The status bit of a file that is modified in the working tree.
pub const WT_MODIFIED: u32 = 256;

/// The status bit of a file that is deleted from the working tree.
pub const WT_DELETED: u32 = 512;

/// Whether a file with these status bits counts as changed and not yet
/// committed: it is new, modified or deleted in the working tree.
pub fn get_untracked_and_modified_files(status_bits: u32) -> (changed: bool)
    ensures
        changed == (status_bits & WT_NEW != 0 || status_bits & WT_MODIFIED != 0 || status_bits
            & WT_DELETED != 0),
{
    status_bits & WT_NEW != 0 || status_bits & WT_MODIFIED != 0 || status_bits & WT_DELETED != 0
}

} // verus!
