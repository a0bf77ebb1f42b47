//! The iCloud provider settings that the command line builds.

use vstd::prelude::*;
use crate::text::{opt_str_view, opt_view, chars_of, string_of, trim, trim_bounds};

verus! {

/// Where an iCloud vault lives: a root folder (`None`: the detected iCloud
/// Drive folder) and an optional subfolder within it.
#[derive(Debug, Clone, PartialEq, Eq)]
pub struct ICloudConfig {
    /// The iCloud Drive folder, when it is not detected.
    pub root_path: Option<String>,
    /// The subfolder that holds the vault.
    pub subfolder: Option<String>,
}

/// The subfolder that is used: the given one trimmed, none when that is empty.
pub open spec fn normalized_subfolder(subfolder: Option<Seq<char>>) -> Option<Seq<char>> {
    match subfolder {
        Some(s) => if trim(s).len() > 0 {
            Some(trim(s))
        } else {
            None
        },
        None => None,
    }
}

/// The given subfolder with surrounding whitespace removed; `None` when
/// nothing is left.
pub fn normalize_subfolder(subfolder: Option<&str>) -> (r: Option<String>)
    ensures
        opt_view(r) == normalized_subfolder(opt_str_view(subfolder)),
{
    match subfolder {
        Some(s) => {
            let v = chars_of(s);
            let (a, b) = trim_bounds(&v);
            if a == b {
                None
            } else {
                Some(string_of(&v, a, b))
            }
        },
        None => None,
    }
}

/// The iCloud settings for a root folder (as text) and a subfolder.
pub fn build_icloud_config(root_path: Option<String>, subfolder: Option<&str>) -> (c: ICloudConfig)
    ensures
        opt_view(c.root_path) == opt_view(root_path),
        opt_view(c.subfolder) == normalized_subfolder(opt_str_view(subfolder)),
{
    ICloudConfig { root_path, subfolder: normalize_subfolder(subfolder) }
}

/// Normalising a subfolder twice gives what normalising it once gives.
pub proof fn law_normalize_subfolder_idempotent(subfolder: Option<Seq<char>>)
    ensures
        normalized_subfolder(normalized_subfolder(subfolder)) == normalized_subfolder(subfolder),
{
    if let Some(s) = subfolder {
        if trim(s).len() > 0 {
            crate::text::lemma_trim_idempotent(s);
        }
    }
}

} // verus!
