//! What the client settles at startup.

use crate::text::{starts_with, str_starts_with};
use vstd::prelude::*;

verus! {

/// The language in which the client starts: French for a browser set to any French
/// locale, English for every other browser and where the browser names no language.
pub open spec fn spec_default_language(browser_language: Option<Seq<char>>) -> Seq<char> {
    match browser_language {
        Some(lang) => if starts_with(lang, "fr"@) {
            "fr"@
        } else {
            "en"@
        },
        None => "en"@,
    }
}

/// Chooses the language in which the client starts.
pub fn default_language(browser_language: Option<&str>) -> (code: &'static str)
    ensures
        code@ == spec_default_language(
            match browser_language {
                Some(lang) => Some(lang@),
                None => None,
            },
        ),
{
    match browser_language {
        Some(lang) => {
            if str_starts_with(lang, "fr") {
                "fr"
            } else {
                "en"
            }
        },
        None => "en",
    }
}

} // verus!
