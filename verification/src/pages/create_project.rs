//! The form that deploys a project from an image.

use crate::models::project::DeployPayload;
use crate::services::project_service::{ApiError, ApiErrorView};
use crate::text::{chars_of, split, split_ranges, texts, trim_bounds, trimmed};
use vstd::prelude::*;

verus! {

/// The participants that `pieces` name: each piece is trimmed, empty ones are left out,
/// and a name that came before is not taken again.
pub open spec fn participants_of(pieces: Seq<Seq<char>>) -> Seq<Seq<char>>
    decreases pieces.len(),
{
    if pieces.len() == 0 {
        Seq::empty()
    } else {
        let earlier = participants_of(pieces.drop_last());
        let name = trimmed(pieces.last());
        if name.len() == 0 || earlier.contains(name) {
            earlier
        } else {
            earlier.push(name)
        }
    }
}

/// The participants that the field's text names, between commas.
pub open spec fn spec_parse_participants(text: Seq<char>) -> Seq<Seq<char>> {
    participants_of(split(text, ','))
}

/// No name occurs twice among the participants that pieces name, and none is empty.
pub proof fn lemma_participants_distinct(pieces: Seq<Seq<char>>)
    ensures
        forall|i: int, j: int|
            0 <= i < j < participants_of(pieces).len() ==> participants_of(pieces)[i]
                != participants_of(pieces)[j],
        forall|i: int|
            0 <= i < participants_of(pieces).len() ==> participants_of(pieces)[i].len() > 0,
    decreases pieces.len(),
{
    if pieces.len() > 0 {
        lemma_participants_distinct(pieces.drop_last());
        let earlier = participants_of(pieces.drop_last());
        let all = participants_of(pieces);
        assert forall|i: int, j: int| 0 <= i < j < all.len() implies all[i] != all[j] by {
            if j >= earlier.len() {
                assert(earlier.contains(earlier[i]));
            }
        }
        assert forall|i: int| 0 <= i < all.len() implies all[i].len() > 0 by {
            if i < earlier.len() {
                assert(all[i] == earlier[i]);
            }
        }
    }
}

/// Tells whether `names` holds `name`.
pub fn holds_name(names: &Vec<String>, name: &String) -> (r: bool)
    ensures
        r == texts(names@).contains(name@),
{
    let mut i: usize = 0;
    while i < names.len()
        invariant
            i <= names.len(),
            forall|j: int| 0 <= j < i ==> texts(names@)[j] != name@,
        decreases names.len() - i,
    {
        if names[i] == *name {
            assert(texts(names@)[i as int] == name@);
            return true;
        }
        i += 1;
    }
    false
}

/// Reads the participants that the field's text names.
pub fn parse_participants(text: &str) -> (names: Vec<String>)
    ensures
        texts(names@) == spec_parse_participants(text@),
        forall|i: int, j: int|
            0 <= i < j < names@.len() ==> (#[trigger] names@[i])@ != (#[trigger] names@[j])@,
        forall|i: int| 0 <= i < names@.len() ==> (#[trigger] names@[i])@.len() > 0,
{
    let v = chars_of(text);
    let n = v.len();
    let ranges = split_ranges(&v, 0, n, ',');
    let ghost pieces = split(text@, ',');
    let mut names: Vec<String> = Vec::new();
    let mut i: usize = 0;
    proof {
        assert(v@.subrange(0, n as int) =~= v@);
    }
    while i < ranges.len()
        invariant
            i <= ranges.len(),
            v@ == text@,
            n == v.len(),
            pieces == split(text@, ','),
            ranges@.len() == pieces.len(),
            forall|k: int|
                0 <= k < ranges@.len() ==> (#[trigger] ranges@[k]).0 <= ranges@[k].1 <= n
                    && v@.subrange(ranges@[k].0 as int, ranges@[k].1 as int) == pieces[k],
            texts(names@) == participants_of(pieces.take(i as int)),
        decreases ranges.len() - i,
    {
        let (a, b) = ranges[i];
        let (ta, tb) = trim_bounds(&v, a, b);
        proof {
            let upto = pieces.take(i + 1);
            assert(upto.drop_last() =~= pieces.take(i as int));
        }
        if ta < tb {
            let name = String::from_str(text.substring_char(ta, tb));
            if !holds_name(&names, &name) {
                names.push(name);
            }
        }
        i += 1;
    }
    proof {
        assert(pieces.take(ranges.len() as int) =~= pieces);
        lemma_participants_distinct(pieces);
        assert forall|i: int, j: int| 0 <= i < j < names@.len() implies (#[trigger] names@[i])@
            != (#[trigger] names@[j])@ by {
            assert(texts(names@)[i] == names@[i]@ && texts(names@)[j] == names@[j]@);
        }
        assert forall|i: int| 0 <= i < names@.len() implies (#[trigger] names@[i])@.len() > 0 by {
            assert(texts(names@)[i] == names@[i]@);
        }
    }
    names
}

/// Whether the user `user_login` is among the participants that `text` names.
pub open spec fn names_owner(text: Seq<char>, user_login: Option<String>) -> bool {
    match user_login {
        Some(login) => spec_parse_participants(text).contains(login@),
        None => false,
    }
}

/// Prepares the deployment that the form describes. The owner of a project cannot take
/// part in it: where the participants name the user, nothing is sent and the error
/// `OWNER_CANNOT_BE_PARTICIPANT` is shown. Otherwise the payload holds the name, the image and
/// the participants, and nothing else.
pub fn create_project(
    project_name: &str,
    image_url: &str,
    participants_str: &str,
    user_login: &Option<String>,
) -> (r: Result<DeployPayload, ApiError>)
    ensures
        match r {
            Err(e) => {
                &&& names_owner(participants_str@, *user_login)
                &&& e@ == (ApiErrorView {
                    error_code: "OWNER_CANNOT_BE_PARTICIPANT"@,
                    details: None,
                })
            },
            Ok(payload) => {
                &&& !names_owner(participants_str@, *user_login)
                &&& payload.project_name@ == project_name@
                &&& payload.image_url is Some
                &&& payload.image_url->0@ == image_url@
                &&& texts(payload.participants@) == spec_parse_participants(participants_str@)
                &&& payload.github_repo_url is None
                &&& payload.github_branch is None
                &&& payload.github_root_dir is None
                &&& payload.env_vars is None
                &&& payload.persistent_volume_path is None
                &&& payload.create_database is None
            },
        },
{
    let participants = parse_participants(participants_str);
    let owner_named = match user_login {
        Some(login) => holds_name(&participants, login),
        None => false,
    };
    if owner_named {
        return Err(ApiError::from_code(String::from_str("OWNER_CANNOT_BE_PARTICIPANT")));
    }
    Ok(
        DeployPayload {
            project_name: String::from_str(project_name),
            image_url: Some(String::from_str(image_url)),
            github_repo_url: None,
            github_branch: None,
            github_root_dir: None,
            participants,
            env_vars: None,
            persistent_volume_path: None,
            create_database: None,
        },
    )
}

/// The security report to show beneath the message of `error`: the details of a failed
/// image scan.
pub open spec fn spec_scan_report(error: ApiError) -> Option<String> {
    if error.error_code@ == "IMAGE_SCAN_FAILED"@ {
        error.details
    } else {
        None
    }
}

/// Picks the security report to show beneath the message of `error`.
pub fn scan_report(error: &ApiError) -> (report: Option<&String>)
    ensures
        match report {
            Some(text) => spec_scan_report(*error) == Some(*text),
            None => spec_scan_report(*error) is None,
        },
{
    let code = String::from_str("IMAGE_SCAN_FAILED");
    if error.error_code == code {
        match &error.details {
            Some(text) => Some(text),
            None => None,
        }
    } else {
        None
    }
}

} // verus!
