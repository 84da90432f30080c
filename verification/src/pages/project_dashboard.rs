//! The dashboard of one project: what it shows, to whom, and under which message keys.

pub mod control;
pub mod env;
pub mod live;
pub mod logs;
pub mod view;

use crate::localization::{lookup, may_answer, may_translate, spec_can_translate, translate_or};
use crate::models::project::{Project, ProjectDetails, ProjectSourceType};
use crate::models::user::User;
use crate::services::project_service::ApiError;
use crate::text::{before, replace_all, replaced, str_before};
use i18nrs::I18n;
use vstd::prelude::*;

verus! {

/// The time between two status requests, in milliseconds.
pub const STATUS_POLL_INTERVAL_MS: u32 = 5000;

/// The time between two metrics requests, in milliseconds.
pub const METRICS_POLL_INTERVAL_MS: u32 = 3000;

/// The key of the label for the status `status`.
pub open spec fn status_key(status: Seq<char>) -> Seq<char> {
    "common.status_"@ + status
}

/// Builds the key of the label for the status `status_str`.
pub fn status_translation_key(status_str: &str) -> (key: String)
    ensures
        key@ == status_key(status_str@),
{
    let mut key = String::from_str("common.status_");
    key.append(status_str);
    key
}

/// The label for the status `status_str`: the message under its key, or the message for
/// an unknown status where the catalog has none.
pub fn translate_status(status_str: &str, i18n: &I18n) -> (label: String)
    requires
        spec_can_translate(i18n),
    ensures
        may_translate(*i18n, status_key(status_str@), "common.status_unknown"@, label@),
{
    let key = status_translation_key(status_str);
    translate_or(i18n, key.as_str(), "common.status_unknown")
}

/// The key of the message for the error code `code`.
pub open spec fn error_key(code: Seq<char>) -> Seq<char> {
    "errors."@ + code
}

/// Builds the key of the message for `error`; the code goes into it unchanged.
pub fn error_translation_key(error: &ApiError) -> (key: String)
    ensures
        key@ == error_key(error.error_code@),
{
    let mut key = String::from_str("errors.");
    key.append(error.error_code.as_str());
    key
}

/// The message for `error`: the message under its code's key, or the general message
/// where the catalog has none for that code.
pub fn translate_error(error: &ApiError, i18n: &I18n) -> (message: String)
    requires
        spec_can_translate(i18n),
    ensures
        may_translate(*i18n, error_key(error.error_code@), "errors.DEFAULT"@, message@),
{
    let key = error_translation_key(error);
    translate_or(i18n, key.as_str(), "errors.DEFAULT")
}

/// The style class of the badge for `status`.
pub open spec fn spec_status_class(status: Option<String>) -> Seq<char> {
    match status {
        Some(s) => "status-"@ + s@,
        None => "status-unknown"@,
    }
}

/// Builds the style class of the badge for `status`.
pub fn status_class(status: &Option<String>) -> (class: String)
    ensures
        class@ == spec_status_class(*status),
{
    match status {
        Some(s) => {
            let mut class = String::from_str("status-");
            class.append(s.as_str());
            class
        },
        None => String::from_str("status-unknown"),
    }
}

/// The status badge: its style class and its label.
#[derive(Debug, PartialEq)]
pub struct StatusBadge {
    pub class: String,
    pub text: String,
}

/// The badge for `status`. While no status is known the label is the loading message.
pub fn project_status(status: &Option<String>, i18n: &I18n) -> (badge: StatusBadge)
    requires
        spec_can_translate(i18n),
    ensures
        badge.class@ == spec_status_class(*status),
        match *status {
            Some(s) => may_translate(
                *i18n,
                status_key(s@),
                "common.status_unknown"@,
                badge.text@,
            ),
            None => may_answer(*i18n, "common.loading"@, badge.text@),
        },
{
    let text = match status {
        Some(s) => translate_status(s.as_str(), i18n),
        None => lookup(i18n, "common.loading"),
    };
    StatusBadge { class: status_class(status), text }
}

/// Who may control a project: an administrator, and its owner.
pub open spec fn spec_has_control_access(user: Option<User>, project: Project) -> bool {
    match user {
        Some(u) => u.is_admin || u.login@ == project.owner@,
        None => false,
    }
}

/// Tells whether `user` may control `project`.
pub fn has_control_access(user: &Option<User>, project: &Project) -> (r: bool)
    ensures
        r == spec_has_control_access(*user, *project),
{
    match user {
        Some(u) => u.is_admin || u.login == project.owner,
        None => false,
    }
}

/// The day on which a project was created: what stands before the `T` of its timestamp.
pub fn created_on_date<'a>(created_at: &'a str) -> (date: &'a str)
    ensures
        date@ == before(created_at@, 'T'),
{
    str_before(created_at, 'T')
}

/// The line that tells when a project was created: `template` with `{date}` replaced by
/// the day of `created_at`.
pub fn created_on_message(template: &str, created_at: &str) -> (message: String)
    ensures
        message@ == replaced(template@, "{date}"@, before(created_at@, 'T')),
{
    replace_all(template, "{date}", created_on_date(created_at))
}

/// A message that names something: `template` with `{name}` replaced by `name`. The
/// prompts that confirm a deletion, a new image and the removal of a participant are such.
pub fn naming_message(template: &str, name: &str) -> (message: String)
    ensures
        message@ == replaced(template@, "{name}"@, name@),
{
    replace_all(template, "{name}", name)
}

/// A message that reports a failure: `template` with `{error}` replaced by `error`.
pub fn failure_message(template: &str, error: &str) -> (message: String)
    ensures
        message@ == replaced(template@, "{error}"@, error@),
{
    replace_all(template, "{error}", error)
}

/// What the dashboard shows.
#[derive(Clone, Copy, Debug, PartialEq, Eq, Structural)]
pub enum DashboardView {
    /// The project could not be loaded.
    Failed,
    /// The project's details have not come in yet.
    Loading,
    /// The project, with the controls only where `has_control_access`, and the form that
    /// replaces its image only where `can_update_image`.
    Loaded { has_control_access: bool, can_update_image: bool },
}

/// What the dashboard shows: a load error goes before everything else; the controls are
/// for those with control access; the image can be replaced only on a project that was
/// deployed from an image.
pub open spec fn spec_project_dashboard(
    error: Option<String>,
    details: Option<ProjectDetails>,
    user: Option<User>,
) -> DashboardView {
    if error is Some {
        DashboardView::Failed
    } else {
        match details {
            None => DashboardView::Loading,
            Some(d) => DashboardView::Loaded {
                has_control_access: spec_has_control_access(user, d.project),
                can_update_image: spec_has_control_access(user, d.project) && d.project.source
                    == ProjectSourceType::Direct,
            },
        }
    }
}

/// Decides what the dashboard shows.
pub fn project_dashboard(
    error: &Option<String>,
    details: &Option<ProjectDetails>,
    user: &Option<User>,
) -> (view: DashboardView)
    ensures
        view == spec_project_dashboard(*error, *details, *user),
{
    if error.is_some() {
        return DashboardView::Failed;
    }
    match details {
        None => DashboardView::Loading,
        Some(d) => {
            let access = has_control_access(user, &d.project);
            let direct = match d.project.source {
                ProjectSourceType::Direct => true,
                ProjectSourceType::Github => false,
            };
            DashboardView::Loaded { has_control_access: access, can_update_image: access && direct }
        },
    }
}

} // verus!
