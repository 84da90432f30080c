use hangar::localization::{can_translate, is_translation_missing, known_translation, translate_or};
use hangar::models::project::{EnvVar, Project, ProjectDetails, ProjectSourceType};
use hangar::models::user::User;
use hangar::pages::project_dashboard::control::{
    ControlAction, ControlPanel, FollowUp, Submission, RELOAD_DELAY_MS,
};
use hangar::pages::project_dashboard::env::{format_env_vars, parse_env_vars};
use hangar::pages::project_dashboard::live::{PollHandle, PollRequest, Poller};
use hangar::pages::project_dashboard::logs::{
    determine_log_level, format_timestamp, level_class_of, logs_view, parse_log_line,
    render_log_line, render_logs, LogLine, LogsView,
};
use hangar::pages::project_dashboard::view::ProjectView;
use hangar::pages::project_dashboard::{
    created_on_date, created_on_message, error_translation_key, failure_message,
    has_control_access, naming_message, project_dashboard, project_status, status_class,
    status_translation_key, translate_error, translate_status, DashboardView,
    METRICS_POLL_INTERVAL_MS, STATUS_POLL_INTERVAL_MS,
};
use hangar::services::project_service::{get_project_metrics, get_project_status, ApiError, StatusResponse};
use hangar::services::transport::{Refusal, Reply};
use hangar::text::replace_all;
use i18nrs::{I18n, I18nConfig};
use std::collections::HashMap;

const EN: &str = r#"{
    "common": {
        "loading": "Loading...",
        "status_running": "Running",
        "status_unknown": "Unknown"
    },
    "errors": {
        "ODD": "Key 'errors.ODD' not found for language 'en'",
        "COUNT": 3,
        "UNAUTHORIZED": "Your session has expired. Please log in again.",
        "HTTP_ERROR_500": "An internal server error occurred.",
        "DEFAULT": "An unexpected error occurred. Please contact an administrator."
    }
}"#;

fn catalog() -> I18n {
    let translations = HashMap::from([("en", EN)]);
    I18n::new(I18nConfig { translations: translations.clone() }, translations).unwrap()
}

fn unconfigured_catalog() -> I18n {
    I18n::new(I18nConfig { translations: HashMap::new() }, HashMap::from([("en", EN)])).unwrap()
}

fn user(login: &str, is_admin: bool) -> User {
    User { login: login.to_string(), name: "N".to_string(), email: "e".to_string(), is_admin }
}

fn project(owner: &str, source: ProjectSourceType) -> Project {
    Project {
        id: 1,
        name: "p".to_string(),
        owner: owner.to_string(),
        container_name: "c".to_string(),
        source,
        source_url: "u".to_string(),
        source_branch: None,
        source_root_dir: None,
        deployed_image_tag: "t".to_string(),
        created_at: "2024-05-01T10:00:00Z".to_string(),
        env_vars: None,
        persistent_volume_path: None,
    }
}

fn var(key: &str, value: &str) -> EnvVar {
    EnvVar { key: key.to_string(), value: value.to_string() }
}

fn api_error(code: &str) -> ApiError {
    ApiError { error_code: code.to_string(), details: None }
}

// --- logs ---

#[test]
fn log_line_with_timestamp_is_cut_at_the_first_space() {
    assert_eq!(
        parse_log_line("2024-05-01T10:00:00.123456789Z  server started "),
        ("2024-05-01T10:00:00.123456789Z", "server started")
    );
    assert_eq!(parse_log_line("Z x"), ("Z", "x"));
    assert_eq!(parse_log_line("Z "), ("Z", ""));
}

#[test]
fn log_line_without_timestamp_is_all_message() {
    assert_eq!(parse_log_line("plain message here"), ("", "plain message here"));
    assert_eq!(parse_log_line("nospace"), ("", "nospace"));
    assert_eq!(parse_log_line("nospaceZ"), ("", "nospaceZ"));
    assert_eq!(parse_log_line(" leading space"), ("", " leading space"));
    assert_eq!(parse_log_line(""), ("", ""));
}

#[test]
fn log_line_parsing_agrees_with_splitn() {
    for line in ["a b c", "1Z m", "1Z", " Z", "1Z  two  spaces  ", "é Z", "Zé x", "2024Z\tx y"] {
        let parts: Vec<&str> = line.splitn(2, ' ').collect();
        let expected =
            if parts.len() == 2 && parts[0].ends_with('Z') { (parts[0], parts[1].trim()) } else { ("", line) };
        assert_eq!(parse_log_line(line), expected, "{line:?}");
    }
}

#[test]
fn timestamp_loses_its_fraction() {
    assert_eq!(format_timestamp("2024-05-01T10:00:00.123456789Z"), "2024-05-01T10:00:00");
    assert_eq!(format_timestamp("2024-05-01T10:00:00Z"), "2024-05-01T10:00:00Z");
    assert_eq!(format_timestamp(""), "");
}

#[test]
fn log_level_is_read_from_the_message() {
    assert_eq!(determine_log_level("Error: disk full"), "log-error");
    assert_eq!(determine_log_level("build failed"), "log-error");
    assert_eq!(determine_log_level("warning: deprecated"), "log-warn");
    assert_eq!(determine_log_level("Warn and error"), "log-error");
    assert_eq!(determine_log_level("all good"), "log-info");
    assert_eq!(determine_log_level(""), "log-info");
}

#[test]
fn log_level_uses_the_upper_case_form() {
    // would fail if the text were classified without being put in upper case first
    assert_eq!(determine_log_level("error"), "log-error");
    assert_eq!(level_class_of("error"), "log-info");
    assert_eq!(level_class_of("ERROR"), "log-error");
    assert_eq!(level_class_of("FAILED"), "log-error");
    assert_eq!(level_class_of("WARN"), "log-warn");
    assert_eq!(level_class_of("INFO"), "log-info");
}

#[test]
fn rendered_line_holds_timestamp_message_and_level() {
    assert_eq!(
        render_log_line("2024-05-01T10:00:00.5Z connection failed"),
        LogLine {
            timestamp: "2024-05-01T10:00:00".to_string(),
            message: "connection failed".to_string(),
            level_class: "log-error",
        }
    );
}

#[test]
fn logs_are_rendered_line_by_line() {
    let lines = render_logs("1Z ok\r\nwarn: x\n\n");
    assert_eq!(lines.len(), 3);
    assert_eq!(lines[0], LogLine { timestamp: "1Z".to_string(), message: "ok".to_string(), level_class: "log-info" });
    assert_eq!(lines[1].level_class, "log-warn");
    assert_eq!(lines[2].message, "");
    assert!(render_logs("").is_empty());
}

#[test]
fn logs_section_has_four_states() {
    assert_eq!(logs_view(&None, &None), LogsView::Placeholder);
    assert_eq!(logs_view(&Some("boom".to_string()), &Some("x".to_string())), LogsView::Failed("boom".to_string()));
    assert_eq!(logs_view(&None, &Some(String::new())), LogsView::Empty);
    match logs_view(&None, &Some("a\nb".to_string())) {
        LogsView::Lines(lines) => assert_eq!(lines.len(), 2),
        other => panic!("unexpected {other:?}"),
    }
}

// --- messages ---

#[test]
fn placeholder_for_an_unknown_key_is_recognised() {
    assert!(is_translation_missing("Key 'errors.X' not found for language 'en'"));
    assert!(!is_translation_missing("Running"));
    assert!(!is_translation_missing("Key 'errors.X' was found"));
    assert!(!is_translation_missing("The Key 'x' not found for language 'en'"));
    assert!(!is_translation_missing(""));
}

#[test]
fn known_translation_drops_the_placeholder() {
    assert_eq!(known_translation("Running".to_string()), Some("Running".to_string()));
    assert_eq!(known_translation("Key 'a' not found for language 'fr'".to_string()), None);
}

#[test]
fn catalog_placeholder_has_the_recognised_shape() {
    let i18n = catalog();
    assert!(is_translation_missing(&i18n.t("errors.NO_SUCH_CODE")));
    assert!(!is_translation_missing(&i18n.t("errors.DEFAULT")));
}

#[test]
fn catalog_readiness_follows_its_configuration() {
    assert!(can_translate(&catalog()));
    assert!(!can_translate(&unconfigured_catalog()));
}

#[test]
fn running_status_has_its_class_and_label() {
    let status = Some("running".to_string());
    assert_eq!(status_class(&status), "status-running");
    assert_eq!(status_translation_key("running"), "common.status_running");
    let i18n = catalog();
    assert_eq!(translate_status("running", &i18n), "Running");
    let badge = project_status(&status, &i18n);
    assert_eq!(badge.class, "status-running");
    assert_eq!(badge.text, "Running");
}

#[test]
fn unknown_status_falls_back() {
    let i18n = catalog();
    assert_eq!(translate_status("frozen", &i18n), "Unknown");
    assert_eq!(status_class(&Some("frozen".to_string())), "status-frozen");
}

#[test]
fn absent_status_shows_loading() {
    let badge = project_status(&None, &catalog());
    assert_eq!(badge.class, "status-unknown");
    assert_eq!(badge.text, "Loading...");
}

#[test]
fn error_code_goes_into_the_key_unchanged() {
    assert_eq!(error_translation_key(&api_error("UNAUTHORIZED")), "errors.UNAUTHORIZED");
    assert_eq!(error_translation_key(&api_error("HTTP_ERROR_500")), "errors.HTTP_ERROR_500");
    assert_eq!(error_translation_key(&api_error("")), "errors.");
}

#[test]
fn known_error_code_has_its_message_and_unknown_the_default() {
    let i18n = catalog();
    assert_eq!(translate_error(&api_error("UNAUTHORIZED"), &i18n), "Your session has expired. Please log in again.");
    assert_eq!(translate_error(&api_error("HTTP_ERROR_500"), &i18n), "An internal server error occurred.");
    assert_eq!(
        translate_error(&api_error("HTTP_ERROR_418"), &i18n),
        "An unexpected error occurred. Please contact an administrator."
    );
    assert_eq!(
        translate_error(&api_error("Network error: offline"), &i18n),
        "An unexpected error occurred. Please contact an administrator."
    );
}

#[test]
fn message_that_looks_like_the_placeholder_triggers_the_fallback() {
    let i18n = catalog();
    assert_eq!(
        translate_error(&api_error("ODD"), &i18n),
        "An unexpected error occurred. Please contact an administrator."
    );
}

#[test]
fn value_that_is_no_text_is_shown_as_written() {
    assert_eq!(translate_error(&api_error("COUNT"), &catalog()), "3");
}

#[test]
fn fallback_that_is_unknown_too_shows_the_placeholder() {
    let i18n = catalog();
    assert_eq!(
        translate_or(&i18n, "nothing.here", "nor.here"),
        "Key 'nor.here' not found for language 'en'"
    );
}

#[test]
fn translate_or_asks_for_the_fallback_only_when_needed() {
    let i18n = catalog();
    assert_eq!(translate_or(&i18n, "common.loading", "errors.DEFAULT"), "Loading...");
    assert_eq!(
        translate_or(&i18n, "common.nothing", "errors.DEFAULT"),
        "An unexpected error occurred. Please contact an administrator."
    );
}

#[test]
fn templates_are_filled() {
    assert_eq!(naming_message("Delete '{name}'?", "my-app"), "Delete 'my-app'?");
    assert_eq!(naming_message("{name} and {name}", "x"), "x and x");
    assert_eq!(naming_message("no placeholder", "x"), "no placeholder");
    assert_eq!(failure_message("Could not load project: {error}", "HTTP_ERROR_404"), "Could not load project: HTTP_ERROR_404");
    assert_eq!(created_on_message("Created on: {date}", "2024-05-01T10:00:00Z"), "Created on: 2024-05-01");
    assert_eq!(created_on_date("2024-05-01T10:00:00Z"), "2024-05-01");
    assert_eq!(created_on_date(""), "");
}

#[test]
fn replacing_agrees_with_the_standard_library() {
    let texts = ["", "a", "aa", "aaa", "abab", "{name}", "x{name}y{name}", "{nam{name}e}"];
    let patterns = ["", "a", "aa", "ab", "{name}", "zz"];
    for text in texts {
        for pattern in patterns {
            for with in ["", "-", "aa"] {
                assert_eq!(replace_all(text, pattern, with), text.replace(pattern, with), "{text:?} {pattern:?} {with:?}");
            }
        }
    }
}

// --- access ---

#[test]
fn owner_and_administrator_have_control_access() {
    let p = project("alice", ProjectSourceType::Direct);
    assert!(has_control_access(&Some(user("alice", false)), &p));
    assert!(has_control_access(&Some(user("root", true)), &p));
    assert!(!has_control_access(&Some(user("bob", false)), &p));
    assert!(!has_control_access(&None, &p));
}

#[test]
fn dashboard_shows_failure_before_anything_else() {
    let details = Some(ProjectDetails { project: project("alice", ProjectSourceType::Direct), participants: vec![], database: None });
    let owner = Some(user("alice", false));
    assert_eq!(project_dashboard(&Some("HTTP_ERROR_404".to_string()), &details, &owner), DashboardView::Failed);
    assert_eq!(project_dashboard(&None, &None, &owner), DashboardView::Loading);
    assert_eq!(
        project_dashboard(&None, &details, &owner),
        DashboardView::Loaded { has_control_access: true, can_update_image: true }
    );
    assert_eq!(
        project_dashboard(&None, &details, &Some(user("bob", false))),
        DashboardView::Loaded { has_control_access: false, can_update_image: false }
    );
    let github = Some(ProjectDetails { project: project("alice", ProjectSourceType::Github), participants: vec![], database: None });
    assert_eq!(
        project_dashboard(&None, &github, &owner),
        DashboardView::Loaded { has_control_access: true, can_update_image: false }
    );
}

// --- environment ---

#[test]
fn environment_is_written_one_variable_per_line() {
    assert_eq!(format_env_vars(&None), "");
    assert_eq!(format_env_vars(&Some(vec![])), "");
    assert_eq!(format_env_vars(&Some(vec![var("A", "1")])), "A=1");
    assert_eq!(format_env_vars(&Some(vec![var("A", "1"), var("B", "x=y"), var("C", "")])), "A=1\nB=x=y\nC=");
}

#[test]
fn environment_is_read_from_lines() {
    assert_eq!(parse_env_vars(""), vec![]);
    assert_eq!(parse_env_vars("A=1"), vec![var("A", "1")]);
    assert_eq!(parse_env_vars("  A = 1 \r\nB=x=y\n\nnot a variable\n=novalue\n  =  \nC="), vec![
        var("A", "1"),
        var("B", "x=y"),
        var("C", ""),
    ]);
}

#[test]
fn later_line_replaces_the_value_of_an_earlier_key() {
    assert_eq!(parse_env_vars("A=1\nB=2\nA=3"), vec![var("A", "3"), var("B", "2")]);
}

#[test]
fn environment_agrees_with_collecting_into_a_map() {
    for text in ["", "A=1\nB=2", "A=1\nA=2\nB=\n C = d \n=x\ny", "K==\nK= =\r\n", "\u{a0}X\u{a0}=\u{3000}1"] {
        let expected: HashMap<String, String> = text
            .lines()
            .filter_map(|line| line.trim().split_once('='))
            .map(|(k, v)| (k.trim().to_string(), v.trim().to_string()))
            .filter(|(k, _)| !k.is_empty())
            .collect();
        let parsed = parse_env_vars(text);
        let as_map: HashMap<String, String> = parsed.iter().map(|v| (v.key.clone(), v.value.clone())).collect();
        assert_eq!(parsed.len(), as_map.len(), "{text:?}");
        assert_eq!(as_map, expected, "{text:?}");
    }
}

#[test]
fn written_environment_reads_back() {
    let vars = vec![var("A", "1"), var("PATH", "/bin:/usr/bin"), var("EMPTY", "")];
    assert_eq!(parse_env_vars(&format_env_vars(&Some(vars.clone()))), vars);
}

// --- polling ---

#[test]
fn polling_intervals() {
    assert_eq!(STATUS_POLL_INTERVAL_MS, 5000);
    assert_eq!(METRICS_POLL_INTERVAL_MS, 3000);
    assert_eq!(RELOAD_DELAY_MS, 1500);
}

#[test]
fn unmounted_poller_is_inert() {
    let mut p: Poller<String> = Poller::new(4, 5000);
    assert_eq!(p.interval_ms(), 5000);
    assert_eq!(p.project_id(), 4);
    assert!(!p.is_active());
    let handle = p.handle();
    assert_eq!(p.tick(handle), None);
    assert_eq!(p.refresh(), None);
    assert!(!p.settle::<String>(0, Ok(Some("running".to_string()))));
    p.teardown(handle);
    assert_eq!(p.value(), &None);
    assert!(!p.is_active());
}

#[test]
fn mounting_fetches_at_once_and_ticks_follow() {
    let mut p: Poller<String> = Poller::new(4, 5000);
    let (handle, first) = p.mount(4);
    assert_eq!(first, Some(PollRequest { project_id: 4, seq: 0 }));
    assert_eq!(handle, PollHandle { id: 0 });
    assert_eq!(p.handle(), handle);
    assert!(p.is_active());
    assert_eq!(p.tick(handle), Some(PollRequest { project_id: 4, seq: 1 }));
    assert_eq!(p.tick(handle), Some(PollRequest { project_id: 4, seq: 2 }));
    assert_eq!(p.refresh(), Some(PollRequest { project_id: 4, seq: 3 }));
    assert_eq!(p.tick(handle), Some(PollRequest { project_id: 4, seq: 4 }));
}

#[test]
fn status_reply_replaces_the_shown_status() {
    let mut p: Poller<String> = Poller::new(4, 5000);
    let (handle, first) = p.mount(4);
    let reply = get_project_status(Reply::Accepted(Ok(StatusResponse { status: Some("running".to_string()) })));
    assert!(p.settle(first.unwrap().seq, reply));
    assert_eq!(p.value(), &Some("running".to_string()));
    let second = p.tick(handle).unwrap();
    let reply = get_project_status(Reply::Accepted(Ok(StatusResponse { status: Some("exited".to_string()) })));
    assert!(p.settle(second.seq, reply));
    assert_eq!(p.value(), &Some("exited".to_string()));
    let third = p.tick(handle).unwrap();
    let reply = get_project_status(Reply::Accepted(Ok(StatusResponse { status: None })));
    assert!(p.settle(third.seq, reply));
    assert_eq!(p.value(), &None);
}

#[test]
fn failed_fetch_clears_what_is_shown() {
    let mut p: Poller<u32> = Poller::new(4, 3000);
    let (handle, first) = p.mount(4);
    assert!(p.settle::<String>(first.unwrap().seq, Ok(Some(17))));
    assert_eq!(p.value(), &Some(17));
    let second = p.tick(handle).unwrap();
    assert!(p.settle(second.seq, Err("Network error: offline".to_string())));
    assert_eq!(p.value(), &None);
}

#[test]
fn failed_status_fetch_clears_the_status() {
    let mut p: Poller<String> = Poller::new(4, 5000);
    let (handle, first) = p.mount(4);
    assert!(p.settle::<String>(first.unwrap().seq, Ok(Some("running".to_string()))));
    let second = p.tick(handle).unwrap();
    let failed = get_project_status(Reply::Refused { refusal: Refusal::of(502).unwrap(), error: None });
    assert!(p.settle(second.seq, failed));
    assert_eq!(p.value(), &None);
}

#[test]
fn reply_after_teardown_changes_nothing() {
    let mut p: Poller<String> = Poller::new(4, 5000);
    let (handle, first) = p.mount(4);
    let second = p.tick(handle).unwrap();
    assert!(p.settle::<String>(first.unwrap().seq, Ok(Some("running".to_string()))));
    p.teardown(handle);
    assert!(!p.is_active());
    assert!(!p.settle::<String>(second.seq, Ok(Some("exited".to_string()))));
    assert_eq!(p.value(), &Some("running".to_string()));
}

#[test]
fn tick_after_teardown_sends_nothing() {
    let mut p: Poller<String> = Poller::new(4, 5000);
    let (handle, _) = p.mount(4);
    p.teardown(handle);
    assert_eq!(p.tick(handle), None);
    assert_eq!(p.refresh(), None);
    let (new_handle, first) = p.mount(4);
    assert_eq!(first, Some(PollRequest { project_id: 4, seq: 1 }));
    assert_eq!(p.tick(handle), None);
    assert_eq!(p.tick(new_handle), Some(PollRequest { project_id: 4, seq: 2 }));
}

#[test]
fn handle_of_an_earlier_mount_tears_nothing_down() {
    let mut p: Poller<String> = Poller::new(4, 5000);
    let (old, _) = p.mount(4);
    let (new, _) = p.mount(9);
    p.teardown(old);
    assert!(p.is_active());
    assert_eq!(p.tick(new), Some(PollRequest { project_id: 9, seq: 2 }));
    p.teardown(new);
    assert!(!p.is_active());
}

#[test]
fn reply_from_an_earlier_mount_is_dropped_after_remount() {
    let mut p: Poller<String> = Poller::new(4, 5000);
    let (handle, old) = p.mount(4);
    p.teardown(handle);
    let (_, new) = p.mount(9);
    assert_eq!(new, Some(PollRequest { project_id: 9, seq: 1 }));
    assert_eq!(p.project_id(), 9);
    assert!(!p.settle::<String>(old.unwrap().seq, Ok(Some("stale".to_string()))));
    assert_eq!(p.value(), &None);
    assert!(p.settle::<String>(new.unwrap().seq, Ok(Some("running".to_string()))));
    assert_eq!(p.value(), &Some("running".to_string()));
}

#[test]
fn remount_without_teardown_also_drops_earlier_requests() {
    let mut p: Poller<String> = Poller::new(4, 5000);
    let (handle, old) = p.mount(4);
    assert!(p.settle::<String>(old.unwrap().seq, Ok(Some("running".to_string()))));
    let pending = p.tick(handle).unwrap();
    let (_, new) = p.mount(5);
    assert_eq!(p.value(), &None);
    assert!(!p.settle::<String>(pending.seq, Ok(Some("stale".to_string()))));
    assert_eq!(p.value(), &None);
    assert!(p.settle::<String>(new.unwrap().seq, Ok(Some("fresh".to_string()))));
}

#[test]
fn out_of_order_reply_is_dropped() {
    let mut p: Poller<String> = Poller::new(4, 5000);
    let (handle, first) = p.mount(4);
    let second = p.tick(handle).unwrap();
    assert!(p.settle::<String>(second.seq, Ok(Some("new".to_string()))));
    assert!(!p.settle::<String>(first.unwrap().seq, Ok(Some("old".to_string()))));
    assert_eq!(p.value(), &Some("new".to_string()));
    assert!(!p.settle::<String>(second.seq, Ok(Some("again".to_string()))));
    assert!(!p.settle::<String>(99, Ok(Some("never issued".to_string()))));
    assert_eq!(p.value(), &Some("new".to_string()));
}

// --- controls ---

#[test]
fn confirmation_is_asked_for_disruptive_actions() {
    assert!(ControlAction::Delete.needs_confirmation());
    assert!(ControlAction::UpdateImage.needs_confirmation());
    assert!(ControlAction::RemoveParticipant.needs_confirmation());
    assert!(!ControlAction::Start.needs_confirmation());
    assert!(!ControlAction::Stop.needs_confirmation());
    assert!(!ControlAction::Restart.needs_confirmation());
    assert!(!ControlAction::UpdateEnv.needs_confirmation());
    assert!(!ControlAction::AddParticipant.needs_confirmation());
}

#[test]
fn forms_emptied_on_success() {
    assert!(ControlAction::AddParticipant.clears_input());
    assert!(ControlAction::UpdateImage.clears_input());
    assert!(!ControlAction::UpdateEnv.clears_input());
    assert!(!ControlAction::Start.clears_input());
}

#[test]
fn repeated_clicks_send_one_request() {
    let mut panel = ControlPanel::new();
    let mut sent = 0;
    for _ in 0..25 {
        if panel.submit(ControlAction::Restart, false) == Submission::Send {
            sent += 1;
        }
    }
    assert_eq!(sent, 1);
    assert!(panel.is_busy());
    assert_eq!(panel.in_flight, Some(ControlAction::Restart));
    assert_eq!(panel.submit(ControlAction::Stop, true), Submission::Refused);
    assert_eq!(panel.in_flight, Some(ControlAction::Restart));
}

#[test]
fn cancelled_prompt_leaves_the_panel_untouched() {
    let mut panel = ControlPanel::new();
    assert_eq!(panel.submit(ControlAction::Delete, false), Submission::Cancelled);
    assert_eq!(panel, ControlPanel::new());
    assert_eq!(panel.submit(ControlAction::UpdateImage, false), Submission::Cancelled);
    assert_eq!(panel.submit(ControlAction::Delete, true), Submission::Send);
    assert_eq!(panel.in_flight, Some(ControlAction::Delete));
}

#[test]
fn settlement_frees_the_panel_whatever_the_outcome() {
    let mut panel = ControlPanel::new();
    assert_eq!(panel.submit(ControlAction::Start, false), Submission::Send);
    assert_eq!(panel.settle(Ok(())), FollowUp::RefreshAfter { delay_ms: 1500 });
    assert!(!panel.is_busy());
    assert_eq!(panel.submit(ControlAction::Stop, false), Submission::Send);
    assert_eq!(panel.settle(Err(api_error("HTTP_ERROR_500"))), FollowUp::ShowError(api_error("HTTP_ERROR_500")));
    assert!(!panel.is_busy());
    assert_eq!(panel.settle(Ok(())), FollowUp::Nothing);
}

#[test]
fn each_action_has_its_follow_up() {
    let cases = [
        (ControlAction::Start, FollowUp::RefreshAfter { delay_ms: 1500 }),
        (ControlAction::Stop, FollowUp::RefreshAfter { delay_ms: 1500 }),
        (ControlAction::Restart, FollowUp::RefreshAfter { delay_ms: 1500 }),
        (ControlAction::Delete, FollowUp::LeaveProject),
        (ControlAction::UpdateImage, FollowUp::ReloadPage),
        (ControlAction::UpdateEnv, FollowUp::ReloadDetails),
        (ControlAction::AddParticipant, FollowUp::ReloadDetails),
        (ControlAction::RemoveParticipant, FollowUp::ReloadDetails),
    ];
    for (action, expected) in cases {
        assert_eq!(action.on_success(), expected);
        let mut panel = ControlPanel::new();
        assert_eq!(panel.submit(action, true), Submission::Send);
        assert_eq!(panel.settle(Ok(())), expected);
    }
}

#[test]
fn failure_hands_the_error_on_unchanged() {
    let error = ApiError { error_code: "IMAGE_SCAN_FAILED".to_string(), details: Some("CVE-1".to_string()) };
    let mut panel = ControlPanel::new();
    assert_eq!(panel.submit(ControlAction::UpdateImage, true), Submission::Send);
    assert_eq!(panel.settle(Err(error.clone())), FollowUp::ShowError(error));
}

// --- a whole visit ---

#[test]
fn visit_mounts_both_pollers() {
    let (mut view, mounted) = ProjectView::<u32>::open(7);
    assert_eq!(mounted.status, Some(PollRequest { project_id: 7, seq: 0 }));
    assert_eq!(mounted.metrics, Some(PollRequest { project_id: 7, seq: 0 }));
    assert_eq!(view.status(), &None);
    assert_eq!(view.metrics(), &None);
    assert!(!view.is_controlling());
    assert!(view.status_settled::<String>(0, Ok(Some("running".to_string()))));
    assert_eq!(view.status(), &Some("running".to_string()));
    assert_eq!(view.metrics(), &None);
    assert!(view.metrics_settled::<String>(0, Ok(42)));
    assert_eq!(view.metrics(), &Some(42));
    assert_eq!(view.tick_status(mounted.status_handle), Some(PollRequest { project_id: 7, seq: 1 }));
    assert_eq!(view.tick_metrics(mounted.metrics_handle), Some(PollRequest { project_id: 7, seq: 1 }));
}

#[test]
fn failed_metrics_fetch_shows_unknown() {
    let (mut view, mounted) = ProjectView::<u32>::open(7);
    assert!(view.metrics_settled(mounted.metrics.unwrap().seq, get_project_metrics(Reply::Accepted(Ok(42u32)))));
    assert_eq!(view.metrics(), &Some(42));
    let next = view.tick_metrics(mounted.metrics_handle).unwrap();
    let failed = get_project_metrics::<u32>(Reply::Refused { refusal: Refusal::of(500).unwrap(), error: None });
    assert!(view.metrics_settled(next.seq, failed));
    assert_eq!(view.metrics(), &None);
}

#[test]
fn closed_visit_ignores_late_replies_and_ticks() {
    let (mut view, mounted) = ProjectView::<u32>::open(7);
    let pending = view.tick_status(mounted.status_handle).unwrap();
    assert!(view.status_settled::<String>(mounted.status.unwrap().seq, Ok(Some("running".to_string()))));
    view.close();
    assert!(!view.status_settled::<String>(pending.seq, Ok(Some("exited".to_string()))));
    assert!(!view.metrics_settled::<String>(mounted.metrics.unwrap().seq, Ok(1)));
    assert_eq!(view.status(), &Some("running".to_string()));
    assert_eq!(view.metrics(), &None);
    assert_eq!(view.tick_status(mounted.status_handle), None);
    assert_eq!(view.tick_metrics(mounted.metrics_handle), None);
    assert_eq!(view.refresh_status(), None);
}

#[test]
fn restart_asks_for_a_refresh_and_keeps_polling() {
    let (mut view, mounted) = ProjectView::<u32>::open(7);
    assert_eq!(view.submit(ControlAction::Restart, false), Submission::Send);
    assert!(view.is_controlling());
    assert_eq!(view.submit(ControlAction::Restart, false), Submission::Refused);
    assert_eq!(view.control_settled(Ok(())), FollowUp::RefreshAfter { delay_ms: 1500 });
    assert!(!view.is_controlling());
    assert_eq!(view.refresh_status(), Some(PollRequest { project_id: 7, seq: 1 }));
    assert_eq!(view.tick_status(mounted.status_handle), Some(PollRequest { project_id: 7, seq: 2 }));
}

#[test]
fn deleted_project_is_no_longer_polled() {
    let (mut view, mounted) = ProjectView::<u32>::open(7);
    assert_eq!(view.submit(ControlAction::Delete, true), Submission::Send);
    assert_eq!(view.control_settled(Ok(())), FollowUp::LeaveProject);
    assert_eq!(view.tick_status(mounted.status_handle), None);
    assert_eq!(view.tick_metrics(mounted.metrics_handle), None);
    assert_eq!(view.refresh_status(), None);
    assert!(!view.status_settled::<String>(0, Ok(Some("running".to_string()))));
}

#[test]
fn failed_deletion_keeps_the_visit_alive() {
    let (mut view, mounted) = ProjectView::<u32>::open(7);
    assert_eq!(view.submit(ControlAction::Delete, true), Submission::Send);
    assert_eq!(view.control_settled(Err(api_error("DELETE_FAILED"))), FollowUp::ShowError(api_error("DELETE_FAILED")));
    assert!(!view.is_controlling());
    assert!(view.tick_status(mounted.status_handle).is_some());
}

#[test]
fn turning_to_another_project_drops_what_was_asked_of_the_earlier_one() {
    let (mut view, first) = ProjectView::<u32>::open(7);
    let pending_status = view.tick_status(first.status_handle).unwrap();
    let pending_metrics = view.tick_metrics(first.metrics_handle).unwrap();
    assert!(view.status_settled::<String>(first.status.unwrap().seq, Ok(Some("running".to_string()))));
    assert_eq!(view.submit(ControlAction::Restart, false), Submission::Send);

    let second = view.turn_to(9);
    assert_eq!(second.status, Some(PollRequest { project_id: 9, seq: 2 }));
    assert_eq!(second.metrics, Some(PollRequest { project_id: 9, seq: 2 }));
    assert_eq!(view.status(), &None);
    assert_eq!(view.metrics(), &None);
    assert!(view.is_controlling());

    assert!(!view.status_settled::<String>(pending_status.seq, Ok(Some("exited".to_string()))));
    assert!(!view.status_settled::<String>(0, Ok(Some("exited".to_string()))));
    assert!(!view.metrics_settled::<String>(pending_metrics.seq, Ok(1)));
    assert_eq!(view.status(), &None);
    assert_eq!(view.metrics(), &None);
    assert_eq!(view.tick_status(first.status_handle), None);
    assert_eq!(view.tick_metrics(first.metrics_handle), None);

    assert!(view.status_settled::<String>(second.status.unwrap().seq, Ok(Some("created".to_string()))));
    assert_eq!(view.status(), &Some("created".to_string()));
    assert_eq!(view.tick_status(second.status_handle), Some(PollRequest { project_id: 9, seq: 3 }));
}

#[test]
fn closed_visit_can_be_turned_to_a_project() {
    let (mut view, first) = ProjectView::<u32>::open(7);
    view.close();
    let second = view.turn_to(8);
    assert_eq!(second.status, Some(PollRequest { project_id: 8, seq: 1 }));
    assert!(!view.status_settled::<String>(first.status.unwrap().seq, Ok(Some("stale".to_string()))));
    assert_eq!(view.tick_status(first.status_handle), None);
    assert!(view.tick_status(second.status_handle).is_some());
}
