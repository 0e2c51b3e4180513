//! Scenario tests for the setup machine, driven against an in-memory
//! backend.

use repobee_core::error::{ErrorKind, PlatformError};
use repobee_core::setup::{PlatformEvent, PlatformRequest, SetupResult, SetupRun};
use repobee_core::types::{StudentTeam, TemplateRepo};

/// Drives a run to completion against an in-memory backend: `existing`
/// holds the repositories on the backend, `fail_create` the repository
/// names whose creation is refused, `fail_templates` the template names
/// whose clone fails.  Returns how many template fetches were requested.
fn drive(
    run: &mut SetupRun,
    existing: &mut Vec<String>,
    fail_create: &[&str],
    fail_templates: &[&str],
) -> usize {
    let mut acquires = 0;
    while !run.is_finished() {
        let req = run.next_request().expect("an unfinished run asks for something");
        let ev = match req {
            PlatformRequest::VerifySettings => PlatformEvent::VerifyOk,
            PlatformRequest::AcquireTemplate { name, .. } => {
                acquires += 1;
                if fail_templates.contains(&name.as_str()) {
                    PlatformEvent::TemplateFailed(PlatformError::CloneError(
                        "source unreachable".to_string(),
                    ))
                } else {
                    PlatformEvent::TemplateReady
                }
            }
            PlatformRequest::RepoExists { repo_name } => {
                PlatformEvent::ExistsResult(existing.contains(&repo_name))
            }
            PlatformRequest::CreateRepo { repo_name, .. } => {
                if fail_create.contains(&repo_name.as_str()) {
                    PlatformEvent::CreateFailed(PlatformError::BackendError(
                        "creation refused".to_string(),
                    ))
                } else {
                    existing.push(repo_name);
                    PlatformEvent::CreateOk
                }
            }
            PlatformRequest::EnsureTeam { .. } => PlatformEvent::EnsureTeamOk,
            PlatformRequest::PushTemplate { .. } => PlatformEvent::PushOk,
        };
        run.handle_event(ev);
    }
    acquires
}

fn teams3() -> Vec<StudentTeam> {
    vec![
        repobee_core::types::parse_team("team1:alice"),
        repobee_core::types::parse_team("team2:bob,carol"),
        repobee_core::types::parse_team("team3:dan"),
    ]
}

fn templates2() -> Vec<TemplateRepo> {
    vec![
        TemplateRepo::new("/srv/templates/templateA".to_string()),
        TemplateRepo::new("/srv/templates/templateB".to_string()),
    ]
}

fn new_run(teams: &Vec<StudentTeam>, templates: Vec<TemplateRepo>) -> SetupRun {
    SetupRun::new(teams, templates, true).expect("valid input expands")
}

#[test]
fn three_teams_two_templates_created_then_existing() {
    let teams = teams3();
    let mut existing: Vec<String> = Vec::new();

    let mut run = new_run(&teams, templates2());
    drive(&mut run, &mut existing, &[], &[]);
    let result = run.into_result().expect("no abort");
    assert_eq!(result.successful_repos.len(), 6);
    assert_eq!(result.existing_repos.len(), 0);
    assert_eq!(result.errors.len(), 0);
    assert!(result.is_success());
    for name in [
        "team1-templateA",
        "team1-templateB",
        "team2-templateA",
        "team2-templateB",
        "team3-templateA",
        "team3-templateB",
    ] {
        assert!(result.successful_repos.iter().any(|r| r == name));
    }

    // the identical run again: everything already exists, nothing is created
    let mut rerun = new_run(&teams, templates2());
    drive(&mut rerun, &mut existing, &[], &[]);
    let result2 = rerun.into_result().expect("no abort");
    assert_eq!(result2.existing_repos.len(), 6);
    assert_eq!(result2.successful_repos.len(), 0);
    assert_eq!(result2.errors.len(), 0);
    assert_eq!(existing.len(), 6, "no duplicate repositories were created");
}

#[test]
fn credential_failure_aborts_before_any_repository() {
    let teams = teams3();
    let mut run = new_run(&teams, templates2());
    assert!(matches!(
        run.next_request(),
        Some(PlatformRequest::VerifySettings)
    ));
    run.handle_event(PlatformEvent::VerifyFailed(PlatformError::AuthenticationError(
        "bad token".to_string(),
    )));
    assert!(run.is_finished());
    let err = run.into_result().expect_err("an aborted run has no result");
    assert_eq!(err.kind(), ErrorKind::Authentication);
}

#[test]
fn single_create_failure_is_isolated() {
    let teams = teams3();
    let mut existing: Vec<String> = Vec::new();
    let mut run = new_run(&teams, templates2());
    drive(&mut run, &mut existing, &["team2-templateA"], &[]);
    let result = run.into_result().expect("no abort");
    assert_eq!(result.successful_repos.len(), 5);
    assert_eq!(result.existing_repos.len(), 0);
    assert_eq!(result.errors.len(), 1);
    assert_eq!(result.errors[0].repo_name, "team2-templateA");
    assert_eq!(result.errors[0].team_name, "team2");
    assert_eq!(result.errors[0].error.kind(), ErrorKind::Backend);
    assert!(!result.is_success());
    assert!(!result
        .successful_repos
        .iter()
        .any(|r| r == "team2-templateA"));
}

#[test]
fn buckets_partition_all_units() {
    let teams = teams3();
    let mut existing = vec!["team1-templateA".to_string()];
    let mut run = new_run(&teams, templates2());
    drive(&mut run, &mut existing, &["team3-templateB"], &[]);
    let result = run.into_result().expect("no abort");
    assert_eq!(
        result.successful_repos.len() + result.existing_repos.len() + result.errors.len(),
        6
    );
    assert_eq!(result.existing_repos.len(), 1);
    assert_eq!(result.errors.len(), 1);
    assert_eq!(result.successful_repos.len(), 4);
}

#[test]
fn shared_template_is_fetched_once() {
    let teams = teams3();
    let templates = vec![TemplateRepo::new("/srv/templates/templateA".to_string())];
    let mut existing: Vec<String> = Vec::new();
    let mut run = new_run(&teams, templates);
    let acquires = drive(&mut run, &mut existing, &[], &[]);
    assert_eq!(acquires, 1, "one template, many teams: one fetch");
    let result = run.into_result().expect("no abort");
    assert_eq!(result.successful_repos.len(), 3);
}

#[test]
fn failed_template_fails_every_dependent_unit() {
    let teams = teams3();
    let mut existing: Vec<String> = Vec::new();
    let mut run = new_run(&teams, templates2());
    drive(&mut run, &mut existing, &[], &["templateA"]);
    let result = run.into_result().expect("no abort");
    assert_eq!(result.errors.len(), 3);
    assert_eq!(result.successful_repos.len(), 3);
    for e in &result.errors {
        assert_eq!(e.error.kind(), ErrorKind::CloneFailed);
        assert!(e.repo_name.ends_with("templateA"));
    }
}

#[test]
fn cancel_before_dispatch_keeps_nothing_in_flight() {
    let teams = teams3();
    let mut run = new_run(&teams, templates2());
    run.cancel();
    let mut existing: Vec<String> = Vec::new();
    drive(&mut run, &mut existing, &[], &[]);
    let result = run.into_result().expect("no abort");
    assert_eq!(result.successful_repos.len(), 0);
    assert_eq!(result.existing_repos.len(), 0);
    assert_eq!(result.errors.len(), 0);
    assert_eq!(existing.len(), 0, "no unit was dispatched after cancellation");
}

#[test]
fn empty_team_is_rejected_before_any_work() {
    let teams = vec![StudentTeam::with_name("team1".to_string(), Vec::new())];
    let err = SetupRun::new(&teams, templates2(), true).expect_err("empty membership");
    assert_eq!(err.kind(), ErrorKind::InvalidInput);
}

#[test]
fn colliding_repo_names_are_rejected() {
    let teams = vec![
        repobee_core::types::parse_team("team1:alice"),
        repobee_core::types::parse_team("team1:bob"),
    ];
    let err = SetupRun::new(&teams, templates2(), true).expect_err("duplicate names");
    assert_eq!(err.kind(), ErrorKind::InvalidInput);
}

#[test]
fn failure_during_team_update_is_reported_with_its_unit() {
    let teams = vec![repobee_core::types::parse_team("team1:alice")];
    let templates = vec![TemplateRepo::new("/srv/templates/templateA".to_string())];
    let mut run = new_run(&teams, templates);
    while !run.is_finished() {
        let req = run.next_request().unwrap();
        let ev = match req {
            PlatformRequest::VerifySettings => PlatformEvent::VerifyOk,
            PlatformRequest::AcquireTemplate { .. } => PlatformEvent::TemplateReady,
            PlatformRequest::RepoExists { .. } => PlatformEvent::ExistsResult(false),
            PlatformRequest::CreateRepo { .. } => PlatformEvent::CreateOk,
            PlatformRequest::EnsureTeam { .. } => PlatformEvent::EnsureTeamFailed(
                PlatformError::PermissionDenied("acting user lacks rights".to_string()),
            ),
            PlatformRequest::PushTemplate { .. } => PlatformEvent::PushOk,
        };
        run.handle_event(ev);
    }
    let result: SetupResult = run.into_result().expect("no abort");
    assert_eq!(result.errors.len(), 1);
    assert_eq!(result.errors[0].error.kind(), ErrorKind::PermissionDenied);
}

#[test]
fn push_failure_is_reported_with_its_unit() {
    let teams = vec![repobee_core::types::parse_team("team1:alice")];
    let templates = vec![TemplateRepo::new("/srv/templates/templateA".to_string())];
    let mut run = new_run(&teams, templates);
    while !run.is_finished() {
        let req = run.next_request().unwrap();
        let ev = match req {
            PlatformRequest::VerifySettings => PlatformEvent::VerifyOk,
            PlatformRequest::AcquireTemplate { .. } => PlatformEvent::TemplateReady,
            PlatformRequest::RepoExists { .. } => PlatformEvent::ExistsResult(false),
            PlatformRequest::CreateRepo { .. } => PlatformEvent::CreateOk,
            PlatformRequest::EnsureTeam { .. } => PlatformEvent::EnsureTeamOk,
            PlatformRequest::PushTemplate { .. } => {
                PlatformEvent::PushFailed(PlatformError::PushError("remote hung up".to_string()))
            }
        };
        run.handle_event(ev);
    }
    let result = run.into_result().expect("no abort");
    assert_eq!(result.errors.len(), 1);
    assert_eq!(result.errors[0].error.kind(), ErrorKind::PushFailed);
    assert!(!result.is_success());
}

#[test]
fn requested_team_update_carries_members_and_push_permission() {
    let teams = vec![repobee_core::types::parse_team("team2:bob,carol")];
    let templates = vec![TemplateRepo::new("/srv/templates/templateA".to_string())];
    let mut run = new_run(&teams, templates);
    run.handle_event(PlatformEvent::VerifyOk);
    run.handle_event(PlatformEvent::TemplateReady);
    run.handle_event(PlatformEvent::ExistsResult(false));
    match run.next_request().unwrap() {
        PlatformRequest::CreateRepo { repo_name, private } => {
            assert_eq!(repo_name, "team2-templateA");
            assert!(private);
        }
        other => panic!("expected a create request, got {:?}", other),
    }
    run.handle_event(PlatformEvent::CreateOk);
    match run.next_request().unwrap() {
        PlatformRequest::EnsureTeam {
            team_name,
            members,
            permission,
        } => {
            assert_eq!(team_name, "team2");
            assert_eq!(members, vec!["bob".to_string(), "carol".to_string()]);
            assert_eq!(permission, repobee_core::types::TeamPermission::Push);
        }
        other => panic!("expected a team request, got {:?}", other),
    }
}
