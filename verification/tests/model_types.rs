//! Tests of the team and repository data model: name derivation, team
//! parsing and assignment splitting.

use repobee_core::error::ErrorKind;
use repobee_core::types::{
    parse_team, split_assignments, StudentRepo, StudentTeam, TemplateRepo,
};

#[test]
fn derived_team_name_joins_sorted_members() {
    let team = StudentTeam::new(vec!["alice".to_string(), "bob".to_string()]);
    assert_eq!(team.name, "alice-bob");
}

#[test]
fn derived_team_name_ignores_member_order() {
    let a = StudentTeam::new(vec!["alice".to_string(), "bob".to_string()]);
    let b = StudentTeam::new(vec!["bob".to_string(), "alice".to_string()]);
    assert_eq!(a.name, b.name);
    assert_eq!(b.name, "alice-bob");
}

#[test]
fn parse_team_with_explicit_name() {
    let t = parse_team("team1:alice");
    assert_eq!(t.name, "team1");
    assert_eq!(t.members, vec!["alice".to_string()]);
}

#[test]
fn parse_team_trims_members() {
    let t = parse_team("team2: bob , carol");
    assert_eq!(t.name, "team2");
    assert_eq!(t.members, vec!["bob".to_string(), "carol".to_string()]);
}

#[test]
fn parse_team_without_name_derives_one() {
    let t = parse_team("dan,carol");
    assert_eq!(t.members, vec!["dan".to_string(), "carol".to_string()]);
    assert_eq!(t.name, "carol-dan");
}

#[test]
fn template_name_is_last_path_segment() {
    let t = TemplateRepo::new("https://gitlab.tue.nl/course/templateA".to_string());
    assert_eq!(t.name, "templateA");
    assert_eq!(t.location, "https://gitlab.tue.nl/course/templateA");
    let local = TemplateRepo::new("/srv/templates/templateB/".to_string());
    assert_eq!(local.name, "templateB");
}

#[test]
fn student_repo_name_combines_team_and_template() {
    let team = StudentTeam::with_name("team3".to_string(), vec!["dan".to_string()]);
    let repo = StudentRepo::new(team, &"templateA".to_string());
    assert_eq!(repo.name, "team3-templateA");
    assert_eq!(repo.owning_team.name, "team3");
}

#[test]
fn split_assignments_trims_and_drops_empty_pieces() {
    let v = split_assignments("templateA, templateB,,templateC ").expect("three names");
    assert_eq!(
        v,
        vec![
            "templateA".to_string(),
            "templateB".to_string(),
            "templateC".to_string()
        ]
    );
}

#[test]
fn split_assignments_rejects_an_empty_list() {
    let err = split_assignments(" , ,").expect_err("nothing named");
    assert_eq!(err.kind(), ErrorKind::InvalidInput);
}
