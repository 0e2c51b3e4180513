//! Tests of the LMS roster computations: last names, member options,
//! student records, group assignment and request URLs.

use repobee_core::canvas::{
    build_student_info, course_enrollments_url, course_groups_url, course_url, course_users_url,
    courses_url, extract_lastname_from_email, find_group, group_memberships_url, parse_lms_type,
    user_profile_url, CanvasGroup, CanvasGroupMembership, CanvasUser, CanvasUserProfile, LmsKind,
    MemberOption,
};
use repobee_core::error::ErrorKind;

#[test]
fn lastname_is_the_last_dotted_piece_of_the_mailbox() {
    assert_eq!(extract_lastname_from_email("john.doe@uni.nl"), "doe");
    assert_eq!(extract_lastname_from_email("ada@uni.nl"), "ada");
    assert_eq!(extract_lastname_from_email("a.b.c@x"), "c");
    assert_eq!(extract_lastname_from_email(""), "");
}

#[test]
fn member_option_parses_with_a_fallback() {
    assert_eq!(MemberOption::from_str("(email, gitid)"), MemberOption::Both);
    assert_eq!(MemberOption::from_str("email"), MemberOption::Email);
    assert_eq!(MemberOption::from_str("git_id"), MemberOption::GitId);
    assert_eq!(MemberOption::from_str("anything else"), MemberOption::Both);
}

#[test]
fn lms_selector_knows_two_systems() {
    assert_eq!(parse_lms_type("Canvas").unwrap(), LmsKind::Canvas);
    assert_eq!(parse_lms_type("Moodle").unwrap(), LmsKind::Moodle);
    let err = parse_lms_type("Blackboard").expect_err("unsupported");
    assert_eq!(err.kind(), ErrorKind::Backend);
}

#[test]
fn lms_connection_carries_the_parameters() {
    let c = repobee_core::canvas::lms_connection_with_params(
        "Canvas",
        "https://canvas.tue.nl".to_string(),
        "tok".to_string(),
    )
    .expect("supported selector");
    assert_eq!(c.kind, LmsKind::Canvas);
    assert_eq!(c.base_url, "https://canvas.tue.nl");
    assert_eq!(c.token, "tok");
    assert!(repobee_core::canvas::lms_connection_with_params(
        "Blackboard",
        String::new(),
        String::new()
    )
    .is_err());
}

#[test]
fn lms_base_url_follows_the_option() {
    let base = "https://canvas.tue.nl".to_string();
    let custom = "https://lms.example".to_string();
    assert_eq!(
        repobee_core::canvas::choose_lms_base_url(LmsKind::Canvas, "TUE", &base, &custom),
        "https://canvas.tue.nl"
    );
    assert_eq!(
        repobee_core::canvas::choose_lms_base_url(LmsKind::Canvas, "Custom", &base, &custom),
        "https://lms.example"
    );
    assert_eq!(
        repobee_core::canvas::choose_lms_base_url(LmsKind::Moodle, "TUE", &base, &custom),
        "https://lms.example"
    );
}

fn group(id: u64, name: &str) -> CanvasGroup {
    CanvasGroup {
        id,
        name: name.to_string(),
        members_count: None,
        max_membership: None,
    }
}

fn membership(user_id: u64, group_id: u64) -> CanvasGroupMembership {
    CanvasGroupMembership {
        id: user_id * 100 + group_id,
        user_id,
        group_id,
    }
}

#[test]
fn group_lookup_takes_the_last_listing() {
    let groups = vec![group(1, "g1"), group(2, "g2")];
    let memberships = vec![
        vec![membership(7, 1), membership(8, 1)],
        vec![membership(7, 2)],
    ];
    let g7 = find_group(&groups, &memberships, 7).expect("user 7 is grouped");
    assert_eq!(g7.name, "g2", "the group fetched last wins");
    let g8 = find_group(&groups, &memberships, 8).expect("user 8 is grouped");
    assert_eq!(g8.name, "g1");
    assert!(find_group(&groups, &memberships, 9).is_none());
}

#[test]
fn student_records_fall_back_through_identifiers() {
    let users = vec![
        CanvasUser {
            id: 7,
            name: "John Doe".to_string(),
            short_name: None,
            login_id: None,
            sis_user_id: None,
        },
        CanvasUser {
            id: 8,
            name: "Ada Lovelace".to_string(),
            short_name: None,
            login_id: None,
            sis_user_id: None,
        },
    ];
    let profiles = vec![
        CanvasUserProfile {
            id: 7,
            name: "John Doe".to_string(),
            short_name: Some("John".to_string()),
            primary_email: Some("john.doe@uni.nl".to_string()),
            login_id: Some("jdoe".to_string()),
            sis_user_id: Some("git-jdoe".to_string()),
        },
        CanvasUserProfile {
            id: 8,
            name: "Ada Lovelace".to_string(),
            short_name: None,
            primary_email: None,
            login_id: Some("ada".to_string()),
            sis_user_id: None,
        },
    ];
    let groups = vec![group(1, "g1")];
    let memberships = vec![vec![membership(7, 1)]];
    let infos = build_student_info(&users, &profiles, &groups, &memberships);
    assert_eq!(infos.len(), 2);

    assert_eq!(infos[0].full_name, "John");
    assert_eq!(infos[0].name, "doe");
    assert_eq!(infos[0].email, "john.doe@uni.nl");
    assert_eq!(infos[0].canvas_id, "jdoe");
    assert_eq!(infos[0].git_id, "git-jdoe", "the SIS identifier wins");
    assert_eq!(infos[0].group.as_ref().map(|g| g.name.as_str()), Some("g1"));

    assert_eq!(infos[1].full_name, "Ada Lovelace");
    assert_eq!(infos[1].email, "");
    assert_eq!(infos[1].name, "");
    assert_eq!(infos[1].git_id, "ada", "falls back to the login identifier");
    assert!(infos[1].group.is_none());
}

#[test]
fn request_urls_follow_the_api_layout() {
    let base = "https://canvas.tue.nl".to_string();
    assert_eq!(courses_url(&base), "https://canvas.tue.nl/api/v1/courses");
    assert_eq!(
        course_url(&base, 42),
        "https://canvas.tue.nl/api/v1/courses/42"
    );
    assert_eq!(
        course_users_url(&base, 42),
        "https://canvas.tue.nl/api/v1/courses/42/users"
    );
    assert_eq!(
        user_profile_url(&base, 1007),
        "https://canvas.tue.nl/api/v1/users/1007/profile"
    );
    assert_eq!(
        course_groups_url(&base, 42),
        "https://canvas.tue.nl/api/v1/courses/42/groups"
    );
    assert_eq!(
        group_memberships_url(&base, 5),
        "https://canvas.tue.nl/api/v1/groups/5/memberships"
    );
    assert_eq!(
        course_enrollments_url(&base, 42),
        "https://canvas.tue.nl/api/v1/courses/42/enrollments"
    );
}

#[test]
fn decimal_rendering_is_exact() {
    assert_eq!(repobee_core::strutil::u64_to_string(0), "0");
    assert_eq!(repobee_core::strutil::u64_to_string(7), "7");
    assert_eq!(repobee_core::strutil::u64_to_string(1024), "1024");
    assert_eq!(
        repobee_core::strutil::u64_to_string(u64::MAX),
        "18446744073709551615"
    );
}

#[test]
fn sorting_and_joining_are_exact() {
    let v = vec!["pear".to_string(), "apple".to_string(), "pear".to_string()];
    let sorted = repobee_core::strutil::sort_strings(&v);
    assert_eq!(
        sorted,
        vec!["apple".to_string(), "pear".to_string(), "pear".to_string()]
    );
    assert_eq!(
        repobee_core::strutil::join_strings(&sorted, ", "),
        "apple, pear, pear"
    );
    assert_eq!(repobee_core::strutil::trim_spaces("  a b \t"), "a b");
    assert_eq!(repobee_core::strutil::trim_end_char("x///", '/'), "x");
    assert_eq!(repobee_core::strutil::after_last_char("a/b/c", '/'), "c");
    assert!(repobee_core::strutil::str_has_substring("github.com", "hub"));
    assert!(!repobee_core::strutil::str_has_substring("github.com", "lab"));
}
