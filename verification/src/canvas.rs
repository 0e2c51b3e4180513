//! The learning-management-system data model and the roster computations.
//!
//! Fetching course data is the caller's work; this module holds the value
//! types the fetches produce, the request URLs for a Canvas-style REST API,
//! and the verified mapping from fetched users, profiles and groups to
//! per-student records.

use vstd::prelude::*;
use crate::error::{ErrorKind, PlatformError};
use crate::strutil::{dec_str, split_at_char, split_string, str_eq, u64_to_string, views};

verus! {

/// A course participant as the LMS lists it.
#[derive(Debug)]
pub struct CanvasUser {
    pub id: u64,
    pub name: String,
    pub short_name: Option<String>,
    pub login_id: Option<String>,
    pub sis_user_id: Option<String>,
}

/// A participant's detailed profile.
#[derive(Debug)]
pub struct CanvasUserProfile {
    pub id: u64,
    pub name: String,
    pub short_name: Option<String>,
    pub primary_email: Option<String>,
    pub login_id: Option<String>,
    pub sis_user_id: Option<String>,
}

/// A course as the LMS lists it.
#[derive(Debug)]
pub struct CanvasCourse {
    pub id: u64,
    pub name: String,
    pub course_code: Option<String>,
}

/// A student group within a course.
#[derive(Debug)]
pub struct CanvasGroup {
    pub id: u64,
    pub name: String,
    pub members_count: Option<u32>,
    pub max_membership: Option<u32>,
}

/// One user's membership in one group.
#[derive(Debug)]
pub struct CanvasGroupMembership {
    pub id: u64,
    pub user_id: u64,
    pub group_id: u64,
}

/// One user's enrollment in a course.
#[derive(Debug)]
pub struct CanvasEnrollment {
    pub id: u64,
    pub user_id: u64,
    pub course_id: u64,
    pub enrollment_type: String,
    pub role: String,
}

/// One student's collected record: group, names and identifiers.
#[derive(Debug)]
pub struct StudentInfo {
    pub group: Option<CanvasGroup>,
    pub full_name: String,
    /// The last name, derived from the email address.
    pub name: String,
    /// The LMS login identifier.
    pub canvas_id: String,
    /// The git-hosting identifier.
    pub git_id: String,
    pub email: String,
}

/// Which member identifiers a generated roster lists for each student.
#[derive(Debug, PartialEq)]
pub enum MemberOption {
    /// Both the email address and the git identifier.
    Both,
    /// The email address only.
    Email,
    /// The git identifier only.
    GitId,
}

/// How roster files are generated from student records.
#[derive(Debug)]
pub struct YamlConfig {
    pub member_option: MemberOption,
    pub include_group: bool,
    pub include_member: bool,
    pub include_initials: bool,
    pub full_groups: bool,
}

/// The member option a configuration string selects; anything unrecognized
/// falls back to listing both identifiers.
pub open spec fn member_option_spec(s: Seq<char>) -> MemberOption {
    if s == "(email, gitid)"@ {
        MemberOption::Both
    } else if s == "email"@ {
        MemberOption::Email
    } else if s == "git_id"@ {
        MemberOption::GitId
    } else {
        MemberOption::Both
    }
}

impl MemberOption {
    /// Parses the configuration string for the member option.
    pub fn from_str(s: &str) -> (r: MemberOption)
        ensures
            r == member_option_spec(s@),
    {
        if str_eq(s, "(email, gitid)") {
            MemberOption::Both
        } else if str_eq(s, "email") {
            MemberOption::Email
        } else if str_eq(s, "git_id") {
            MemberOption::GitId
        } else {
            MemberOption::Both
        }
    }
}

/// Extracts the last name from an email address: the part of the mailbox
/// name after its last dot (`john.doe` gives `doe`).
pub fn extract_lastname_from_email(email: &str) -> (r: String)
    ensures
        r@ == lastname_of_email(email@),
{
    let at_parts = split_string(email, '@');
    let dot_parts = split_string(at_parts[0].as_str(), '.');
    let idx = dot_parts.len() - 1;
    let r = dot_parts[idx].clone();
    proof {
        assert(at_parts@[0]@ == views(at_parts@)[0]);
        assert(dot_parts@[idx as int]@ == views(dot_parts@)[idx as int]);
    }
    r
}

/// The last name an email address yields: the last dot-separated piece of
/// everything before the first `@`.
pub open spec fn lastname_of_email(email: Seq<char>) -> Seq<char> {
    let local = split_at_char(email, '@')[0];
    let parts = split_at_char(local, '.');
    parts[parts.len() - 1]
}

/// The abstract value of a `CanvasGroup`.
pub struct CanvasGroupView {
    pub id: u64,
    pub name: Seq<char>,
    pub members_count: Option<u32>,
    pub max_membership: Option<u32>,
}

impl View for CanvasGroup {
    type V = CanvasGroupView;

    open spec fn view(&self) -> CanvasGroupView {
        CanvasGroupView {
            id: self.id,
            name: self.name@,
            members_count: self.members_count,
            max_membership: self.max_membership,
        }
    }
}

impl CanvasGroup {
    /// A copy of this group with the same abstract value.
    pub fn duplicate(&self) -> (g: CanvasGroup)
        ensures
            g@ == self@,
    {
        CanvasGroup {
            id: self.id,
            name: self.name.clone(),
            members_count: self.members_count,
            max_membership: self.max_membership,
        }
    }
}

/// The abstract value of a `CanvasUserProfile`.
pub struct CanvasUserProfileView {
    pub id: u64,
    pub name: Seq<char>,
    pub short_name: Option<Seq<char>>,
    pub primary_email: Option<Seq<char>>,
    pub login_id: Option<Seq<char>>,
    pub sis_user_id: Option<Seq<char>>,
}

impl View for CanvasUserProfile {
    type V = CanvasUserProfileView;

    open spec fn view(&self) -> CanvasUserProfileView {
        CanvasUserProfileView {
            id: self.id,
            name: self.name@,
            short_name: opt_view(self.short_name),
            primary_email: opt_view(self.primary_email),
            login_id: opt_view(self.login_id),
            sis_user_id: opt_view(self.sis_user_id),
        }
    }
}

/// The view of an optional string.
pub open spec fn opt_view(o: Option<String>) -> Option<Seq<char>> {
    match o {
        Some(s) => Some(s@),
        None => None,
    }
}

/// An optional string's characters, or nothing.
pub open spec fn or_empty(o: Option<Seq<char>>) -> Seq<char> {
    match o {
        Some(s) => s,
        None => Seq::<char>::empty(),
    }
}

/// The abstract value of a `StudentInfo`.
pub struct StudentInfoView {
    pub group: Option<CanvasGroupView>,
    pub full_name: Seq<char>,
    pub name: Seq<char>,
    pub canvas_id: Seq<char>,
    pub git_id: Seq<char>,
    pub email: Seq<char>,
}

impl View for StudentInfo {
    type V = StudentInfoView;

    open spec fn view(&self) -> StudentInfoView {
        StudentInfoView {
            group: match self.group {
                Some(ref g) => Some(g@),
                None => None,
            },
            full_name: self.full_name@,
            name: self.name@,
            canvas_id: self.canvas_id@,
            git_id: self.git_id@,
            email: self.email@,
        }
    }
}

/// The views of a group list.
pub open spec fn group_views(gs: Seq<CanvasGroup>) -> Seq<CanvasGroupView> {
    gs.map_values(|g: CanvasGroup| g@)
}

/// The views of a per-group membership list.
pub open spec fn membership_views(ms: Seq<Vec<CanvasGroupMembership>>) -> Seq<
    Seq<CanvasGroupMembership>,
> {
    ms.map_values(|v: Vec<CanvasGroupMembership>| v@)
}

/// Whether a membership list names the user.
pub open spec fn lists_user(ms: Seq<CanvasGroupMembership>, uid: u64) -> bool {
    exists|k: int| 0 <= k < ms.len() && (#[trigger] ms[k]).user_id == uid
}

/// The group a user belongs to: the last group whose membership list names
/// the user, matching a map built by inserting group by group.
pub open spec fn group_for(
    groups: Seq<CanvasGroupView>,
    memberships: Seq<Seq<CanvasGroupMembership>>,
    uid: u64,
) -> Option<CanvasGroupView>
    decreases groups.len(),
{
    if groups.len() == 0 || memberships.len() != groups.len() {
        None
    } else if lists_user(memberships.last(), uid) {
        Some(groups.last())
    } else {
        group_for(groups.drop_last(), memberships.drop_last(), uid)
    }
}

fn membership_lists_user(ms: &Vec<CanvasGroupMembership>, uid: u64) -> (r: bool)
    ensures
        r == lists_user(ms@, uid),
{
    let mut k: usize = 0;
    while k < ms.len()
        invariant
            k <= ms@.len(),
            forall|m: int| 0 <= m < k ==> (#[trigger] ms@[m]).user_id != uid,
        decreases ms@.len() - k,
    {
        if ms[k].user_id == uid {
            return true;
        }
        k = k + 1;
    }
    false
}

/// Looks up the group of a user: the last group whose membership list
/// names the user.
pub fn find_group(
    groups: &Vec<CanvasGroup>,
    memberships: &Vec<Vec<CanvasGroupMembership>>,
    uid: u64,
) -> (r: Option<CanvasGroup>)
    requires
        groups@.len() == memberships@.len(),
    ensures
        (match r {
            Some(g) => Some(g@),
            None => None,
        }) == group_for(group_views(groups@), membership_views(memberships@), uid),
{
    let ghost gv = group_views(groups@);
    let ghost mv = membership_views(memberships@);
    let mut k: usize = groups.len();
    proof {
        assert(gv.subrange(0, k as int) =~= gv);
        assert(mv.subrange(0, k as int) =~= mv);
    }
    while k > 0
        invariant
            k <= groups@.len(),
            groups@.len() == memberships@.len(),
            gv == group_views(groups@),
            mv == membership_views(memberships@),
            group_for(gv, mv, uid) == group_for(
                gv.subrange(0, k as int),
                mv.subrange(0, k as int),
                uid,
            ),
        decreases k,
    {
        if membership_lists_user(&memberships[k - 1], uid) {
            let g = groups[k - 1].duplicate();
            proof {
                let gp = gv.subrange(0, k as int);
                let mp = mv.subrange(0, k as int);
                assert(mp.last() == mv[k - 1]);
                assert(mv[k - 1] == memberships@[k - 1]@);
                assert(gp.last() == gv[k - 1]);
                assert(gv[k - 1] == groups@[k - 1]@);
            }
            return Some(g);
        }
        proof {
            let gp = gv.subrange(0, k as int);
            let mp = mv.subrange(0, k as int);
            assert(mp.last() == mv[k - 1] && mv[k - 1] == memberships@[k - 1]@);
            assert(gp.drop_last() =~= gv.subrange(0, k - 1));
            assert(mp.drop_last() =~= mv.subrange(0, k - 1));
        }
        k = k - 1;
    }
    proof {
        assert(gv.subrange(0, 0) =~= Seq::<CanvasGroupView>::empty());
        assert(mv.subrange(0, 0) =~= Seq::<Seq<CanvasGroupMembership>>::empty());
    }
    None
}

/// The record built for one user from their profile and group lookup.
pub open spec fn student_info_spec(
    uid: u64,
    p: CanvasUserProfileView,
    groups: Seq<CanvasGroupView>,
    memberships: Seq<Seq<CanvasGroupMembership>>,
) -> StudentInfoView {
    let email = or_empty(p.primary_email);
    StudentInfoView {
        group: group_for(groups, memberships, uid),
        full_name: match p.short_name {
            Some(s) => s,
            None => p.name,
        },
        name: lastname_of_email(email),
        canvas_id: or_empty(p.login_id),
        git_id: match p.sis_user_id {
            Some(s) => s,
            None => or_empty(p.login_id),
        },
        email,
    }
}

/// Builds the per-student records from fetched users, their profiles (one
/// per user, in the same order) and the course's groups with their
/// membership lists.  The email decides the derived last name; the git
/// identifier falls back from the SIS identifier to the login identifier;
/// a user in several groups is filed under the one fetched last.
pub fn build_student_info(
    users: &Vec<CanvasUser>,
    profiles: &Vec<CanvasUserProfile>,
    groups: &Vec<CanvasGroup>,
    memberships: &Vec<Vec<CanvasGroupMembership>>,
) -> (r: Vec<StudentInfo>)
    requires
        users@.len() == profiles@.len(),
        groups@.len() == memberships@.len(),
    ensures
        r@.len() == users@.len(),
        forall|i: int|
            0 <= i < r@.len() ==> (#[trigger] r@[i])@ == student_info_spec(
                users@[i].id,
                profiles@[i]@,
                group_views(groups@),
                membership_views(memberships@),
            ),
{
    let mut out: Vec<StudentInfo> = Vec::new();
    let mut i: usize = 0;
    while i < users.len()
        invariant
            i <= users@.len(),
            users@.len() == profiles@.len(),
            groups@.len() == memberships@.len(),
            out@.len() == i,
            forall|m: int|
                0 <= m < i ==> (#[trigger] out@[m])@ == student_info_spec(
                    users@[m].id,
                    profiles@[m]@,
                    group_views(groups@),
                    membership_views(memberships@),
                ),
        decreases users@.len() - i,
    {
        let p = &profiles[i];
        let email = match &p.primary_email {
            Some(m) => m.clone(),
            None => String::new(),
        };
        let login = match &p.login_id {
            Some(m) => m.clone(),
            None => String::new(),
        };
        let git_id = match &p.sis_user_id {
            Some(m) => m.clone(),
            None => login.clone(),
        };
        let name = extract_lastname_from_email(email.as_str());
        let full_name = match &p.short_name {
            Some(m) => m.clone(),
            None => p.name.clone(),
        };
        let group = find_group(groups, memberships, users[i].id);
        let info = StudentInfo { group, full_name, name, canvas_id: login, git_id, email };
        out.push(info);
        i = i + 1;
    }
    out
}

/// Which learning-management system is spoken to.
#[derive(Clone, Copy, Debug, PartialEq, Eq, Structural)]
pub enum LmsKind {
    Canvas,
    Moodle,
}

/// The LMS kind a selector string names, if any.
pub open spec fn lms_kind_spec(s: Seq<char>) -> Option<LmsKind> {
    if s == "Canvas"@ {
        Some(LmsKind::Canvas)
    } else if s == "Moodle"@ {
        Some(LmsKind::Moodle)
    } else {
        None
    }
}

/// Parses an LMS selector: only `Canvas` and `Moodle` are supported.
pub fn parse_lms_type(s: &str) -> (r: Result<LmsKind, PlatformError>)
    ensures
        match r {
            Ok(k) => lms_kind_spec(s@) == Some(k),
            Err(e) => lms_kind_spec(s@) is None && e.kind_spec() == ErrorKind::Backend,
        },
{
    if str_eq(s, "Canvas") {
        Ok(LmsKind::Canvas)
    } else if str_eq(s, "Moodle") {
        Ok(LmsKind::Moodle)
    } else {
        Err(
            PlatformError::BackendError(
                String::from_str("unknown LMS type; supported: Canvas, Moodle"),
            ),
        )
    }
}

/// The connection data an LMS client is built from: plain values that the
/// caller turns into an authenticated client.
#[derive(Debug)]
pub struct LmsConnection {
    pub kind: LmsKind,
    pub base_url: String,
    pub token: String,
}

/// Builds the LMS connection data from explicit parameters; the selector
/// must name a supported system.
pub fn lms_connection_with_params(lms_type: &str, base_url: String, access_token: String) -> (r:
    Result<LmsConnection, PlatformError>)
    ensures
        match r {
            Ok(c) => lms_kind_spec(lms_type@) == Some(c.kind) && c.base_url == base_url
                && c.token == access_token,
            Err(e) => lms_kind_spec(lms_type@) is None && e.kind_spec() == ErrorKind::Backend,
        },
{
    match parse_lms_type(lms_type) {
        Ok(kind) => Ok(LmsConnection { kind, base_url, token: access_token }),
        Err(e) => Err(e),
    }
}

/// The LMS base URL the settings select: for Canvas with the known-site
/// option the fixed base URL, otherwise the custom URL.
pub fn choose_lms_base_url(
    kind: LmsKind,
    url_option: &str,
    canvas_base: &String,
    custom: &String,
) -> (r: String)
    ensures
        r@ == (if kind == LmsKind::Canvas && url_option@ == "TUE"@ {
            canvas_base@
        } else {
            custom@
        }),
{
    match kind {
        LmsKind::Canvas => {
            if str_eq(url_option, "TUE") {
                canvas_base.clone()
            } else {
                custom.clone()
            }
        },
        LmsKind::Moodle => custom.clone(),
    }
}

/// The URL listing the authenticated user's courses.
pub fn courses_url(base: &String) -> (r: String)
    ensures
        r@ == base@ + "/api/v1/courses"@,
{
    let mut s = base.clone();
    s.append("/api/v1/courses");
    s
}

/// The URL of one course.
pub fn course_url(base: &String, course_id: u64) -> (r: String)
    ensures
        r@ == base@ + "/api/v1/courses/"@ + dec_str(course_id as nat),
{
    let mut s = base.clone();
    s.append("/api/v1/courses/");
    let id = u64_to_string(course_id);
    s.append(id.as_str());
    s
}

/// The URL listing a course's student users.
pub fn course_users_url(base: &String, course_id: u64) -> (r: String)
    ensures
        r@ == base@ + "/api/v1/courses/"@ + dec_str(course_id as nat) + "/users"@,
{
    let mut s = course_url(base, course_id);
    s.append("/users");
    s
}

/// The URL of one user's profile.
pub fn user_profile_url(base: &String, user_id: u64) -> (r: String)
    ensures
        r@ == base@ + "/api/v1/users/"@ + dec_str(user_id as nat) + "/profile"@,
{
    let mut s = base.clone();
    s.append("/api/v1/users/");
    let id = u64_to_string(user_id);
    s.append(id.as_str());
    s.append("/profile");
    s
}

/// The URL listing a course's groups.
pub fn course_groups_url(base: &String, course_id: u64) -> (r: String)
    ensures
        r@ == base@ + "/api/v1/courses/"@ + dec_str(course_id as nat) + "/groups"@,
{
    let mut s = course_url(base, course_id);
    s.append("/groups");
    s
}

/// The URL listing a group's memberships.
pub fn group_memberships_url(base: &String, group_id: u64) -> (r: String)
    ensures
        r@ == base@ + "/api/v1/groups/"@ + dec_str(group_id as nat) + "/memberships"@,
{
    let mut s = base.clone();
    s.append("/api/v1/groups/");
    let id = u64_to_string(group_id);
    s.append(id.as_str());
    s.append("/memberships");
    s
}

/// The URL listing a course's student enrollments.
pub fn course_enrollments_url(base: &String, course_id: u64) -> (r: String)
    ensures
        r@ == base@ + "/api/v1/courses/"@ + dec_str(course_id as nat) + "/enrollments"@,
{
    let mut s = course_url(base, course_id);
    s.append("/enrollments");
    s
}

} // verus!
