//! The platform capability: one contract over the four hosting backends.
//!
//! A `Platform` holds the immutable connection data (backend kind, base URL
//! or base path, credential, organization, acting user) and derives from it
//! everything that is pure computation: the push URL for a repository, the
//! backend-native access level for a team permission, and the meaning of an
//! HTTP response status.  The network and filesystem calls themselves are
//! driven through the setup machine's requests.

use vstd::prelude::*;
use crate::error::{ErrorKind, PlatformError};
use crate::strutil::{has_prefix, has_substring, str_has_prefix, str_has_substring, trim_end_char, trimmed_end};
use crate::types::TeamPermission;

verus! {

/// The supported hosting backends.
#[derive(Clone, Copy, Debug, PartialEq, Eq, Structural)]
pub enum BackendKind {
    GitHub,
    GitLab,
    Gitea,
    /// A plain directory tree used for testing and offline operation.
    Local,
}

/// The abstract value of a `Platform`.
pub struct PlatformView {
    pub kind: BackendKind,
    pub base_url: Seq<char>,
    pub token: Seq<char>,
    pub org: Seq<char>,
    pub user: Seq<char>,
}

/// One configured hosting backend.  Stateless across calls: every operation
/// is keyed on the connection data supplied at construction.
#[derive(Debug)]
pub struct Platform {
    pub kind: BackendKind,
    pub base_url: String,
    pub token: String,
    pub org: String,
    pub user: String,
}

impl View for Platform {
    type V = PlatformView;

    open spec fn view(&self) -> PlatformView {
        PlatformView {
            kind: self.kind,
            base_url: self.base_url@,
            token: self.token@,
            org: self.org@,
            user: self.user@,
        }
    }
}

/// What a REST-backend constructor produces: the base URL is kept without
/// trailing slashes, and an empty base URL is rejected.
pub open spec fn rest_platform_spec(
    kind: BackendKind,
    base_url: Seq<char>,
    token: Seq<char>,
    org: Seq<char>,
    user: Seq<char>,
    r: Result<Platform, PlatformError>,
) -> bool {
    match r {
        Ok(p) => trimmed_end(base_url, '/').len() > 0 && p@ == (PlatformView {
            kind,
            base_url: trimmed_end(base_url, '/'),
            token,
            org,
            user,
        }),
        Err(e) => trimmed_end(base_url, '/').len() == 0 && e.kind_spec()
            == ErrorKind::InvalidInput,
    }
}

fn new_rest(kind: BackendKind, base_url: String, token: String, org: String, user: String) -> (r:
    Result<Platform, PlatformError>)
    ensures
        rest_platform_spec(kind, base_url@, token@, org@, user@, r),
{
    let base = trim_end_char(base_url.as_str(), '/');
    if base.unicode_len() == 0 {
        Err(PlatformError::InvalidInputError(String::from_str("base URL must not be empty")))
    } else {
        Ok(Platform { kind, base_url: base, token, org, user })
    }
}

impl Platform {
    /// Configures a GitHub backend.
    pub fn github(base_url: String, token: String, org: String, user: String) -> (r: Result<
        Platform,
        PlatformError,
    >)
        ensures
            rest_platform_spec(BackendKind::GitHub, base_url@, token@, org@, user@, r),
    {
        new_rest(BackendKind::GitHub, base_url, token, org, user)
    }

    /// Configures a GitLab backend.
    pub fn gitlab(base_url: String, token: String, org: String, user: String) -> (r: Result<
        Platform,
        PlatformError,
    >)
        ensures
            rest_platform_spec(BackendKind::GitLab, base_url@, token@, org@, user@, r),
    {
        new_rest(BackendKind::GitLab, base_url, token, org, user)
    }

    /// Configures a Gitea backend.
    pub fn gitea(base_url: String, token: String, org: String, user: String) -> (r: Result<
        Platform,
        PlatformError,
    >)
        ensures
            rest_platform_spec(BackendKind::Gitea, base_url@, token@, org@, user@, r),
    {
        new_rest(BackendKind::Gitea, base_url, token, org, user)
    }

    /// Configures a local-filesystem backend rooted at `base_path`.
    /// No credential is used.
    pub fn local(base_path: String, org: String, user: String) -> (r: Result<
        Platform,
        PlatformError,
    >)
        ensures
            rest_platform_spec(
                BackendKind::Local,
                base_path@,
                Seq::<char>::empty(),
                org@,
                user@,
                r,
            ),
    {
        proof {
            reveal_strlit("");
            assert(""@ =~= Seq::<char>::empty());
        }
        new_rest(BackendKind::Local, base_path, String::from_str(""), org, user)
    }

    /// The organization or namespace this platform provisions into.
    pub fn org_name(&self) -> (r: &String)
        ensures
            r@ == self@.org,
    {
        &self.org
    }

    /// The URL (or local path) that a populated working copy is pushed to
    /// for the repository `repo_name`.
    pub fn remote_url_for_push(&self, repo_name: &str, credential: Option<&str>) -> (r: String)
        ensures
            r@ == push_url_spec(
                self@,
                repo_name@,
                match credential {
                    Some(c) => Some(c@),
                    None => None,
                },
            ),
    {
        proof {
            reveal_strlit("/");
            reveal_strlit(".git");
            reveal_strlit("https://");
            reveal_strlit(":");
            reveal_strlit("@");
            assert("/"@ =~= seq!['/']);
            assert(":"@ =~= seq![':']);
            assert("@"@ =~= seq!['@']);
        }
        match self.kind {
            BackendKind::Local => {
                let mut url = self.base_url.clone();
                url.append("/");
                url.append(self.org.as_str());
                url.append("/");
                url.append(repo_name);
                url
            },
            _ => {
                let mut prefix = String::new();
                let mut rest: String = self.base_url.clone();
                if let Some(cred) = credential {
                    if str_has_prefix(self.base_url.as_str(), "https://") {
                        let len = self.base_url.unicode_len();
                        prefix = String::from_str("https://");
                        prefix.append(self.user.as_str());
                        prefix.append(":");
                        prefix.append(cred);
                        prefix.append("@");
                        rest = self.base_url.as_str().substring_char(8, len).to_owned();
                        proof {
                            assert("https://"@.len() == 8);
                            assert(self.base_url@.subrange(8, self.base_url@.len() as int)
                                =~= self.base_url@.skip(8));
                        }
                    }
                }
                let mut url = prefix;
                url.append(rest.as_str());
                url.append("/");
                url.append(self.org.as_str());
                url.append("/");
                url.append(repo_name);
                url.append(".git");
                url
            },
        }
    }
}

/// The push URL derived from the platform's connection data.  For a REST
/// backend over `https://` with a credential, the acting user and the
/// credential are embedded in the authority part.
pub open spec fn push_url_spec(p: PlatformView, repo: Seq<char>, credential: Option<Seq<char>>) -> Seq<char> {
    if p.kind == BackendKind::Local {
        p.base_url + seq!['/'] + p.org + seq!['/'] + repo
    } else {
        let base = if credential is Some && has_prefix(p.base_url, "https://"@) {
            "https://"@ + p.user + seq![':'] + credential.unwrap() + seq!['@'] + p.base_url.skip(8)
        } else {
            p.base_url
        };
        base + seq!['/'] + p.org + seq!['/'] + repo + ".git"@
    }
}

/// The GitHub collaborator role for a team permission.
pub open spec fn github_role_spec(p: TeamPermission) -> Seq<char> {
    match p {
        TeamPermission::Pull => "pull"@,
        TeamPermission::Push => "push"@,
        TeamPermission::Admin => "admin"@,
    }
}

/// The GitHub collaborator role name for a team permission.
pub fn github_role(p: TeamPermission) -> (r: &'static str)
    ensures
        r@ == github_role_spec(p),
{
    match p {
        TeamPermission::Pull => "pull",
        TeamPermission::Push => "push",
        TeamPermission::Admin => "admin",
    }
}

/// The GitLab access level for a team permission: reporter, developer or
/// maintainer.
pub open spec fn gitlab_access_level_spec(p: TeamPermission) -> u64 {
    match p {
        TeamPermission::Pull => 20u64,
        TeamPermission::Push => 30u64,
        TeamPermission::Admin => 40u64,
    }
}

/// The GitLab numeric access level for a team permission.
pub fn gitlab_access_level(p: TeamPermission) -> (r: u64)
    ensures
        r == gitlab_access_level_spec(p),
{
    match p {
        TeamPermission::Pull => 20,
        TeamPermission::Push => 30,
        TeamPermission::Admin => 40,
    }
}

/// The Gitea team permission name for a team permission.
pub open spec fn gitea_permission_spec(p: TeamPermission) -> Seq<char> {
    match p {
        TeamPermission::Pull => "read"@,
        TeamPermission::Push => "write"@,
        TeamPermission::Admin => "admin"@,
    }
}

/// The Gitea team permission name for a team permission.
pub fn gitea_permission(p: TeamPermission) -> (r: &'static str)
    ensures
        r@ == gitea_permission_spec(p),
{
    match p {
        TeamPermission::Pull => "read",
        TeamPermission::Push => "write",
        TeamPermission::Admin => "admin",
    }
}

/// Which backend a base URL selects: a filesystem path or a URL naming
/// `local` means the local backend; otherwise the URL must name its hosting
/// product.
pub open spec fn detect_backend_spec(base_url: Seq<char>) -> Option<BackendKind> {
    if has_prefix(base_url, "/"@) || has_substring(base_url, "local"@) {
        Some(BackendKind::Local)
    } else if has_substring(base_url, "github"@) {
        Some(BackendKind::GitHub)
    } else if has_substring(base_url, "gitlab"@) {
        Some(BackendKind::GitLab)
    } else if has_substring(base_url, "gitea"@) {
        Some(BackendKind::Gitea)
    } else {
        None
    }
}

/// Selects the backend that a base URL refers to.
pub fn detect_backend(base_url: &str) -> (r: Option<BackendKind>)
    ensures
        r == detect_backend_spec(base_url@),
{
    if str_has_prefix(base_url, "/") || str_has_substring(base_url, "local") {
        Some(BackendKind::Local)
    } else if str_has_substring(base_url, "github") {
        Some(BackendKind::GitHub)
    } else if str_has_substring(base_url, "gitlab") {
        Some(BackendKind::GitLab)
    } else if str_has_substring(base_url, "gitea") {
        Some(BackendKind::Gitea)
    } else {
        None
    }
}

/// The location one assignment's template is cloned from: under the
/// template group when one is set (kept as-is when it is an absolute path),
/// otherwise under the student repositories' group.
pub open spec fn template_location_spec(
    base_url: Seq<char>,
    template_group: Seq<char>,
    student_group: Seq<char>,
    assignment: Seq<char>,
) -> Seq<char> {
    if template_group.len() == 0 {
        base_url + seq!['/'] + student_group + seq!['/'] + assignment
    } else if template_group[0] == '/' {
        template_group + seq!['/'] + assignment
    } else {
        base_url + seq!['/'] + template_group + seq!['/'] + assignment
    }
}

/// Builds the location one assignment's template is cloned from.
pub fn template_location(
    base_url: &String,
    template_group: &String,
    student_group: &String,
    assignment: &String,
) -> (r: String)
    ensures
        r@ == template_location_spec(base_url@, template_group@, student_group@, assignment@),
{
    proof {
        reveal_strlit("/");
        assert("/"@ =~= seq!['/']);
    }
    let tg_len = template_group.as_str().unicode_len();
    if tg_len == 0 {
        let mut s = base_url.clone();
        s.append("/");
        s.append(student_group.as_str());
        s.append("/");
        s.append(assignment.as_str());
        s
    } else if template_group.as_str().get_char(0) == '/' {
        let mut s = template_group.clone();
        s.append("/");
        s.append(assignment.as_str());
        s
    } else {
        let mut s = base_url.clone();
        s.append("/");
        s.append(template_group.as_str());
        s.append("/");
        s.append(assignment.as_str());
        s
    }
}

/// The error kind that an HTTP response status maps to: `None` for a
/// success status.
pub open spec fn status_error_kind(status: u16) -> Option<ErrorKind> {
    if 200 <= status < 300 {
        None
    } else if status == 401 {
        Some(ErrorKind::Authentication)
    } else if status == 403 {
        Some(ErrorKind::PermissionDenied)
    } else if status == 404 {
        Some(ErrorKind::NotFound)
    } else if status == 429 {
        Some(ErrorKind::RateLimited)
    } else {
        Some(ErrorKind::Backend)
    }
}

/// Classifies an HTTP response status: success, or the platform error that
/// the status stands for, carrying `message`.
pub fn classify_status(status: u16, message: String) -> (r: Result<(), PlatformError>)
    ensures
        match r {
            Ok(()) => status_error_kind(status) is None,
            Err(e) => status_error_kind(status) == Some(e.kind_spec()) && e.message_spec()
                == message@,
        },
{
    if 200 <= status && status < 300 {
        Ok(())
    } else if status == 401 {
        Err(PlatformError::AuthenticationError(message))
    } else if status == 403 {
        Err(PlatformError::PermissionDenied(message))
    } else if status == 404 {
        Err(PlatformError::NotFoundError(message))
    } else if status == 429 {
        Err(PlatformError::RateLimited(message))
    } else {
        Err(PlatformError::BackendError(message))
    }
}

} // verus!
