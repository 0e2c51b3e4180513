//! The team and repository data model.
//!
//! A `StudentTeam` names the students who share one repository per
//! assignment; a `TemplateRepo` is the seed content for one assignment; a
//! `StudentRepo` is the derived (team, template) repository.  All names are
//! pinned by specification functions, so that re-runs with the same input
//! derive the same names.

use vstd::prelude::*;
use crate::error::PlatformError;
use crate::strutil::{
    after_last, chars_le_fn, join_strings, join_with, lemma_chars_le_total_ordering, sort_strings,
    split_string, trim_spaces, trimmed, trimmed_end, views,
};
use vstd::seq_lib::lemma_sorted_unique;

verus! {

/// The access level granted to a team on its repository.
#[derive(Clone, Copy, Debug, PartialEq, Eq, Structural)]
pub enum TeamPermission {
    /// Read-only access.
    Pull,
    /// Read and write access; the default for student teams.
    Push,
    /// Full administrative access.
    Admin,
}

/// The abstract value of a `StudentTeam`.
pub struct TeamView {
    pub name: Seq<char>,
    pub members: Seq<Seq<char>>,
}

/// A student team: a name and the git-hosting identifiers of its members.
#[derive(Debug)]
pub struct StudentTeam {
    pub name: String,
    pub members: Vec<String>,
}

impl View for StudentTeam {
    type V = TeamView;

    open spec fn view(&self) -> TeamView {
        TeamView { name: self.name@, members: views(self.members@) }
    }
}

/// The team name derived from a member list: the members sorted
/// lexicographically and joined with `-`.
pub open spec fn derived_team_name(members: Seq<Seq<char>>) -> Seq<char> {
    join_with(members.sort_by(chars_le_fn()), seq!['-'])
}

/// The derived team name depends only on which member names occur, not on
/// the order they were given in: rosters that list the same members always
/// derive the same team name.
pub proof fn lemma_derived_name_deterministic(a: Seq<Seq<char>>, b: Seq<Seq<char>>)
    requires
        a.to_multiset() == b.to_multiset(),
    ensures
        derived_team_name(a) == derived_team_name(b),
{
    lemma_chars_le_total_ordering();
    a.lemma_sort_by_ensures(chars_le_fn());
    b.lemma_sort_by_ensures(chars_le_fn());
    lemma_sorted_unique(a.sort_by(chars_le_fn()), b.sort_by(chars_le_fn()), chars_le_fn());
}

impl StudentTeam {
    /// Builds a team with an auto-derived name.
    pub fn new(members: Vec<String>) -> (t: StudentTeam)
        ensures
            t@.members == views(members@),
            t@.name == derived_team_name(views(members@)),
    {
        let sorted = sort_strings(&members);
        let name = join_strings(&sorted, "-");
        proof {
            reveal_strlit("-");
            assert("-"@ =~= seq!['-']);
        }
        StudentTeam { name, members }
    }

    /// Builds a team with an explicitly supplied name.
    pub fn with_name(name: String, members: Vec<String>) -> (t: StudentTeam)
        ensures
            t@.name == name@,
            t@.members == views(members@),
    {
        StudentTeam { name, members }
    }

    /// A copy of this team with the same abstract value.
    pub fn duplicate(&self) -> (t: StudentTeam)
        ensures
            t@ == self@,
    {
        StudentTeam { name: self.name.clone(), members: clone_strings(&self.members) }
    }
}

/// A copy of a string vector with the same abstract value.
pub fn clone_strings(v: &Vec<String>) -> (r: Vec<String>)
    ensures
        views(r@) == views(v@),
        r@.len() == v@.len(),
{
    let mut out: Vec<String> = Vec::new();
    let mut i: usize = 0;
    while i < v.len()
        invariant
            i <= v@.len(),
            out@.len() == i,
            forall|k: int| 0 <= k < i ==> #[trigger] out@[k]@ == v@[k]@,
        decreases v@.len() - i,
    {
        out.push(v[i].clone());
        i = i + 1;
    }
    proof {
        assert(views(out@) =~= views(v@)) by {
            assert forall|k: int| 0 <= k < out@.len() implies views(out@)[k] == views(v@)[k] by {}
        }
    }
    out
}

/// The abstract value of a `TemplateRepo`.
pub struct TemplateView {
    pub location: Seq<char>,
    pub name: Seq<char>,
}

/// A template repository: where its content lives, and the name derived
/// from the final path segment of that location.
#[derive(Debug)]
pub struct TemplateRepo {
    pub location: String,
    pub name: String,
}

impl View for TemplateRepo {
    type V = TemplateView;

    open spec fn view(&self) -> TemplateView {
        TemplateView { location: self.location@, name: self.name@ }
    }
}

/// The template name derived from a location: its final path segment,
/// ignoring trailing slashes.
pub open spec fn template_name_of(location: Seq<char>) -> Seq<char> {
    after_last(trimmed_end(location, '/'), '/')
}

impl TemplateRepo {
    /// Builds a template reference from a URL or local path.
    pub fn new(location: String) -> (t: TemplateRepo)
        ensures
            t@.location == location@,
            t@.name == template_name_of(location@),
    {
        let name = crate::strutil::after_last_char(
            crate::strutil::trim_end_char(location.as_str(), '/').as_str(),
            '/',
        );
        TemplateRepo { location, name }
    }

    /// A copy of this template reference with the same abstract value.
    pub fn duplicate(&self) -> (t: TemplateRepo)
        ensures
            t@ == self@,
    {
        TemplateRepo { location: self.location.clone(), name: self.name.clone() }
    }
}

/// The abstract value of a `StudentRepo`.
pub struct StudentRepoView {
    pub name: Seq<char>,
    pub team: TeamView,
}

/// One derived per-team, per-assignment repository.
#[derive(Debug)]
pub struct StudentRepo {
    pub name: String,
    pub owning_team: StudentTeam,
}

impl View for StudentRepo {
    type V = StudentRepoView;

    open spec fn view(&self) -> StudentRepoView {
        StudentRepoView { name: self.name@, team: self.owning_team@ }
    }
}

/// The repository name derived for a (team, template) pair.
pub open spec fn repo_name_of(team_name: Seq<char>, template_name: Seq<char>) -> Seq<char> {
    team_name + seq!['-'] + template_name
}

impl StudentRepo {
    /// Derives the repository for one (team, template) pair.
    pub fn new(team: StudentTeam, template_name: &String) -> (r: StudentRepo)
        ensures
            r@.name == repo_name_of(team@.name, template_name@),
            r@.team == team@,
    {
        let mut name = team.name.clone();
        name.append("-");
        name.append(template_name.as_str());
        proof {
            reveal_strlit("-");
            assert("-"@ =~= seq!['-']);
        }
        StudentRepo { name, owning_team: team }
    }

    /// A copy of this repository record with the same abstract value.
    pub fn duplicate(&self) -> (r: StudentRepo)
        ensures
            r@ == self@,
    {
        StudentRepo { name: self.name.clone(), owning_team: self.owning_team.duplicate() }
    }
}

/// Parses one team argument of the form `name:member1,member2` or
/// `member1,member2`; without an explicit name the team name is derived
/// from the members.  Members are split at commas and trimmed.
pub fn parse_team(team_str: &str) -> (t: StudentTeam)
    ensures
        t@ == parse_team_spec(team_str@),
{
    let len: usize = team_str.unicode_len();
    let mut colon: usize = 0;
    while colon < len && team_str.get_char(colon) != ':'
        invariant
            colon <= len,
            len == team_str@.len(),
            forall|m: int| 0 <= m < colon ==> team_str@[m] != ':',
        decreases len - colon,
    {
        colon = colon + 1;
    }
    if colon < len {
        // explicit name before the first colon
        let name = team_str.substring_char(0, colon).to_owned();
        let members_str = team_str.substring_char(colon + 1, len);
        let members = split_and_trim(members_str);
        proof {
            let sv = team_str@;
            assert(sv[colon as int] == ':');
            assert(exists|k: int| 0 <= k < sv.len() && sv[k] == ':') by {
                assert(0 <= colon < sv.len() && sv[colon as int] == ':');
            }
            assert(first_colon(sv) == colon as int) by {
                lemma_first_colon_unique(sv, colon as int);
            }
        }
        StudentTeam::with_name(name, members)
    } else {
        let members = split_and_trim(team_str);
        StudentTeam::new(members)
    }
}

/// The index of the first colon in `s`; only meaningful when one exists.
pub open spec fn first_colon(s: Seq<char>) -> int {
    choose|k: int| 0 <= k < s.len() && s[k] == ':' && (forall|m: int| 0 <= m < k ==> s[m] != ':')
}

proof fn lemma_first_colon_unique(s: Seq<char>, k: int)
    requires
        0 <= k < s.len(),
        s[k] == ':',
        forall|m: int| 0 <= m < k ==> s[m] != ':',
    ensures
        first_colon(s) == k,
{
    assert(0 <= k < s.len() && s[k] == ':' && (forall|m: int| 0 <= m < k ==> s[m] != ':'));
    let w = first_colon(s);
    if w != k {
        if w < k {
            assert(s[w] != ':');
        } else {
            assert(s[k] != ':');
        }
    }
}

/// The member list parsed from a comma-separated string: each piece with
/// surrounding whitespace removed.
pub open spec fn members_of(s: Seq<char>) -> Seq<Seq<char>> {
    crate::strutil::split_at_char(s, ',').map_values(|p: Seq<char>| trimmed(p))
}

/// What `parse_team` produces for a given argument.
pub open spec fn parse_team_spec(s: Seq<char>) -> TeamView {
    if exists|k: int| 0 <= k < s.len() && s[k] == ':' {
        let k = first_colon(s);
        TeamView {
            name: s.subrange(0, k),
            members: members_of(s.subrange(k + 1, s.len() as int)),
        }
    } else {
        let members = members_of(s);
        TeamView { name: derived_team_name(members), members }
    }
}

/// Whether a piece is non-empty, as a relation value.
pub open spec fn nonempty_fn() -> spec_fn(Seq<char>) -> bool {
    |p: Seq<char>| p.len() > 0
}

/// The assignment names in a comma-separated list: each piece trimmed,
/// empty pieces dropped.
pub open spec fn assignments_of(s: Seq<char>) -> Seq<Seq<char>> {
    crate::strutil::split_at_char(s, ',').map_values(|p: Seq<char>| trimmed(p)).filter(
        nonempty_fn(),
    )
}

/// Splits a comma-separated assignment list into its names; trimmed, with
/// empty pieces dropped.  An input without a single name is rejected.
pub fn split_assignments(s: &str) -> (r: Result<Vec<String>, PlatformError>)
    ensures
        match r {
            Ok(v) => views(v@) == assignments_of(s@) && v@.len() > 0,
            Err(e) => assignments_of(s@).len() == 0 && e.kind_spec()
                == crate::error::ErrorKind::InvalidInput,
        },
{
    broadcast use vstd::seq_lib::group_seq_properties;

    let pieces = split_and_trim(s);
    let ghost mapped = members_of(s@);
    let mut out: Vec<String> = Vec::new();
    let mut i: usize = 0;
    proof {
        reveal(Seq::<Seq<char>>::filter);
        assert(mapped.subrange(0, 0) =~= Seq::<Seq<char>>::empty());
        assert(views(out@) =~= Seq::<Seq<char>>::empty());
        assert(Seq::<Seq<char>>::empty().filter(nonempty_fn()) =~= Seq::<Seq<char>>::empty());
    }
    while i < pieces.len()
        invariant
            i <= pieces@.len(),
            views(pieces@) == mapped,
            views(out@) == mapped.subrange(0, i as int).filter(nonempty_fn()),
        decreases pieces@.len() - i,
    {
        let ghost pre = mapped.subrange(0, i as int);
        let piece_len = pieces[i].as_str().unicode_len();
        if piece_len > 0 {
            let ghost old_out = out@;
            out.push(pieces[i].clone());
            proof {
                assert(views(out@) =~= views(old_out).push(pieces@[i as int]@));
            }
        }
        proof {
            reveal(Seq::<Seq<char>>::filter);
            let cur = mapped.subrange(0, i + 1);
            assert(cur.drop_last() =~= pre);
            assert(cur.last() == mapped[i as int]);
            assert(mapped[i as int] == pieces@[i as int]@);
        }
        i = i + 1;
    }
    proof {
        assert(mapped.subrange(0, mapped.len() as int) =~= mapped);
    }
    if out.len() == 0 {
        proof {
            assert(assignments_of(s@) =~= views(out@));
        }
        return Err(PlatformError::InvalidInputError(String::from_str("no assignments specified")));
    }
    proof {
        assert(assignments_of(s@) =~= views(out@));
    }
    Ok(out)
}

fn split_and_trim(s: &str) -> (r: Vec<String>)
    ensures
        views(r@) == members_of(s@),
        r@.len() >= 1,
{
    let pieces = split_string(s, ',');
    let mut out: Vec<String> = Vec::new();
    let mut i: usize = 0;
    while i < pieces.len()
        invariant
            i <= pieces@.len(),
            views(pieces@) == crate::strutil::split_at_char(s@, ','),
            out@.len() == i,
            forall|k: int| 0 <= k < i ==> #[trigger] out@[k]@ == trimmed(pieces@[k]@),
        decreases pieces@.len() - i,
    {
        let piece = trim_spaces(pieces[i].as_str());
        out.push(piece);
        i = i + 1;
    }
    proof {
        assert(views(out@) =~= members_of(s@)) by {
            assert forall|k: int| 0 <= k < out@.len() implies views(out@)[k] == members_of(s@)[k]
                by {
                assert(members_of(s@)[k] == trimmed(views(pieces@)[k]));
                assert(views(pieces@)[k] == pieces@[k]@);
            }
        }
    }
    out
}

} // verus!
