//! The setup orchestrator: expansion of (team, template) pairs into units
//! of work, the per-unit step machine, and the run-level machine that
//! sequences credential verification, template acquisition and dispatch.
//!
//! All I/O is performed by the caller: the machine emits a
//! `PlatformRequest`, the caller performs it against the hosting backend
//! and answers with a `PlatformEvent`.  Every decision in between is
//! verified.

use vstd::prelude::*;
use crate::error::{ErrorKind, PlatformError, SetupError, SetupErrorView};
use crate::types::{
    repo_name_of, StudentRepo, StudentRepoView, StudentTeam, TeamPermission, TeamView,
    TemplateRepo, TemplateView,
};

verus! {

/// The abstract values of a sequence of teams.
pub open spec fn team_views(teams: Seq<StudentTeam>) -> Seq<TeamView> {
    teams.map_values(|t: StudentTeam| t@)
}

/// The abstract values of a sequence of templates.
pub open spec fn template_views(ts: Seq<TemplateRepo>) -> Seq<TemplateView> {
    ts.map_values(|t: TemplateRepo| t@)
}

/// One unit of work: the derived repository for one (team, template) pair.
#[derive(Debug)]
pub struct WorkUnit {
    pub repo: StudentRepo,
    pub template: TemplateRepo,
}

/// The abstract value of a `WorkUnit`.
pub struct WorkUnitView {
    pub repo: StudentRepoView,
    pub template: TemplateView,
}

impl View for WorkUnit {
    type V = WorkUnitView;

    open spec fn view(&self) -> WorkUnitView {
        WorkUnitView { repo: self.repo@, template: self.template@ }
    }
}

/// The repository name of the unit at position `u` in the team-major
/// enumeration of (team, template) pairs.
pub open spec fn unit_name_at(teams: Seq<TeamView>, templates: Seq<TemplateView>, u: int) -> Seq<
    char,
> {
    repo_name_of(teams[u / templates.len() as int].name, templates[u % templates.len() as int].name)
}

/// Whether some team has an empty member list.
pub open spec fn some_team_empty(teams: Seq<TeamView>) -> bool {
    exists|t: int| 0 <= t < teams.len() && (#[trigger] teams[t]).members.len() == 0
}

/// Whether two distinct (team, template) pairs derive the same repository
/// name.
pub open spec fn has_name_collision(teams: Seq<TeamView>, templates: Seq<TemplateView>) -> bool {
    exists|u1: int, u2: int|
        0 <= u1 < u2 < teams.len() * templates.len() && #[trigger] unit_name_at(teams, templates, u1)
            == #[trigger] unit_name_at(teams, templates, u2)
}

/// What a successful expansion looks like: one unit per (team, template)
/// pair, in team-major order, each with the derived repository name.
pub open spec fn units_expanded(
    teams: Seq<TeamView>,
    templates: Seq<TemplateView>,
    units: Seq<WorkUnit>,
) -> bool {
    &&& units.len() == teams.len() * templates.len()
    &&& forall|u: int|
        0 <= u < units.len() ==> {
            let t = u / templates.len() as int;
            let k = u % templates.len() as int;
            &&& (#[trigger] units[u])@.repo.name == repo_name_of(teams[t].name, templates[k].name)
            &&& units[u]@.repo.team == teams[t]
            &&& units[u]@.template == templates[k]
        }
}

/// Expands every (team, template) pair into a unit of work, in team-major
/// input order.  Rejects the run before any unit exists when a team has no
/// members or when two pairs derive the same repository name.
pub fn expand_units(teams: &Vec<StudentTeam>, templates: &Vec<TemplateRepo>) -> (r: Result<
    Vec<WorkUnit>,
    PlatformError,
>)
    ensures
        match r {
            Ok(units) => {
                &&& !some_team_empty(team_views(teams@))
                &&& !has_name_collision(team_views(teams@), template_views(templates@))
                &&& units_expanded(team_views(teams@), template_views(templates@), units@)
            },
            Err(e) => {
                &&& e.kind_spec() == ErrorKind::InvalidInput
                &&& (some_team_empty(team_views(teams@)) || has_name_collision(
                    team_views(teams@),
                    template_views(templates@),
                ))
            },
        },
{
    let ghost tv = team_views(teams@);
    let ghost kv = template_views(templates@);
    let kcount = templates.len();
    // reject a team without members before any unit exists
    let mut t: usize = 0;
    while t < teams.len()
        invariant
            t <= teams@.len(),
            tv == team_views(teams@),
            forall|m: int| 0 <= m < t ==> (#[trigger] tv[m]).members.len() > 0,
        decreases teams@.len() - t,
    {
        if teams[t].members.len() == 0 {
            proof {
                assert(tv[t as int] == teams@[t as int]@);
                assert(tv[t as int].members.len() == 0);
            }
            return Err(
                PlatformError::InvalidInputError(
                    String::from_str("every team needs at least one member"),
                ),
            );
        }
        proof {
            assert(tv[t as int] == teams@[t as int]@);
        }
        t = t + 1;
    }
    // expand in team-major order
    let mut units: Vec<WorkUnit> = Vec::new();
    let mut i: usize = 0;
    while i < teams.len()
        invariant
            i <= teams@.len(),
            tv == team_views(teams@),
            kv == template_views(templates@),
            kcount == templates@.len(),
            units@.len() == i * kcount,
            forall|u: int|
                0 <= u < units@.len() ==> {
                    let ti = u / kv.len() as int;
                    let ki = u % kv.len() as int;
                    &&& (#[trigger] units@[u])@.repo.name == repo_name_of(
                        tv[ti].name,
                        kv[ki].name,
                    )
                    &&& units@[u]@.repo.team == tv[ti]
                    &&& units@[u]@.template == kv[ki]
                },
        decreases teams@.len() - i,
    {
        let mut j: usize = 0;
        while j < templates.len()
            invariant
                i < teams@.len(),
                j <= templates@.len(),
                tv == team_views(teams@),
                kv == template_views(templates@),
                kcount == templates@.len(),
                units@.len() == i * kcount + j,
                forall|u: int|
                    0 <= u < units@.len() ==> {
                        let ti = u / kv.len() as int;
                        let ki = u % kv.len() as int;
                        &&& (#[trigger] units@[u])@.repo.name == repo_name_of(
                            tv[ti].name,
                            kv[ki].name,
                        )
                        &&& units@[u]@.repo.team == tv[ti]
                        &&& units@[u]@.template == kv[ki]
                    },
            decreases templates@.len() - j,
        {
            let team = teams[i].duplicate();
            let repo = StudentRepo::new(team, &templates[j].name);
            let unit = WorkUnit { repo, template: templates[j].duplicate() };
            units.push(unit);
            proof {
                let u = units@.len() - 1;
                assert(u == i * kcount + j);
                assert(u / kv.len() as int == i && u % kv.len() as int == j) by (nonlinear_arith)
                    requires
                        u == i * kcount + j,
                        kcount == kv.len(),
                        0 <= j < kcount,
                        0 <= i,
                {}
                assert(tv[i as int] == teams@[i as int]@);
                assert(kv[j as int] == templates@[j as int]@);
                assert(units@[u]@.repo.name == repo_name_of(tv[i as int].name, kv[j as int].name));
            }
            j = j + 1;
        }
        i = i + 1;
        proof {
            assert((i - 1) * kcount + kcount == i * kcount) by (nonlinear_arith)
                requires
                    i >= 1,
                {}
        }
    }
    proof {
        assert(units@.len() == teams@.len() * templates@.len());
    }
    // reject colliding derived repository names before any network activity
    let mut a: usize = 0;
    while a < units.len()
        invariant
            a <= units@.len(),
            tv == team_views(teams@),
            kv == template_views(templates@),
            units_expanded(tv, kv, units@),
            forall|u1: int, u2: int|
                0 <= u1 < u2 < a ==> (#[trigger] units@[u1])@.repo.name != (
                #[trigger] units@[u2])@.repo.name,
        decreases units@.len() - a,
    {
        let mut b: usize = 0;
        while b < a
            invariant
                b <= a < units@.len(),
                tv == team_views(teams@),
                kv == template_views(templates@),
                units_expanded(tv, kv, units@),
                forall|u1: int, u2: int|
                    0 <= u1 < u2 < a ==> (#[trigger] units@[u1])@.repo.name != (
                    #[trigger] units@[u2])@.repo.name,
                forall|u: int| 0 <= u < b ==> (#[trigger] units@[u])@.repo.name != units@[
                    a as int]@.repo.name,
            decreases a - b,
        {
            if units[b].repo.name.eq(&units[a].repo.name) {
                proof {
                    let names_equal = unit_name_at(tv, kv, b as int) == unit_name_at(
                        tv,
                        kv,
                        a as int,
                    );
                    assert(unit_name_at(tv, kv, b as int) == units@[b as int]@.repo.name);
                    assert(unit_name_at(tv, kv, a as int) == units@[a as int]@.repo.name);
                    assert(names_equal);
                    assert(has_name_collision(tv, kv)) by {
                        assert(0 <= b < a < tv.len() * kv.len() && unit_name_at(tv, kv, b as int)
                            == unit_name_at(tv, kv, a as int));
                    }
                }
                return Err(
                    PlatformError::InvalidInputError(
                        String::from_str("two (team, template) pairs derive the same repository name"),
                    ),
                );
            }
            b = b + 1;
        }
        a = a + 1;
    }
    proof {
        assert(!has_name_collision(tv, kv)) by {
            assert forall|u1: int, u2: int|
                0 <= u1 < u2 < tv.len() * kv.len() implies #[trigger] unit_name_at(tv, kv, u1) != #[trigger] unit_name_at(
                tv,
                kv,
                u2,
            ) by {
                assert(units@[u1]@.repo.name == unit_name_at(tv, kv, u1));
                assert(units@[u2]@.repo.name == unit_name_at(tv, kv, u2));
            }
        }
    }
    Ok(units)
}

/// One request the machine asks its caller to perform against the backend.
#[derive(Debug)]
pub enum PlatformRequest {
    /// Authenticate and confirm the organization or base path is reachable.
    VerifySettings,
    /// Clone the template source into the cache working area.
    AcquireTemplate { name: String, location: String },
    /// Check whether a repository of this name already exists.
    RepoExists { repo_name: String },
    /// Create the repository; it does not exist yet.
    CreateRepo { repo_name: String, private: bool },
    /// Create or update the team so membership and access level match.
    EnsureTeam { team_name: String, members: Vec<String>, permission: TeamPermission },
    /// Push a fresh working copy of the template into the repository.
    PushTemplate { template_name: String, repo_name: String },
}

/// The caller's answer to the request the machine emitted last.
#[derive(Debug)]
pub enum PlatformEvent {
    VerifyOk,
    VerifyFailed(PlatformError),
    TemplateReady,
    TemplateFailed(PlatformError),
    ExistsResult(bool),
    ExistsCheckFailed(PlatformError),
    CreateOk,
    CreateFailed(PlatformError),
    EnsureTeamOk,
    EnsureTeamFailed(PlatformError),
    PushOk,
    PushFailed(PlatformError),
}

/// How one unit of work ended.
#[derive(Debug)]
pub enum UnitOutcome {
    /// The repository was created, linked to its team and populated.
    Created,
    /// The repository already existed and was left untouched.
    AlreadyExisted,
    /// Some step failed; the unit stopped there.
    Failed(PlatformError),
}

/// The accumulated outcome of a whole run.  Every unit of work lands in
/// exactly one of the three buckets.
#[derive(Debug)]
pub struct SetupResult {
    pub successful_repos: Vec<String>,
    pub existing_repos: Vec<String>,
    pub errors: Vec<SetupError>,
}

/// The abstract value of a `SetupResult`.
pub struct SetupResultView {
    pub successful: Seq<Seq<char>>,
    pub existing: Seq<Seq<char>>,
    pub errors: Seq<SetupErrorView>,
}

impl View for SetupResult {
    type V = SetupResultView;

    open spec fn view(&self) -> SetupResultView {
        SetupResultView {
            successful: crate::strutil::views(self.successful_repos@),
            existing: crate::strutil::views(self.existing_repos@),
            errors: self.errors@.map_values(|e: SetupError| e@),
        }
    }
}

impl SetupResult {
    /// The number of units recorded so far.
    pub open spec fn total(&self) -> nat {
        self@.successful.len() + self@.existing.len() + self@.errors.len()
    }

    /// An empty accumulator.
    pub fn new() -> (r: SetupResult)
        ensures
            r@.successful.len() == 0,
            r@.existing.len() == 0,
            r@.errors.len() == 0,
    {
        let r = SetupResult {
            successful_repos: Vec::new(),
            existing_repos: Vec::new(),
            errors: Vec::new(),
        };
        proof {
            assert(r@.successful =~= Seq::<Seq<char>>::empty());
            assert(r@.existing =~= Seq::<Seq<char>>::empty());
            assert(r@.errors =~= Seq::<SetupErrorView>::empty());
        }
        r
    }

    /// A run succeeded exactly when no unit of work failed.
    pub fn is_success(&self) -> (r: bool)
        ensures
            r == (self@.errors.len() == 0),
    {
        self.errors.len() == 0
    }

    /// Files one unit's outcome into its bucket.
    pub fn record(&mut self, team_name: String, repo_name: String, outcome: UnitOutcome)
        ensures
            final(self)@ == result_with(old(self)@, team_name@, repo_name@, outcome),
            final(self).total() == old(self).total() + 1,
    {
        let ghost oldv = self@;
        match outcome {
            UnitOutcome::Created => {
                self.successful_repos.push(repo_name);
                proof {
                    assert(self@.successful =~= oldv.successful.push(
                        self.successful_repos@.last()@,
                    ));
                    assert(self@.existing =~= oldv.existing);
                    assert(self@.errors =~= oldv.errors);
                }
            },
            UnitOutcome::AlreadyExisted => {
                self.existing_repos.push(repo_name);
                proof {
                    assert(self@.existing =~= oldv.existing.push(self.existing_repos@.last()@));
                    assert(self@.successful =~= oldv.successful);
                    assert(self@.errors =~= oldv.errors);
                }
            },
            UnitOutcome::Failed(e) => {
                self.errors.push(SetupError { team_name, repo_name, error: e });
                proof {
                    assert(self@.errors =~= oldv.errors.push(self.errors@.last()@));
                    assert(self@.successful =~= oldv.successful);
                    assert(self@.existing =~= oldv.existing);
                }
            },
        }
    }
}

impl WorkUnit {
    /// A copy of this unit with the same abstract value.
    pub fn duplicate(&self) -> (u: WorkUnit)
        ensures
            u@ == self@,
    {
        WorkUnit { repo: self.repo.duplicate(), template: self.template.duplicate() }
    }
}

/// Where one unit of work stands: the four backend steps run in order, and
/// the unit stops at the first failure.
#[derive(Clone, Copy, Debug, PartialEq, Eq, Structural)]
pub enum UnitStage {
    CheckExists,
    Create,
    EnsureTeam,
    Push,
    Done,
}

/// Whether an event answers what the given stage asked for.
pub open spec fn event_fits_stage(stage: UnitStage, ev: PlatformEvent) -> bool {
    match stage {
        UnitStage::CheckExists => ev matches PlatformEvent::ExistsResult(_) || ev matches
            PlatformEvent::ExistsCheckFailed(_),
        UnitStage::Create => ev matches PlatformEvent::CreateOk || ev matches
            PlatformEvent::CreateFailed(_),
        UnitStage::EnsureTeam => ev matches PlatformEvent::EnsureTeamOk || ev matches
            PlatformEvent::EnsureTeamFailed(_),
        UnitStage::Push => ev matches PlatformEvent::PushOk || ev matches
            PlatformEvent::PushFailed(_),
        UnitStage::Done => false,
    }
}

/// The stage a unit moves to on an event.
pub open spec fn stage_after(stage: UnitStage, ev: PlatformEvent) -> UnitStage {
    match ev {
        PlatformEvent::ExistsResult(b) => if b {
            UnitStage::Done
        } else {
            UnitStage::Create
        },
        PlatformEvent::ExistsCheckFailed(_) => UnitStage::Done,
        PlatformEvent::CreateOk => UnitStage::EnsureTeam,
        PlatformEvent::CreateFailed(_) => UnitStage::Done,
        PlatformEvent::EnsureTeamOk => UnitStage::Push,
        PlatformEvent::EnsureTeamFailed(_) => UnitStage::Done,
        PlatformEvent::PushOk => UnitStage::Done,
        PlatformEvent::PushFailed(_) => UnitStage::Done,
        _ => stage,
    }
}

/// The outcome a unit reports on an event, when the event ends it.
pub open spec fn outcome_after(stage: UnitStage, ev: PlatformEvent) -> Option<UnitOutcome> {
    match ev {
        PlatformEvent::ExistsResult(b) => if b {
            Some(UnitOutcome::AlreadyExisted)
        } else {
            None
        },
        PlatformEvent::ExistsCheckFailed(e) => Some(UnitOutcome::Failed(e)),
        PlatformEvent::CreateOk => None,
        PlatformEvent::CreateFailed(e) => Some(UnitOutcome::Failed(e)),
        PlatformEvent::EnsureTeamOk => None,
        PlatformEvent::EnsureTeamFailed(e) => Some(UnitOutcome::Failed(e)),
        PlatformEvent::PushOk => Some(UnitOutcome::Created),
        PlatformEvent::PushFailed(e) => Some(UnitOutcome::Failed(e)),
        _ => None,
    }
}

/// The step machine for one unit of work.  It asks for the existence
/// check, the creation, the team update and the push in order, and reports
/// the unit's outcome with its last event.
#[derive(Debug)]
pub struct UnitRun {
    pub unit: WorkUnit,
    pub private: bool,
    pub stage: UnitStage,
}

impl UnitRun {
    /// Starts a unit at its existence check.
    pub fn start(unit: WorkUnit, private: bool) -> (r: UnitRun)
        ensures
            r.unit == unit,
            r.private == private,
            r.stage == UnitStage::CheckExists,
    {
        UnitRun { unit, private, stage: UnitStage::CheckExists }
    }

    /// The request this unit needs performed next; `None` when the unit is
    /// done.
    pub fn next_request(&self) -> (r: Option<PlatformRequest>)
        ensures
            unit_request_ok(*self, r),
    {
        match self.stage {
            UnitStage::CheckExists => Some(
                PlatformRequest::RepoExists { repo_name: self.unit.repo.name.clone() },
            ),
            UnitStage::Create => Some(
                PlatformRequest::CreateRepo {
                    repo_name: self.unit.repo.name.clone(),
                    private: self.private,
                },
            ),
            UnitStage::EnsureTeam => Some(
                PlatformRequest::EnsureTeam {
                    team_name: self.unit.repo.owning_team.name.clone(),
                    members: crate::types::clone_strings(&self.unit.repo.owning_team.members),
                    permission: TeamPermission::Push,
                },
            ),
            UnitStage::Push => Some(
                PlatformRequest::PushTemplate {
                    template_name: self.unit.template.name.clone(),
                    repo_name: self.unit.repo.name.clone(),
                },
            ),
            UnitStage::Done => None,
        }
    }

    /// Feeds the answer to the last request into the unit.  Returns the
    /// unit's outcome when this event ends it.
    pub fn handle_event(&mut self, ev: PlatformEvent) -> (out: Option<UnitOutcome>)
        requires
            event_fits_stage(old(self).stage, ev),
        ensures
            final(self).unit == old(self).unit,
            final(self).private == old(self).private,
            final(self).stage == stage_after(old(self).stage, ev),
            out == outcome_after(old(self).stage, ev),
    {
        match ev {
            PlatformEvent::ExistsResult(exists) => {
                if exists {
                    self.stage = UnitStage::Done;
                    Some(UnitOutcome::AlreadyExisted)
                } else {
                    self.stage = UnitStage::Create;
                    None
                }
            },
            PlatformEvent::ExistsCheckFailed(e) => {
                self.stage = UnitStage::Done;
                Some(UnitOutcome::Failed(e))
            },
            PlatformEvent::CreateOk => {
                self.stage = UnitStage::EnsureTeam;
                None
            },
            PlatformEvent::CreateFailed(e) => {
                self.stage = UnitStage::Done;
                Some(UnitOutcome::Failed(e))
            },
            PlatformEvent::EnsureTeamOk => {
                self.stage = UnitStage::Push;
                None
            },
            PlatformEvent::EnsureTeamFailed(e) => {
                self.stage = UnitStage::Done;
                Some(UnitOutcome::Failed(e))
            },
            PlatformEvent::PushOk => {
                self.stage = UnitStage::Done;
                Some(UnitOutcome::Created)
            },
            PlatformEvent::PushFailed(e) => {
                self.stage = UnitStage::Done;
                Some(UnitOutcome::Failed(e))
            },
            _ => None,
        }
    }
}

/// What `UnitRun::next_request` may return for a unit: the request for its
/// current stage, with the unit's own names and members.
pub open spec fn unit_request_ok(u: UnitRun, r: Option<PlatformRequest>) -> bool {
    match u.stage {
        UnitStage::CheckExists => r matches Some(PlatformRequest::RepoExists { repo_name })
            && repo_name@ == u.unit@.repo.name,
        UnitStage::Create => r matches Some(PlatformRequest::CreateRepo { repo_name, private })
            && repo_name@ == u.unit@.repo.name && private == u.private,
        UnitStage::EnsureTeam => r matches Some(
            PlatformRequest::EnsureTeam { team_name, members, permission },
        ) && team_name@ == u.unit@.repo.team.name && crate::strutil::views(members@)
            == u.unit@.repo.team.members && permission == TeamPermission::Push,
        UnitStage::Push => r matches Some(PlatformRequest::PushTemplate { template_name, repo_name })
            && template_name@ == u.unit@.template.name && repo_name@ == u.unit@.repo.name,
        UnitStage::Done => r is None,
    }
}

/// The result view after one unit's outcome is filed.
pub open spec fn result_with(
    r: SetupResultView,
    team: Seq<char>,
    repo: Seq<char>,
    out: UnitOutcome,
) -> SetupResultView {
    match out {
        UnitOutcome::Created => SetupResultView {
            successful: r.successful.push(repo),
            existing: r.existing,
            errors: r.errors,
        },
        UnitOutcome::AlreadyExisted => SetupResultView {
            successful: r.successful,
            existing: r.existing.push(repo),
            errors: r.errors,
        },
        UnitOutcome::Failed(e) => SetupResultView {
            successful: r.successful,
            existing: r.existing,
            errors: r.errors.push(
                SetupErrorView {
                    team_name: team,
                    repo_name: repo,
                    kind: e.kind_spec(),
                    message: e.message_spec(),
                },
            ),
        },
    }
}

/// Where a whole run stands.
#[derive(Clone, Copy, Debug, PartialEq, Eq, Structural)]
pub enum RunPhase {
    /// Waiting for the one credential check; nothing else has happened.
    Verify,
    /// Fetching each distinct template once, before any unit runs.
    Acquire,
    /// Working through the units, one active at a time.
    Dispatch,
    /// Everything is decided; the result can be taken.
    Finished,
}

/// The run-level machine: verification, template acquisition and unit
/// dispatch in order, with every outcome filed into the result.
#[derive(Debug)]
pub struct SetupRun {
    pub units: Vec<WorkUnit>,
    pub templates: Vec<TemplateRepo>,
    pub private: bool,
    pub phase: RunPhase,
    pub tmpl_idx: usize,
    pub cache: crate::cache::TemplateCache,
    pub unit_idx: usize,
    pub active: Option<UnitRun>,
    pub result: SetupResult,
    pub cancelled: bool,
    pub abort: Option<PlatformError>,
}

impl SetupRun {
    /// The template name of every unit occurs in the template list, at the
    /// position the team-major expansion drew it from.
    pub open spec fn units_templates_listed(&self) -> bool {
        &&& (self.units@.len() > 0 ==> self.templates@.len() > 0)
        &&& forall|u: int|
            0 <= u < self.units@.len() ==> (#[trigger] self.units@[u])@.template.name
                == self.templates@[u % self.templates@.len() as int]@.name
    }

    /// The invariant that holds between any two calls into the machine.
    pub open spec fn wf(&self) -> bool {
        &&& self.cache.wf()
        &&& self.tmpl_idx <= self.templates@.len()
        &&& self.unit_idx <= self.units@.len()
        &&& self.units_templates_listed()
        &&& match self.phase {
            RunPhase::Verify => {
                &&& self.tmpl_idx == 0
                &&& self.unit_idx == 0
                &&& self.active is None
                &&& self.result.total() == 0
                &&& self.cache@.len() == 0
                &&& self.abort is None
            },
            RunPhase::Acquire => {
                &&& self.active is None
                &&& self.unit_idx == 0
                &&& self.result.total() == 0
                &&& self.abort is None
                &&& self.tmpl_idx < self.templates@.len()
                &&& !self.cache.holds(self.templates@[self.tmpl_idx as int]@.name)
                &&& forall|t: int|
                    0 <= t < self.tmpl_idx ==> self.cache.holds(
                        (#[trigger] self.templates@[t])@.name,
                    )
            },
            RunPhase::Dispatch => {
                &&& self.abort is None
                &&& forall|t: int|
                    0 <= t < self.templates@.len() ==> self.cache.holds(
                        (#[trigger] self.templates@[t])@.name,
                    )
                &&& self.unit_idx < self.units@.len()
                &&& self.active matches Some(u) && u.unit@ == self.units@[self.unit_idx as int]@
                    && u.stage != UnitStage::Done && u.private == self.private
                &&& self.result.total() == self.unit_idx
            },
            RunPhase::Finished => {
                &&& self.active is None
                &&& match self.abort {
                    Some(_) => self.result.total() == 0 && self.unit_idx == 0,
                    None => {
                        &&& self.result.total() == self.unit_idx
                        &&& (!self.cancelled ==> self.unit_idx == self.units@.len())
                    },
                }
            },
        }
    }

    /// Validates the input and builds a run positioned at credential
    /// verification.  No request has been made yet.
    pub fn new(teams: &Vec<StudentTeam>, templates: Vec<TemplateRepo>, private: bool) -> (r:
        Result<SetupRun, PlatformError>)
        ensures
            match r {
                Ok(run) => {
                    &&& run.wf()
                    &&& run.phase == RunPhase::Verify
                    &&& !run.cancelled
                    &&& run.abort is None
                    &&& run.private == private
                    &&& run.templates == templates
                    &&& units_expanded(team_views(teams@), template_views(templates@), run.units@)
                    &&& !some_team_empty(team_views(teams@))
                    &&& !has_name_collision(team_views(teams@), template_views(templates@))
                },
                Err(e) => {
                    &&& e.kind_spec() == ErrorKind::InvalidInput
                    &&& (some_team_empty(team_views(teams@)) || has_name_collision(
                        team_views(teams@),
                        template_views(templates@),
                    ))
                },
            },
    {
        let units = match expand_units(teams, &templates) {
            Ok(units) => units,
            Err(e) => {
                return Err(e);
            },
        };
        let run = SetupRun {
            units,
            templates,
            private,
            phase: RunPhase::Verify,
            tmpl_idx: 0,
            cache: crate::cache::TemplateCache::new(),
            unit_idx: 0,
            active: None,
            result: SetupResult::new(),
            cancelled: false,
            abort: None,
        };
        proof {
            let tv = team_views(teams@);
            let kv = template_views(run.templates@);
            if run.units@.len() > 0 {
                assert(run.templates@.len() > 0) by (nonlinear_arith)
                    requires
                        run.units@.len() == tv.len() * kv.len(),
                        0 < run.units@.len(),
                        kv.len() == run.templates@.len(),
                        kv.len() >= 0,
                {}
            }
            assert forall|u: int|
                0 <= u < run.units@.len() implies (#[trigger] run.units@[u])@.template.name
                == run.templates@[u % run.templates@.len() as int]@.name by {
                let kl = run.templates@.len() as int;
                assert(run.units@[u]@.template == kv[u % kl]);
                assert(kv[u % kl] == run.templates@[u % kl]@);
            }
        }
        Ok(run)
    }

    /// Stops dispatching new units.  Units already recorded stay in the
    /// result, and an in-flight unit is allowed to finish.
    pub fn cancel(&mut self)
        requires
            old(self).wf(),
        ensures
            final(self).wf(),
            final(self).cancelled,
            final(self).units == old(self).units,
            final(self).templates == old(self).templates,
            final(self).private == old(self).private,
            final(self).phase == old(self).phase,
            final(self).tmpl_idx == old(self).tmpl_idx,
            final(self).cache == old(self).cache,
            final(self).unit_idx == old(self).unit_idx,
            final(self).active == old(self).active,
            final(self).result == old(self).result,
            final(self).abort == old(self).abort,
    {
        self.cancelled = true;
    }

    /// Whether the run is over and the result can be taken.
    pub fn is_finished(&self) -> (r: bool)
        ensures
            r == (self.phase == RunPhase::Finished),
    {
        match self.phase {
            RunPhase::Finished => true,
            _ => false,
        }
    }

    /// The request the caller should perform next; `None` when the run is
    /// finished.  An `AcquireTemplate` request is only ever emitted for a
    /// template name the cache does not hold yet: together with the cache
    /// invariant this is the single-flight guarantee.
    pub fn next_request(&self) -> (r: Option<PlatformRequest>)
        requires
            self.wf(),
        ensures
            match self.phase {
                RunPhase::Verify => r == Some(PlatformRequest::VerifySettings),
                RunPhase::Acquire => r matches Some(
                    PlatformRequest::AcquireTemplate { name, location },
                ) && name@ == self.templates@[self.tmpl_idx as int]@.name && location@
                    == self.templates@[self.tmpl_idx as int]@.location && !self.cache.holds(name@),
                RunPhase::Dispatch => self.active matches Some(u) && unit_request_ok(u, r),
                RunPhase::Finished => r is None,
            },
    {
        match self.phase {
            RunPhase::Verify => Some(PlatformRequest::VerifySettings),
            RunPhase::Acquire => Some(
                PlatformRequest::AcquireTemplate {
                    name: self.templates[self.tmpl_idx].name.clone(),
                    location: self.templates[self.tmpl_idx].location.clone(),
                },
            ),
            RunPhase::Dispatch => {
                match &self.active {
                    Some(u) => u.next_request(),
                    None => None,
                }
            },
            RunPhase::Finished => None,
        }
    }

    /// Positions the machine at the next template that still needs its one
    /// fetch, or moves on to dispatch when every template is recorded.
    fn advance_acquire(&mut self)
        requires
            old(self).cache.wf(),
            old(self).units_templates_listed(),
            old(self).active is None,
            old(self).abort is None,
            old(self).unit_idx == 0,
            old(self).result.total() == 0,
            old(self).tmpl_idx <= old(self).templates@.len(),
            forall|t: int|
                0 <= t < old(self).tmpl_idx ==> old(self).cache.holds(
                    (#[trigger] old(self).templates@[t])@.name,
                ),
        ensures
            final(self).wf(),
            final(self).phase == RunPhase::Acquire || final(self).phase == RunPhase::Dispatch
                || final(self).phase == RunPhase::Finished,
            final(self).abort is None,
            final(self).units == old(self).units,
            final(self).templates == old(self).templates,
            final(self).private == old(self).private,
            final(self).cancelled == old(self).cancelled,
            final(self).cache == old(self).cache,
            final(self).result@.successful == old(self).result@.successful,
            final(self).result@.existing == old(self).result@.existing,
            old(self).result@.errors.is_prefix_of(final(self).result@.errors),
            final(self).unit_idx >= old(self).unit_idx,
            final(self).result@.errors.len() == old(self).result@.errors.len()
                + final(self).unit_idx - old(self).unit_idx,
            forall|k: int|
                old(self).result@.errors.len() <= k < final(self).result@.errors.len() ==> (
                #[trigger] final(self).result@.errors[k]).kind == ErrorKind::CloneFailed,
            old(self).cache@.len() == 0 && old(self).templates@.len() > 0 && old(self).tmpl_idx
                == 0 ==> final(self).phase == RunPhase::Acquire
                && final(self).result@ == old(self).result@ && final(self).tmpl_idx == 0,
        decreases old(self).templates@.len() - old(self).tmpl_idx,
    {
        if self.tmpl_idx == self.templates.len() {
            self.advance_dispatch();
            return ;
        }
        if self.cache.contains_name(&self.templates[self.tmpl_idx].name) {
            self.tmpl_idx = self.tmpl_idx + 1;
            self.advance_acquire();
        } else {
            self.phase = RunPhase::Acquire;
        }
    }

    /// Records clone failures for units whose template could not be
    /// fetched, then starts the next runnable unit, or finishes the run
    /// when no unit is left to start.
    fn advance_dispatch(&mut self)
        requires
            old(self).cache.wf(),
            old(self).units_templates_listed(),
            old(self).active is None,
            old(self).abort is None,
            old(self).unit_idx <= old(self).units@.len(),
            old(self).result.total() == old(self).unit_idx,
            old(self).tmpl_idx <= old(self).templates@.len(),
            forall|t: int|
                0 <= t < old(self).templates@.len() ==> old(self).cache.holds(
                    (#[trigger] old(self).templates@[t])@.name,
                ),
        ensures
            final(self).wf(),
            final(self).phase == RunPhase::Dispatch || final(self).phase == RunPhase::Finished,
            final(self).abort is None,
            final(self).units == old(self).units,
            final(self).templates == old(self).templates,
            final(self).private == old(self).private,
            final(self).cancelled == old(self).cancelled,
            final(self).cache == old(self).cache,
            final(self).result@.successful == old(self).result@.successful,
            final(self).result@.existing == old(self).result@.existing,
            old(self).result@.errors.is_prefix_of(final(self).result@.errors),
            final(self).unit_idx >= old(self).unit_idx,
            final(self).result@.errors.len() == old(self).result@.errors.len()
                + final(self).unit_idx - old(self).unit_idx,
            forall|k: int|
                old(self).result@.errors.len() <= k < final(self).result@.errors.len() ==> (
                #[trigger] final(self).result@.errors[k]).kind == ErrorKind::CloneFailed,
        decreases old(self).units@.len() - old(self).unit_idx,
    {
        broadcast use vstd::seq_lib::group_seq_properties;

        if self.cancelled || self.unit_idx == self.units.len() {
            self.phase = RunPhase::Finished;
            return ;
        }
        let status: Option<Option<String>> = {
            let st = self.cache.failure_of(&self.units[self.unit_idx].template.name);
            match st {
                Some(None) => Some(None),
                Some(Some(m)) => Some(Some(m.clone())),
                None => None,
            }
        };
        match status {
            Some(None) => {
                let unit = self.units[self.unit_idx].duplicate();
                self.active = Some(UnitRun::start(unit, self.private));
                self.phase = RunPhase::Dispatch;
            },
            Some(Some(msg)) => {
                let team_name = self.units[self.unit_idx].repo.owning_team.name.clone();
                let repo_name = self.units[self.unit_idx].repo.name.clone();
                self.result.record(
                    team_name,
                    repo_name,
                    UnitOutcome::Failed(PlatformError::CloneError(msg)),
                );
                self.unit_idx = self.unit_idx + 1;
                let ghost mid_errors = self.result@.errors;
                self.advance_dispatch();
                proof {
                    assert(mid_errors == self.result@.errors.subrange(0, mid_errors.len() as int));
                    assert forall|k: int|
                        old(self).result@.errors.len() <= k < self.result@.errors.len() implies (
                    #[trigger] self.result@.errors[k]).kind == ErrorKind::CloneFailed by {
                        if k < mid_errors.len() {
                            assert(self.result@.errors[k] == mid_errors[k]);
                        }
                    }
                }
            },
            None => {
                proof {
                    let u = self.unit_idx as int;
                    let kl = self.templates@.len() as int;
                    let k = u % kl;
                    assert(self.units@.len() > 0);
                    assert(kl > 0);
                    vstd::arithmetic::div_mod::lemma_mod_division_less_than_divisor(u, kl);
                    assert(0 <= k < kl);
                    assert(self.units@[u]@.template.name == self.templates@[k]@.name);
                    assert(self.cache.holds(self.templates@[k]@.name));
                    assert(false);
                }
                unreached()
            },
        }
    }

    /// Feeds the answer to the last request into the run.
    ///
    /// A failed credential check finishes the run at once with nothing
    /// recorded; a template fetch outcome is recorded exactly once per
    /// template; a unit event moves the active unit, and its outcome, when
    /// it has one, is filed into exactly one bucket of the result.
    pub fn handle_event(&mut self, ev: PlatformEvent)
        requires
            old(self).wf(),
            run_event_fits(*old(self), ev),
        ensures
            final(self).wf(),
            final(self).units == old(self).units,
            final(self).templates == old(self).templates,
            final(self).private == old(self).private,
            final(self).cancelled == old(self).cancelled,
            match old(self).phase {
                RunPhase::Verify => match ev {
                    PlatformEvent::VerifyFailed(e) => {
                        &&& final(self).phase == RunPhase::Finished
                        &&& final(self).abort == Some(e)
                        &&& final(self).result.total() == 0
                        &&& final(self).unit_idx == 0
                    },
                    _ => {
                        &&& final(self).abort is None
                        &&& final(self).result@ == old(self).result@
                        &&& final(self).result.total() == 0
                        &&& (old(self).templates@.len() > 0 ==> final(self).phase
                            == RunPhase::Acquire && final(self).tmpl_idx == 0)
                        &&& (old(self).templates@.len() == 0 ==> final(self).phase
                            == RunPhase::Finished)
                    },
                },
                RunPhase::Acquire => {
                    &&& final(self).abort is None
                    &&& final(self).result@.successful == old(self).result@.successful
                    &&& final(self).result@.existing == old(self).result@.existing
                    &&& old(self).result@.errors.is_prefix_of(final(self).result@.errors)
                    &&& forall|k: int|
                        old(self).result@.errors.len() <= k < final(self).result@.errors.len()
                            ==> (#[trigger] final(self).result@.errors[k]).kind
                            == ErrorKind::CloneFailed
                    &&& final(self).cache@ == old(self).cache@.push(
                        crate::cache::TemplateStatusView {
                            name: old(self).templates@[old(self).tmpl_idx as int]@.name,
                            failure: match ev {
                                PlatformEvent::TemplateFailed(e) => Some(e.message_spec()),
                                _ => None,
                            },
                        },
                    )
                },
                RunPhase::Dispatch => old(self).active matches Some(u) && {
                    match outcome_after(u.stage, ev) {
                        None => {
                            &&& final(self).result@ == old(self).result@
                            &&& final(self).phase == RunPhase::Dispatch
                            &&& final(self).unit_idx == old(self).unit_idx
                            &&& final(self).active matches Some(u2) && u2.unit@ == u.unit@
                                && u2.stage == stage_after(u.stage, ev)
                        },
                        Some(out) => {
                            let rec = result_with(
                                old(self).result@,
                                u.unit@.repo.team.name,
                                u.unit@.repo.name,
                                out,
                            );
                            &&& final(self).result@.successful == rec.successful
                            &&& final(self).result@.existing == rec.existing
                            &&& rec.errors.is_prefix_of(final(self).result@.errors)
                            &&& forall|k: int|
                                rec.errors.len() <= k < final(self).result@.errors.len() ==> (
                                #[trigger] final(self).result@.errors[k]).kind
                                    == ErrorKind::CloneFailed
                            &&& final(self).unit_idx >= old(self).unit_idx + 1
                            &&& final(self).abort is None
                        },
                    }
                },
                RunPhase::Finished => true,
            },
    {
        broadcast use vstd::seq_lib::group_seq_properties;

        match self.phase {
            RunPhase::Verify => {
                match ev {
                    PlatformEvent::VerifyOk => {
                        self.advance_acquire();
                    },
                    PlatformEvent::VerifyFailed(e) => {
                        self.abort = Some(e);
                        self.phase = RunPhase::Finished;
                    },
                    _ => {},
                }
            },
            RunPhase::Acquire => {
                let tcount = self.templates.len();
                let name = self.templates[self.tmpl_idx].name.clone();
                match ev {
                    PlatformEvent::TemplateReady => {
                        self.cache.record(name, None);
                    },
                    PlatformEvent::TemplateFailed(e) => {
                        let msg = e.message().clone();
                        self.cache.record(name, Some(msg));
                    },
                    _ => {
                        proof {
                            assert(false);
                        }
                    },
                }
                self.tmpl_idx = self.tmpl_idx + 1;
                proof {
                    assert forall|t: int|
                        0 <= t < self.tmpl_idx implies self.cache.holds(
                        (#[trigger] self.templates@[t])@.name,
                    ) by {
                        if t < self.tmpl_idx - 1 {
                            assert(old(self).cache.holds(old(self).templates@[t]@.name));
                            let k = choose|k: int|
                                0 <= k < old(self).cache@.len() && (#[trigger] old(
                                    self,
                                ).cache@[k]).name == old(self).templates@[t]@.name;
                            assert(self.cache@[k].name == self.templates@[t]@.name);
                        } else {
                            let k = self.cache@.len() - 1;
                            assert(self.cache@[k].name == self.templates@[t]@.name);
                        }
                    }
                }
                self.advance_acquire();
            },
            RunPhase::Dispatch => {
                let ucount = self.units.len();
                proof {
                    assert(self.unit_idx < ucount);
                }
                let mut act = match self.active.take() {
                    Some(a) => a,
                    None => {
                        proof {
                            assert(false);
                        }
                        unreached()
                    },
                };
                let out = act.handle_event(ev);
                match out {
                    None => {
                        self.active = Some(act);
                    },
                    Some(out) => {
                        let team_name = act.unit.repo.owning_team.name.clone();
                        let repo_name = act.unit.repo.name.clone();
                        self.result.record(team_name, repo_name, out);
                        self.unit_idx = self.unit_idx + 1;
                        let ghost mid_errors = self.result@.errors;
                        self.advance_dispatch();
                        proof {
                            assert(mid_errors == self.result@.errors.subrange(
                                0,
                                mid_errors.len() as int,
                            ));
                            assert forall|k: int|
                                mid_errors.len() <= k < self.result@.errors.len() implies (
                            #[trigger] self.result@.errors[k]).kind == ErrorKind::CloneFailed by {}
                        }
                    },
                }
            },
            RunPhase::Finished => {},
        }
    }

    /// Takes the finished run's outcome: the aborting error when the
    /// credential check failed, otherwise the accumulated result.  When the
    /// run was neither aborted nor cancelled, every unit of work is in
    /// exactly one bucket, so the three buckets together hold one entry per
    /// (team, template) pair.
    pub fn into_result(self) -> (r: Result<SetupResult, PlatformError>)
        requires
            self.wf(),
            self.phase == RunPhase::Finished,
        ensures
            match r {
                Err(e) => self.abort == Some(e),
                Ok(res) => {
                    &&& self.abort is None
                    &&& res == self.result
                    &&& res.total() == self.unit_idx
                    &&& (!self.cancelled ==> res.total() == self.units@.len())
                },
            },
    {
        match self.abort {
            Some(e) => Err(e),
            None => Ok(self.result),
        }
    }
}

/// How a unit ends, without the error detail: the three buckets of a
/// `SetupResult`.
#[derive(Clone, Copy, Debug, PartialEq, Eq, Structural)]
pub enum OutcomeKind {
    Created,
    Existing,
    Failed,
}

/// How one unit of work ends against a backend on which `pre` is the set of
/// repository names that already exist and the three further sets name the
/// repositories whose create, team-update or push call would fail.  This is
/// the unit steps 4a-4e in one function: an existing repository is skipped
/// before anything else is tried; otherwise the first failing call ends the
/// unit; otherwise it is created.
pub open spec fn unit_outcome_model(
    repo: Seq<char>,
    pre: Set<Seq<char>>,
    create_fails: Set<Seq<char>>,
    team_fails: Set<Seq<char>>,
    push_fails: Set<Seq<char>>,
) -> OutcomeKind {
    if pre.contains(repo) {
        OutcomeKind::Existing
    } else if create_fails.contains(repo) || team_fails.contains(repo) || push_fails.contains(
        repo,
    ) {
        OutcomeKind::Failed
    } else {
        OutcomeKind::Created
    }
}

/// The repositories that exist after a run: whatever existed before, plus
/// every unit repository whose create call succeeded (the repository stays
/// even when a later team update or push failed: partial state is left for
/// a re-run to pick up, never rolled back).
pub open spec fn repos_after_run(
    names: Seq<Seq<char>>,
    pre: Set<Seq<char>>,
    create_fails: Set<Seq<char>>,
) -> Set<Seq<char>> {
    pre.union(names.to_set().difference(create_fails))
}

/// The unit repositories that a run files under the given bucket.
pub open spec fn bucket_model(
    names: Seq<Seq<char>>,
    pre: Set<Seq<char>>,
    create_fails: Set<Seq<char>>,
    team_fails: Set<Seq<char>>,
    push_fails: Set<Seq<char>>,
    kind: OutcomeKind,
) -> Set<Seq<char>> {
    names.to_set().filter(
        |n: Seq<char>| unit_outcome_model(n, pre, create_fails, team_fails, push_fails) == kind,
    )
}

/// Completeness: every unit of work lands in exactly one of the three
/// buckets, whatever the backend held before and whatever calls fail.
pub proof fn lemma_every_unit_in_one_bucket(
    names: Seq<Seq<char>>,
    pre: Set<Seq<char>>,
    create_fails: Set<Seq<char>>,
    team_fails: Set<Seq<char>>,
    push_fails: Set<Seq<char>>,
)
    ensures
        forall|n: Seq<char>|
            names.to_set().contains(n) ==> {
                let k = #[trigger] unit_outcome_model(n, pre, create_fails, team_fails, push_fails);
                &&& bucket_model(names, pre, create_fails, team_fails, push_fails, k).contains(n)
                &&& forall|other: OutcomeKind|
                    other != k ==> !bucket_model(
                        names,
                        pre,
                        create_fails,
                        team_fails,
                        push_fails,
                        other,
                    ).contains(n)
            },
{
}

/// Idempotence: after a run in which no call failed, running setup again
/// with the same units finds every repository in place.  The second run's
/// `existing` bucket is exactly the union of the first run's `successful`
/// and `existing` buckets, its `successful` and `failed` buckets are empty,
/// and the backend is left unchanged: no duplicate repository is ever
/// created.
pub proof fn lemma_setup_idempotent(names: Seq<Seq<char>>, pre: Set<Seq<char>>)
    ensures
        ({
            let none = Set::<Seq<char>>::empty();
            let post1 = repos_after_run(names, pre, none);
            &&& forall|u: int|
                0 <= u < names.len() ==> #[trigger] unit_outcome_model(
                    names[u],
                    post1,
                    none,
                    none,
                    none,
                ) == OutcomeKind::Existing
            &&& bucket_model(names, post1, none, none, none, OutcomeKind::Existing) == bucket_model(
                names,
                pre,
                none,
                none,
                none,
                OutcomeKind::Created,
            ).union(bucket_model(names, pre, none, none, none, OutcomeKind::Existing))
            &&& bucket_model(names, post1, none, none, none, OutcomeKind::Created)
                == Set::<Seq<char>>::empty()
            &&& repos_after_run(names, post1, none) == post1
        }),
{
    let none = Set::<Seq<char>>::empty();
    let post1 = repos_after_run(names, pre, none);
    assert forall|u: int| 0 <= u < names.len() implies #[trigger] unit_outcome_model(
        names[u],
        post1,
        none,
        none,
        none,
    ) == OutcomeKind::Existing by {
        assert(names.to_set().contains(names[u]));
        assert(post1.contains(names[u]));
    }
    assert(bucket_model(names, post1, none, none, none, OutcomeKind::Existing) =~= bucket_model(
        names,
        pre,
        none,
        none,
        none,
        OutcomeKind::Created,
    ).union(bucket_model(names, pre, none, none, none, OutcomeKind::Existing)));
    assert(bucket_model(names, post1, none, none, none, OutcomeKind::Created)
        =~= Set::<Seq<char>>::empty());
    assert(repos_after_run(names, post1, none) =~= post1);
}

/// Partial-failure isolation: when exactly one unit's create call fails,
/// every other unit still lands in `successful` or `existing`, and the
/// failing unit lands only in `errors`.
pub proof fn lemma_single_failure_isolated(
    names: Seq<Seq<char>>,
    pre: Set<Seq<char>>,
    failing: Seq<char>,
)
    ensures
        ({
            let none = Set::<Seq<char>>::empty();
            let cf = none.insert(failing);
            &&& forall|u: int|
                0 <= u < names.len() && names[u] != failing ==> #[trigger] unit_outcome_model(
                    names[u],
                    pre,
                    cf,
                    none,
                    none,
                ) == (if pre.contains(names[u]) {
                    OutcomeKind::Existing
                } else {
                    OutcomeKind::Created
                })
            &&& !pre.contains(failing) ==> unit_outcome_model(failing, pre, cf, none, none)
                == OutcomeKind::Failed
        }),
{
}

/// Whether an event answers what the run asked for last.
pub open spec fn run_event_fits(run: SetupRun, ev: PlatformEvent) -> bool {
    match run.phase {
        RunPhase::Verify => ev matches PlatformEvent::VerifyOk || ev matches
            PlatformEvent::VerifyFailed(_),
        RunPhase::Acquire => ev matches PlatformEvent::TemplateReady || ev matches
            PlatformEvent::TemplateFailed(_),
        RunPhase::Dispatch => run.active matches Some(u) && event_fits_stage(u.stage, ev),
        RunPhase::Finished => false,
    }
}

} // verus!
