//! Single-flight bookkeeping for template acquisition.
//!
//! The cache records, per template name, whether its source has been
//! fetched and whether that fetch succeeded.  The setup machine asks for a
//! fetch only for a name the cache does not hold yet, and every later unit
//! of work reuses the recorded outcome, so one template source is fetched
//! at most once per run however many teams share it.

use vstd::prelude::*;

verus! {

/// The recorded outcome of acquiring one template.
#[derive(Debug)]
pub struct TemplateStatus {
    pub name: String,
    /// `None` when the template is ready for checkouts; otherwise the
    /// message of the clone failure.
    pub failure: Option<String>,
}

/// The abstract value of one cache entry.
pub struct TemplateStatusView {
    pub name: Seq<char>,
    pub failure: Option<Seq<char>>,
}

impl View for TemplateStatus {
    type V = TemplateStatusView;

    open spec fn view(&self) -> TemplateStatusView {
        TemplateStatusView {
            name: self.name@,
            failure: match self.failure {
                Some(ref m) => Some(m@),
                None => None,
            },
        }
    }
}

/// The per-run template cache: each distinct template name appears at most
/// once, with the outcome of its single fetch.
#[derive(Debug)]
pub struct TemplateCache {
    pub entries: Vec<TemplateStatus>,
}

impl View for TemplateCache {
    type V = Seq<TemplateStatusView>;

    open spec fn view(&self) -> Seq<TemplateStatusView> {
        self.entries@.map_values(|e: TemplateStatus| e@)
    }
}

impl TemplateCache {
    /// Whether the cache holds an entry for `name`.
    pub open spec fn holds(&self, name: Seq<char>) -> bool {
        exists|k: int| 0 <= k < self@.len() && (#[trigger] self@[k]).name == name
    }

    /// Each template name is recorded at most once.
    pub open spec fn wf(&self) -> bool {
        forall|i: int, j: int|
            0 <= i < j < self@.len() ==> (#[trigger] self@[i]).name != (#[trigger] self@[j]).name
    }

    /// An empty cache: nothing fetched yet.
    pub fn new() -> (c: TemplateCache)
        ensures
            c@.len() == 0,
            c.wf(),
    {
        TemplateCache { entries: Vec::new() }
    }

    /// Whether `name` has been fetched already (successfully or not).
    pub fn contains_name(&self, name: &String) -> (r: bool)
        ensures
            r == self.holds(name@),
    {
        let mut k: usize = 0;
        while k < self.entries.len()
            invariant
                k <= self@.len(),
                forall|m: int| 0 <= m < k ==> (#[trigger] self@[m]).name != name@,
            decreases self@.len() - k,
        {
            if self.entries[k].name.eq(name) {
                proof {
                    assert(self@[k as int] == self.entries@[k as int]@);
                    assert(self@[k as int].name == name@);
                }
                return true;
            }
            proof {
                assert(self@[k as int] == self.entries@[k as int]@);
            }
            k = k + 1;
        }
        false
    }

    /// Records the outcome of the one fetch of `name`.
    pub fn record(&mut self, name: String, failure: Option<String>)
        requires
            old(self).wf(),
            !old(self).holds(name@),
        ensures
            final(self).wf(),
            final(self)@ == old(self)@.push(
                TemplateStatusView {
                    name: name@,
                    failure: match failure {
                        Some(m) => Some(m@),
                        None => None,
                    },
                },
            ),
    {
        let ghost oldv = self@;
        self.entries.push(TemplateStatus { name, failure });
        proof {
            assert(self@ =~= oldv.push(self.entries@.last()@));
            assert forall|i: int, j: int| 0 <= i < j < self@.len() implies (
            #[trigger] self@[i]).name != (#[trigger] self@[j]).name by {
                if j < self@.len() - 1 {
                    assert(oldv[i].name != oldv[j].name);
                }
            }
        }
    }

    /// The recorded fetch outcome for `name`: `None` when nothing was
    /// fetched under that name, `Some(None)` when the template is ready,
    /// and `Some(Some(m))` when its clone failed with message `m`.
    pub fn failure_of(&self, name: &String) -> (r: Option<Option<&String>>)
        requires
            self.wf(),
        ensures
            match r {
                None => !self.holds(name@),
                Some(f) => exists|k: int|
                    0 <= k < self@.len() && (#[trigger] self@[k]).name == name@ && self@[k].failure
                        == (match f {
                        Some(m) => Some(m@),
                        None => None::<Seq<char>>,
                    }),
            },
    {
        let mut k: usize = 0;
        while k < self.entries.len()
            invariant
                k <= self@.len(),
                forall|m: int| 0 <= m < k ==> (#[trigger] self@[m]).name != name@,
            decreases self@.len() - k,
        {
            if self.entries[k].name.eq(name) {
                proof {
                    assert(self@[k as int] == self.entries@[k as int]@);
                    assert(self@[k as int].name == name@);
                }
                return match &self.entries[k].failure {
                    Some(m) => Some(Some(m)),
                    None => Some(None),
                };
            }
            proof {
                assert(self@[k as int] == self.entries@[k as int]@);
            }
            k = k + 1;
        }
        None
    }
}

/// Single flight: however many units of work share a template, a
/// well-formed cache holds at most one entry per template name, and
/// `record` refuses a second entry outright — so each template source is
/// fetched at most once per run.
pub proof fn lemma_single_flight(c: &TemplateCache, i: int, j: int)
    requires
        c.wf(),
        0 <= i < j < c@.len(),
    ensures
        c@[i].name != c@[j].name,
{
}

} // verus!
