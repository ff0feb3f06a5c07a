//! The scaffold orchestrator: a state machine that drives one scaffold run
//! end to end. States move `NotStarted → RootCreated → Populating → Done`,
//! with a terminal `Failed` on the first error; no transition ever returns to
//! `NotStarted`, and one orchestrator value is one attempt. The orchestrator
//! decides; a driver performs the filesystem effects it hands out and reports
//! each outcome back.

use vstd::prelude::*;

use crate::catalog::{folder_of, matching_paths, string_views, Catalog, ProjectParameters};
use crate::error::CliError;
use crate::plan::{plan_of, EntryPlan};

verus! {

/// Where a scaffold run stands.
#[derive(Clone, Copy, Debug, PartialEq, Eq, Structural)]
pub enum Phase {
    /// Nothing touched the filesystem yet.
    NotStarted,
    /// The project root directory was created.
    RootCreated,
    /// At least one catalog entry was planned; entries are materialized one
    /// at a time, strictly in enumeration order.
    Populating,
    /// Every entry of the chosen variant was materialized.
    Done,
    /// The run stopped at its first error; entries already written stay on
    /// disk, and nothing is rolled back.
    Failed,
}

/// What the orchestrator asks of the driver next.
#[derive(Debug)]
pub enum ScaffoldStep {
    /// Materialize this plan: create its parent directories in order, then
    /// perform its action at the target.
    Materialize(EntryPlan),
    /// Every entry was handed out; the run is complete and the resolved
    /// parameters can be reported.
    Finished,
}

/// One scaffold run: the validated parameters, the catalog, the template
/// root to resolve under, the enumerated entry paths of the chosen variant,
/// and the run's progress through them.
pub struct Orchestrator {
    pub params: ProjectParameters,
    pub catalog: Catalog,
    pub template_root: String,
    pub paths: Vec<String>,
    pub next: usize,
    pub phase: Phase,
}

impl Orchestrator {
    /// The run is well formed: its parameters are validated and its path
    /// list is exactly the chosen variant's enumeration, traversed in order.
    pub open spec fn wf(self) -> bool {
        &&& self.params.wf()
        &&& string_views(self.paths@) == matching_paths(
            self.catalog@,
            folder_of(self.params@.template_type),
        )
        &&& self.next <= self.paths@.len()
        &&& (self.phase == Phase::NotStarted ==> self.next == 0)
        &&& (self.phase == Phase::RootCreated ==> self.next == 0)
    }

    /// Everything but progress and phase is shared between two run states.
    pub open spec fn same_run(self, other: Self) -> bool {
        &&& self.params == other.params
        &&& self.catalog == other.catalog
        &&& self.template_root == other.template_root
        &&& self.paths == other.paths
    }

    /// Starts a run over validated parameters: nothing is materialized yet,
    /// and the catalog is enumerated once for the chosen variant.
    pub fn new(params: ProjectParameters, catalog: Catalog, template_root: String) -> (r: Self)
        requires
            params.wf(),
        ensures
            r.wf(),
            r.phase == Phase::NotStarted,
            r.next == 0,
            r.params == params,
            r.catalog == catalog,
            r.template_root == template_root,
    {
        let folder = params.template_type.get_folder();
        let paths = catalog.enumerate(folder.as_str());
        Orchestrator { params, catalog, template_root, paths, next: 0, phase: Phase::NotStarted }
    }

    /// The project root directory, equal to the validated project name. The
    /// driver must create it first and must fail the run if it already
    /// exists: a pre-existing root is never overwritten.
    pub fn root_dir(&self) -> (r: &String)
        ensures
            r@ == self.params@.name,
    {
        &self.params.name
    }

    /// Records that the driver created the project root.
    pub fn on_root_created(&mut self)
        requires
            old(self).wf(),
            old(self).phase == Phase::NotStarted,
        ensures
            final(self).wf(),
            final(self).same_run(*old(self)),
            final(self).next == 0,
            final(self).phase == Phase::RootCreated,
    {
        self.phase = Phase::RootCreated;
    }

    /// Records that creating the project root failed: the run ends before
    /// any entry is planned or materialized.
    pub fn on_root_failed(&mut self)
        requires
            old(self).wf(),
            old(self).phase == Phase::NotStarted,
        ensures
            final(self).wf(),
            final(self).same_run(*old(self)),
            final(self).next == 0,
            final(self).phase == Phase::Failed,
    {
        self.phase = Phase::Failed;
    }

    /// Plans the next entry of the run. Entries are handed out strictly in
    /// enumeration order, one at a time, and only once the root exists; the
    /// first planning failure ends the run with its error, and planning
    /// nothing further is possible after that. When every entry was handed
    /// out the run is done.
    pub fn next_step(&mut self) -> (r: Result<ScaffoldStep, CliError>)
        requires
            old(self).wf(),
            old(self).phase == Phase::RootCreated || old(self).phase == Phase::Populating,
        ensures
            final(self).wf(),
            final(self).same_run(*old(self)),
            old(self).next == old(self).paths@.len() ==> r is Ok && (r->Ok_0 is Finished)
                && final(self).phase == Phase::Done && final(self).next == old(self).next,
            old(self).next < old(self).paths@.len() ==> {
                let path = string_views(old(self).paths@)[old(self).next as int];
                let outcome = plan_of(
                    old(self).catalog@,
                    path,
                    old(self).params@,
                    old(self).template_root@,
                );
                match outcome {
                    Result::Ok(pv) => r is Ok && (r->Ok_0 matches ScaffoldStep::Materialize(plan)
                        && plan@ == pv) && final(self).phase == Phase::Populating
                        && final(self).next == old(self).next + 1,
                    Result::Err(ev) => r is Err && r->Err_0@ == ev && final(self).phase
                        == Phase::Failed && final(self).next == old(self).next,
                }
            },
    {
        if self.next == self.paths.len() {
            self.phase = Phase::Done;
            return Ok(ScaffoldStep::Finished);
        }
        let path = &self.paths[self.next];
        proof {
            assert(string_views(self.paths@)[self.next as int] == path@);
        }
        match crate::plan::create_file(
            &self.catalog,
            path.as_str(),
            &self.params,
            self.template_root.as_str(),
        ) {
            Ok(plan) => {
                self.next = self.next + 1;
                self.phase = Phase::Populating;
                Ok(ScaffoldStep::Materialize(plan))
            },
            Err(e) => {
                self.phase = Phase::Failed;
                Err(e)
            },
        }
    }

    /// Records that the driver failed to materialize the entry it was last
    /// handed: the run ends, and entries already written stay on disk.
    pub fn on_entry_failed(&mut self)
        requires
            old(self).wf(),
            old(self).phase == Phase::Populating,
        ensures
            final(self).wf(),
            final(self).same_run(*old(self)),
            final(self).next == old(self).next,
            final(self).phase == Phase::Failed,
    {
        self.phase = Phase::Failed;
    }
}

} // verus!
