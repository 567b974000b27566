use crate::error::Error;
use crate::scalar::Scalar;
use crate::sim::event::Event;
use vstd::prelude::*;

verus! {

/// The constants of a walk.
#[derive(Clone, Copy, Debug, PartialEq, Eq, Structural)]
pub struct Settings {
    /// The number of iterations after which a photon is given up.
    pub loop_limit: u64,
    /// The weight below which a photon plays roulette.
    pub min_weight: Scalar,
    /// The number of barrels: the factor by which a survivor's weight grows.
    pub roulette_barrels: u64,
    /// The chance to survive the roulette: the reciprocal of the number of
    /// barrels, which the caller forms.
    pub roulette_survive_prob: Scalar,
}

/// Why a walk ended.
#[derive(Clone, Copy, Debug, PartialEq, Eq, Structural)]
pub enum Termination {
    /// The photon is no longer inside the domain.
    Escaped,
    /// The photon's weight is spent.
    Exhausted,
    /// The photon lost the roulette.
    Culled,
    /// The loop limit was reached: the photon is given up, with a warning.
    Abandoned,
}

/// What the walk waits for.
#[derive(Clone, Copy, Debug, PartialEq, Eq, Structural)]
pub enum Stage {
    /// Whether the domain contains the photon.
    Containment,
    /// The deposit of the photon's emission, in the first iteration. The
    /// photon's weight is kept for the roulette.
    Emission(Scalar),
    /// The draw that decides the roulette.
    Roulette,
    /// The four candidate distances.
    Distances,
    /// The weight after a voxel, scattering or surface event.
    Effect,
    /// The weight after the boundary's policy was applied.
    Policy,
    /// The weight after the step past the boundary.
    Bump,
    /// Nothing: the walk is over.
    Finished,
}

/// What the caller reports to the walk.
#[derive(Clone, Copy, Debug, PartialEq, Eq, Structural)]
pub enum Observation {
    /// The emission was deposited.
    Emitted,
    /// Whether the domain contains the photon, and the photon's weight.
    Located { contained: bool, weight: Scalar },
    /// A number drawn uniformly from the unit interval.
    Drawn { uniform: Scalar },
    /// The distances to the voxel wall and to the scattering site, to the
    /// nearest surface if there is one within the search bound, and to the
    /// boundary if the boundary contains the photon.
    Measured { voxel: Scalar, scattering: Scalar, surface: Option<Scalar>, boundary: Option<Scalar> },
    /// The photon's weight after what the last action asked for.
    Applied { weight: Scalar },
}

/// What the walk asks of the caller.
#[derive(Clone, Copy, Debug, PartialEq, Eq, Structural)]
pub enum Action {
    /// Report `Located`.
    Locate,
    /// Deposit power times weight in every emission volume that holds the
    /// photon, then report `Emitted`.
    Emit,
    /// Draw a number uniformly from the unit interval and report `Drawn`.
    Draw,
    /// Multiply the photon's weight by `boost` if there is one, measure the
    /// candidate distances and report `Measured`.
    Measure { boost: Option<u64> },
    /// Carry out the event and report `Applied`. A voxel event moves the
    /// photon by the distance and one bump; a scattering event moves it by the
    /// distance, peels off towards the cameras and scatters; a surface event
    /// moves it to the surface, applies the attribute and moves it one bump;
    /// a boundary event moves it to the boundary and applies the policy.
    Perform(Event),
    /// Move the photon one bump and report `Applied`.
    Bump,
    /// Drop the photon: the walk is over.
    Stop(Termination),
}

/// The walk of one photon: the stage it is in and the iterations begun.
#[derive(Clone, Copy, Debug, PartialEq, Eq, Structural)]
pub struct Walk {
    pub stage: Stage,
    pub num_loops: u64,
}

impl Walk {
    /// The walk after `obs` and what it asks for next.
    pub open spec fn advance(self, sett: Settings, obs: Observation) -> (Walk, Result<Action, Error>) {
        match (self.stage, obs) {
            (Stage::Containment, Observation::Located { contained, weight }) => {
                if !contained {
                    self.stop(Termination::Escaped)
                } else if self.num_loops == 0 {
                    (self.at(Stage::Emission(weight)), Ok(Action::Emit))
                } else {
                    self.enter(sett, weight)
                }
            },
            (Stage::Emission(weight), Observation::Emitted) => self.enter(sett, weight),
            (Stage::Roulette, Observation::Drawn { uniform }) => {
                if uniform.gt_spec(sett.roulette_survive_prob) {
                    self.stop(Termination::Culled)
                } else {
                    (
                        self.at(Stage::Distances),
                        Ok(Action::Measure { boost: Some(sett.roulette_barrels) }),
                    )
                }
            },
            (Stage::Distances, Observation::Measured { voxel, scattering, surface, boundary }) => {
                match boundary {
                    None => (self.at(Stage::Finished), Err(Error::NotContained)),
                    Some(edge) => {
                        let event = Event::select(voxel, scattering, surface, edge);
                        if event is Boundary {
                            (self.at(Stage::Policy), Ok(Action::Perform(event)))
                        } else {
                            (self.at(Stage::Effect), Ok(Action::Perform(event)))
                        }
                    },
                }
            },
            (Stage::Policy, Observation::Applied { weight }) => {
                if weight.gt_spec(Scalar::zero_spec()) {
                    (self.at(Stage::Bump), Ok(Action::Bump))
                } else {
                    self.settle(weight)
                }
            },
            (Stage::Effect, Observation::Applied { weight }) => self.settle(weight),
            (Stage::Bump, Observation::Applied { weight }) => self.settle(weight),
            _ => (self, Err(Error::OutOfTurn)),
        }
    }

    /// A bound on the reports that the walk can still take in turn before it
    /// is over: seven for each iteration that the loop limit still allows, and
    /// what is left of the iteration at hand.
    pub open spec fn remaining(self, sett: Settings) -> int {
        let ahead = 7 * (sett.loop_limit - self.num_loops);
        match self.stage {
            Stage::Finished => 0,
            Stage::Emission(_) => ahead + 1,
            Stage::Containment => ahead + 2,
            Stage::Effect => ahead + 3,
            Stage::Bump => ahead + 3,
            Stage::Policy => ahead + 4,
            Stage::Distances => ahead + 5,
            Stage::Roulette => ahead + 6,
        }
    }

    /// The emission was asked for, or the time for it is over.
    pub open spec fn emitted(self) -> bool {
        self.stage is Emission || self.stage == Stage::Finished || self.num_loops > 0
    }

    /// The walk after a row of reports.
    pub open spec fn run(self, sett: Settings, reports: Seq<Observation>) -> Walk
        decreases reports.len(),
    {
        if reports.len() == 0 {
            self
        } else {
            self.run(sett, reports.drop_last()).advance(sett, reports.last()).0
        }
    }

    /// The walk in another stage.
    pub open spec fn at(self, stage: Stage) -> Walk {
        Walk { stage, num_loops: self.num_loops }
    }

    /// The walk in another stage, with one more iteration begun.
    pub open spec fn begun(self, stage: Stage) -> Walk {
        Walk { stage, num_loops: (self.num_loops + 1) as u64 }
    }

    /// The head of an iteration, once the photon is known to be inside and
    /// the emission is deposited: at the loop limit the photon is given up,
    /// a photon that is too light plays roulette, another is measured.
    pub open spec fn enter(self, sett: Settings, weight: Scalar) -> (Walk, Result<Action, Error>) {
        if self.num_loops >= sett.loop_limit {
            self.stop(Termination::Abandoned)
        } else if weight.lt_spec(sett.min_weight) {
            (self.begun(Stage::Roulette), Ok(Action::Draw))
        } else {
            (self.begun(Stage::Distances), Ok(Action::Measure { boost: None }))
        }
    }

    /// The end of the walk.
    pub open spec fn stop(self, why: Termination) -> (Walk, Result<Action, Error>) {
        (self.at(Stage::Finished), Ok(Action::Stop(why)))
    }

    /// The end of an iteration: a photon without weight is dropped, another
    /// goes back to the loop's head.
    pub open spec fn settle(self, weight: Scalar) -> (Walk, Result<Action, Error>) {
        if weight.le_spec(Scalar::zero_spec()) {
            self.stop(Termination::Exhausted)
        } else {
            (self.at(Stage::Containment), Ok(Action::Locate))
        }
    }

    /// A fresh walk and its first action: to find out whether the domain
    /// contains the photon.
    pub fn start() -> (begin: (Walk, Action))
        ensures
            begin == (Walk { stage: Stage::Containment, num_loops: 0 }, Action::Locate),
    {
        (Walk { stage: Stage::Containment, num_loops: 0 }, Action::Locate)
    }

    /// Takes the caller's report and says what to do next.
    pub fn step(&mut self, sett: &Settings, obs: Observation) -> (result: Result<Action, Error>)
        ensures
            (*final(self), result) == old(self).advance(*sett, obs),
    {
        match (self.stage, obs) {
            (Stage::Containment, Observation::Located { contained, weight }) => {
                if !contained {
                    self.stage = Stage::Finished;
                    Ok(Action::Stop(Termination::Escaped))
                } else if self.num_loops == 0 {
                    self.stage = Stage::Emission(weight);
                    Ok(Action::Emit)
                } else {
                    self.begin_iteration(sett, weight)
                }
            },
            (Stage::Emission(weight), Observation::Emitted) => self.begin_iteration(sett, weight),
            (Stage::Roulette, Observation::Drawn { uniform }) => {
                if uniform.gt(sett.roulette_survive_prob) {
                    self.stage = Stage::Finished;
                    Ok(Action::Stop(Termination::Culled))
                } else {
                    self.stage = Stage::Distances;
                    Ok(Action::Measure { boost: Some(sett.roulette_barrels) })
                }
            },
            (Stage::Distances, Observation::Measured { voxel, scattering, surface, boundary }) => {
                match boundary {
                    None => {
                        self.stage = Stage::Finished;
                        Err(Error::NotContained)
                    },
                    Some(edge) => {
                        let event = Event::new(voxel, scattering, surface, edge);
                        self.stage = match event {
                            Event::Boundary(_) => Stage::Policy,
                            _ => Stage::Effect,
                        };
                        Ok(Action::Perform(event))
                    },
                }
            },
            (Stage::Policy, Observation::Applied { weight }) => {
                if weight.gt(Scalar::zero()) {
                    self.stage = Stage::Bump;
                    Ok(Action::Bump)
                } else {
                    self.finish_iteration(weight)
                }
            },
            (Stage::Effect, Observation::Applied { weight }) => self.finish_iteration(weight),
            (Stage::Bump, Observation::Applied { weight }) => self.finish_iteration(weight),
            _ => Err(Error::OutOfTurn),
        }
    }

    fn begin_iteration(&mut self, sett: &Settings, weight: Scalar) -> (result: Result<Action, Error>)
        ensures
            (*final(self), result) == old(self).enter(*sett, weight),
    {
        if self.num_loops >= sett.loop_limit {
            self.stage = Stage::Finished;
            Ok(Action::Stop(Termination::Abandoned))
        } else {
            self.num_loops = self.num_loops + 1;
            if weight.lt(sett.min_weight) {
                self.stage = Stage::Roulette;
                Ok(Action::Draw)
            } else {
                self.stage = Stage::Distances;
                Ok(Action::Measure { boost: None })
            }
        }
    }

    fn finish_iteration(&mut self, weight: Scalar) -> (result: Result<Action, Error>)
        ensures
            (*final(self), result) == old(self).settle(weight),
    {
        if weight.le(Scalar::zero()) {
            self.stage = Stage::Finished;
            Ok(Action::Stop(Termination::Exhausted))
        } else {
            self.stage = Stage::Containment;
            Ok(Action::Locate)
        }
    }
}

/// A photon whose weight is zero or less after an event, after the
/// boundary's policy or after the step past the boundary is dropped at once:
/// nothing more is asked of it.
pub proof fn law_spent_photon_is_dropped(walk: Walk, sett: Settings, weight: Scalar)
    requires
        walk.stage == Stage::Effect || walk.stage == Stage::Policy || walk.stage == Stage::Bump,
        weight.le_spec(Scalar::zero_spec()),
    ensures
        walk.advance(sett, Observation::Applied { weight }) == walk.stop(Termination::Exhausted),
        walk.advance(sett, Observation::Applied { weight }).0.stage == Stage::Finished,
{
}

/// A photon that keeps a weight above zero is never dropped for its weight.
pub proof fn law_weighty_photon_walks_on(walk: Walk, sett: Settings, weight: Scalar)
    requires
        walk.stage == Stage::Effect || walk.stage == Stage::Policy || walk.stage == Stage::Bump,
        weight.gt_spec(Scalar::zero_spec()),
    ensures
        walk.advance(sett, Observation::Applied { weight }).1 == Ok::<Action, Error>(
            if walk.stage == Stage::Policy {
                Action::Bump
            } else {
                Action::Locate
            },
        ),
{
}

/// Where the boundary gives no distance the walk ends with the error
/// `NotContained`, whatever the other distances are; where it gives one, an
/// event is carried out.
pub proof fn law_missing_boundary_is_fatal(
    walk: Walk,
    sett: Settings,
    voxel: Scalar,
    scattering: Scalar,
    surface: Option<Scalar>,
    boundary: Option<Scalar>,
)
    requires
        walk.stage == Stage::Distances,
    ensures
        ({
            let next = walk.advance(
                sett,
                Observation::Measured { voxel, scattering, surface, boundary },
            );
            &&& boundary is None ==> next.1 == Err::<Action, Error>(Error::NotContained)
                && next.0.stage == Stage::Finished
            &&& boundary is Some ==> next.1 == Ok::<Action, Error>(
                Action::Perform(Event::select(voxel, scattering, surface, boundary->0)),
            )
        }),
{
}

/// The roulette is lost by a draw above the chance to survive and by no
/// other; a survivor's weight is to grow by the number of barrels.
pub proof fn law_roulette(walk: Walk, sett: Settings, uniform: Scalar)
    requires
        walk.stage == Stage::Roulette,
    ensures
        ({
            let next = walk.advance(sett, Observation::Drawn { uniform });
            if uniform.gt_spec(sett.roulette_survive_prob) {
                next == walk.stop(Termination::Culled)
            } else {
                next.1 == Ok::<Action, Error>(
                    Action::Measure { boost: Some(sett.roulette_barrels) },
                )
            }
        }),
{
}

/// A photon that is not inside the domain is dropped before anything is
/// done to it, and nothing is deposited for it.
pub proof fn law_photon_outside_is_dropped(walk: Walk, sett: Settings, weight: Scalar)
    requires
        walk.stage == Stage::Containment,
    ensures
        walk.advance(sett, Observation::Located { contained: false, weight }) == walk.stop(
            Termination::Escaped,
        ),
{
}

/// No iteration is begun once the loop limit is reached, and each one that
/// is begun is counted. A photon plays roulette if its weight is below the
/// least weight, and only then.
pub proof fn law_loop_limit(walk: Walk, sett: Settings, weight: Scalar)
    ensures
        ({
            let next = walk.enter(sett, weight);
            &&& walk.num_loops >= sett.loop_limit ==> next == walk.stop(Termination::Abandoned)
            &&& walk.num_loops < sett.loop_limit ==> {
                &&& next.0.num_loops == walk.num_loops + 1
                &&& next.1 == Ok::<Action, Error>(Action::Draw) <==> weight.lt_spec(sett.min_weight)
                &&& next.1 == Ok::<Action, Error>(Action::Measure { boost: None })
                    <==> !weight.lt_spec(sett.min_weight)
            }
        }),
        walk.stage == Stage::Containment && walk.num_loops > 0 ==> walk.advance(
            sett,
            Observation::Located { contained: true, weight },
        ) == walk.enter(sett, weight),
        walk.stage == Stage::Emission(weight) ==> walk.advance(sett, Observation::Emitted)
            == walk.enter(sett, weight),
{
}

/// A walk that is over takes no report: it stays as it is and answers
/// `OutOfTurn`.
pub proof fn law_finished_walk_stays(walk: Walk, sett: Settings, obs: Observation)
    requires
        walk.stage == Stage::Finished,
    ensures
        walk.advance(sett, obs) == (walk, Err::<Action, Error>(Error::OutOfTurn)),
{
}

/// The emission is asked for in the first iteration of a photon that is
/// inside the domain, before the loop limit is looked at, and at no other
/// time.
pub proof fn law_emission_in_first_iteration(walk: Walk, sett: Settings, obs: Observation)
    ensures
        walk.advance(sett, obs).1 == Ok::<Action, Error>(Action::Emit) <==> {
            &&& walk.stage == Stage::Containment
            &&& walk.num_loops == 0
            &&& obs matches Observation::Located { contained, .. }
            &&& contained
        },
        walk.advance(sett, obs).1 == Ok::<Action, Error>(Action::Emit) ==> walk.advance(
            sett,
            obs,
        ).0.emitted(),
{
}

/// The emission is asked for once: whatever is reported after it was asked
/// for, it is not asked for again.
pub proof fn law_emission_once(walk: Walk, sett: Settings, reports: Seq<Observation>, obs: Observation)
    requires
        walk.emitted(),
    ensures
        walk.run(sett, reports).emitted(),
        walk.run(sett, reports).advance(sett, obs).1 != Ok::<Action, Error>(Action::Emit),
    decreases reports.len(),
{
    if reports.len() > 0 {
        law_emission_once(walk, sett, reports.drop_last(), reports.last());
    }
}

/// Whatever is reported, and however often, a walk never begins more
/// iterations than the loop limit allows.
pub proof fn law_iterations_stay_within_limit(walk: Walk, sett: Settings, reports: Seq<Observation>)
    requires
        walk.num_loops <= sett.loop_limit,
    ensures
        walk.run(sett, reports).num_loops <= sett.loop_limit,
        walk.run(sett, reports).num_loops >= walk.num_loops,
    decreases reports.len(),
{
    if reports.len() > 0 {
        law_iterations_stay_within_limit(walk, sett, reports.drop_last());
    }
}

/// A walk that is over stays over, whatever is reported to it.
pub proof fn law_finished_walk_stays_finished(walk: Walk, sett: Settings, reports: Seq<Observation>)
    requires
        walk.stage == Stage::Finished,
    ensures
        walk.run(sett, reports) == walk,
    decreases reports.len(),
{
    if reports.len() > 0 {
        law_finished_walk_stays_finished(walk, sett, reports.drop_last());
    }
}

/// Every report that is taken in turn brings the walk nearer to its end: the
/// loop limit bounds the length of a walk, whatever the photon does.
pub proof fn law_walk_ends(walk: Walk, sett: Settings, obs: Observation)
    requires
        walk.num_loops <= sett.loop_limit,
        walk.advance(sett, obs).1 != Err::<Action, Error>(Error::OutOfTurn),
    ensures
        walk.advance(sett, obs).0.num_loops <= sett.loop_limit,
        0 <= walk.advance(sett, obs).0.remaining(sett) < walk.remaining(sett),
        walk.remaining(sett) <= 7 * sett.loop_limit + 6,
{
}

} // verus!
