use photon_transport::error::Error;
use photon_transport::scalar::Scalar;
use photon_transport::sim::engine::{Action, Observation, Settings, Stage, Termination, Walk};
use photon_transport::sim::event::Event;

fn s(x: f64) -> Scalar {
    Scalar::from_bits(x.to_bits())
}

fn settings() -> Settings {
    Settings {
        loop_limit: 1000,
        min_weight: s(0.01),
        roulette_barrels: 10,
        roulette_survive_prob: s(1.0 / 10.0),
    }
}

fn measured(voxel: f64, scattering: f64, surface: Option<f64>, boundary: Option<f64>) -> Observation {
    Observation::Measured {
        voxel: s(voxel),
        scattering: s(scattering),
        surface: surface.map(s),
        boundary: boundary.map(s),
    }
}

/// A walk of a photon of the given weight that is inside the domain and
/// whose emission has just been asked for.
fn walk_at_emission(sett: &Settings, weight: f64) -> Walk {
    let (mut walk, action) = Walk::start();
    assert_eq!(action, Action::Locate);
    assert_eq!(
        walk.step(sett, Observation::Located { contained: true, weight: s(weight) }),
        Ok(Action::Emit)
    );
    assert_eq!(walk.stage, Stage::Emission(s(weight)));
    walk
}

/// A walk that has just been asked to measure the distances.
fn walk_at_distances(sett: &Settings) -> Walk {
    let mut walk = walk_at_emission(sett, 1.0);
    assert_eq!(walk.step(sett, Observation::Emitted), Ok(Action::Measure { boost: None }));
    walk
}

#[test]
fn a_collector_in_the_way_ends_the_walk() {
    let sett = settings();
    let (mut walk, action) = Walk::start();
    assert_eq!(action, Action::Locate);
    assert_eq!(
        walk.step(&sett, Observation::Located { contained: true, weight: s(1.0) }),
        Ok(Action::Emit)
    );
    assert_eq!(walk.step(&sett, Observation::Emitted), Ok(Action::Measure { boost: None }));
    assert_eq!(
        walk.step(&sett, measured(20.0, f64::INFINITY, Some(5.0), Some(10.0))),
        Ok(Action::Perform(Event::Surface(s(5.0))))
    );
    assert_eq!(
        walk.step(&sett, Observation::Applied { weight: s(0.0) }),
        Ok(Action::Stop(Termination::Exhausted))
    );
    assert_eq!(walk.stage, Stage::Finished);
    assert_eq!(walk.num_loops, 1);
}

#[test]
fn a_collector_that_spares_the_photon_lets_it_reach_the_boundary() {
    let sett = settings();
    let mut walk = walk_at_distances(&sett);
    assert_eq!(
        walk.step(&sett, measured(20.0, f64::INFINITY, Some(5.0), Some(10.0))),
        Ok(Action::Perform(Event::Surface(s(5.0))))
    );
    assert_eq!(walk.step(&sett, Observation::Applied { weight: s(1.0) }), Ok(Action::Locate));
    assert_eq!(
        walk.step(&sett, Observation::Located { contained: true, weight: s(1.0) }),
        Ok(Action::Measure { boost: None })
    );
    assert_eq!(
        walk.step(&sett, measured(15.0, f64::INFINITY, None, Some(5.0))),
        Ok(Action::Perform(Event::Boundary(s(5.0))))
    );
    assert_eq!(walk.stage, Stage::Policy);
    assert_eq!(walk.step(&sett, Observation::Applied { weight: s(1.0) }), Ok(Action::Bump));
    assert_eq!(walk.step(&sett, Observation::Applied { weight: s(1.0) }), Ok(Action::Locate));
    assert_eq!(
        walk.step(&sett, Observation::Located { contained: false, weight: s(1.0) }),
        Ok(Action::Stop(Termination::Escaped))
    );
    assert_eq!(walk.num_loops, 2);
}

#[test]
fn a_photon_killed_at_the_boundary_takes_no_bump() {
    let sett = settings();
    let mut walk = walk_at_distances(&sett);
    assert_eq!(
        walk.step(&sett, measured(15.0, 12.0, None, Some(5.0))),
        Ok(Action::Perform(Event::Boundary(s(5.0))))
    );
    assert_eq!(
        walk.step(&sett, Observation::Applied { weight: s(0.0) }),
        Ok(Action::Stop(Termination::Exhausted))
    );
}

#[test]
fn a_spent_photon_is_dropped_in_the_same_iteration() {
    let sett = settings();
    for weight in [0.0, -0.0, -0.5, f64::NEG_INFINITY] {
        for stage in [Stage::Effect, Stage::Policy, Stage::Bump] {
            let mut walk = Walk { stage, num_loops: 3 };
            assert_eq!(
                walk.step(&sett, Observation::Applied { weight: s(weight) }),
                Ok(Action::Stop(Termination::Exhausted))
            );
            assert_eq!(walk.stage, Stage::Finished);
        }
    }
    let mut walk = Walk { stage: Stage::Effect, num_loops: 3 };
    assert_eq!(
        walk.step(&sett, Observation::Applied { weight: s(f64::MIN_POSITIVE) }),
        Ok(Action::Locate)
    );
}

#[test]
fn a_boundary_without_a_distance_is_fatal() {
    let sett = settings();
    let mut walk = walk_at_distances(&sett);
    assert_eq!(walk.step(&sett, measured(1.0, 2.0, Some(0.5), None)), Err(Error::NotContained));
    assert_eq!(walk.stage, Stage::Finished);
    assert_eq!(walk.step(&sett, Observation::Emitted), Err(Error::OutOfTurn));
    assert_eq!(
        walk.step(&sett, Observation::Located { contained: true, weight: s(1.0) }),
        Err(Error::OutOfTurn)
    );
}

#[test]
fn a_voxel_wall_and_a_scattering_site_at_one_distance() {
    let sett = settings();
    let mut walk = walk_at_distances(&sett);
    assert_eq!(
        walk.step(&sett, measured(2.0, 2.0, Some(3.0), Some(4.0))),
        Ok(Action::Perform(Event::Voxel(s(2.0))))
    );
    assert_eq!(walk.stage, Stage::Effect);
}

#[test]
fn one_draw_in_ten_survives_the_roulette() {
    let sett = settings();
    let trials: u32 = 1000;
    let mut survivors: u32 = 0;
    for k in 0..trials {
        let uniform = f64::from(k) / f64::from(trials);
        let mut walk = walk_at_emission(&sett, 0.001);
        assert_eq!(walk.step(&sett, Observation::Emitted), Ok(Action::Draw));
        match walk.step(&sett, Observation::Drawn { uniform: s(uniform) }) {
            Ok(Action::Measure { boost }) => {
                assert_eq!(boost, Some(10));
                assert!(uniform <= 0.1);
                survivors += 1;
            }
            Ok(Action::Stop(why)) => {
                assert_eq!(why, Termination::Culled);
                assert!(uniform > 0.1);
            }
            other => panic!("{:?}", other),
        }
    }
    let rate = f64::from(survivors) / f64::from(trials);
    assert!((rate - 0.1).abs() < 0.005, "{}", rate);
}

#[test]
fn a_photon_of_enough_weight_plays_no_roulette() {
    let sett = settings();
    let mut walk = walk_at_emission(&sett, 0.01);
    assert_eq!(walk.step(&sett, Observation::Emitted), Ok(Action::Measure { boost: None }));
    let mut later = Walk { stage: Stage::Containment, num_loops: 5 };
    assert_eq!(
        later.step(&sett, Observation::Located { contained: true, weight: s(0.01) }),
        Ok(Action::Measure { boost: None })
    );
    assert_eq!(later.num_loops, 6);
    let mut light = Walk { stage: Stage::Containment, num_loops: 5 };
    assert_eq!(
        light.step(&sett, Observation::Located { contained: true, weight: s(0.009) }),
        Ok(Action::Draw)
    );
}

#[test]
fn the_loop_limit_gives_the_photon_up() {
    let sett = Settings { loop_limit: 3, ..settings() };
    let (mut walk, _) = Walk::start();
    for round in 0..3u64 {
        assert_eq!(walk.num_loops, round);
        let asked = walk.step(&sett, Observation::Located { contained: true, weight: s(1.0) });
        if round == 0 {
            assert_eq!(asked, Ok(Action::Emit));
            assert_eq!(walk.step(&sett, Observation::Emitted), Ok(Action::Measure { boost: None }));
        } else {
            assert_eq!(asked, Ok(Action::Measure { boost: None }));
        }
        assert_eq!(
            walk.step(&sett, measured(1.0, 2.0, None, Some(9.0))),
            Ok(Action::Perform(Event::Voxel(s(1.0))))
        );
        assert_eq!(walk.step(&sett, Observation::Applied { weight: s(1.0) }), Ok(Action::Locate));
    }
    assert_eq!(
        walk.step(&sett, Observation::Located { contained: true, weight: s(1.0) }),
        Ok(Action::Stop(Termination::Abandoned))
    );
    assert_eq!(walk.num_loops, 3);
}

#[test]
fn a_photon_outside_the_domain_deposits_nothing() {
    let sett = settings();
    let (mut walk, action) = Walk::start();
    assert_eq!(action, Action::Locate);
    assert_eq!(
        walk.step(&sett, Observation::Located { contained: false, weight: s(1.0) }),
        Ok(Action::Stop(Termination::Escaped))
    );
    assert_eq!(walk.stage, Stage::Finished);
    assert_eq!(walk.num_loops, 0);
}

#[test]
fn the_emission_is_deposited_before_the_loop_limit_is_looked_at() {
    let sett = Settings { loop_limit: 0, ..settings() };
    let mut walk = walk_at_emission(&sett, 1.0);
    assert_eq!(walk.step(&sett, Observation::Emitted), Ok(Action::Stop(Termination::Abandoned)));
    assert_eq!(walk.num_loops, 0);
}

#[test]
fn the_emission_is_deposited_once() {
    let sett = settings();
    let mut walk = walk_at_distances(&sett);
    let mut emissions = 1;
    for _ in 0..20 {
        assert_eq!(
            walk.step(&sett, measured(1.0, 2.0, None, Some(9.0))),
            Ok(Action::Perform(Event::Voxel(s(1.0))))
        );
        assert_eq!(walk.step(&sett, Observation::Applied { weight: s(1.0) }), Ok(Action::Locate));
        match walk.step(&sett, Observation::Located { contained: true, weight: s(1.0) }) {
            Ok(Action::Emit) => emissions += 1,
            Ok(Action::Measure { boost: None }) => {}
            other => panic!("{:?}", other),
        }
    }
    assert_eq!(emissions, 1);
    assert_eq!(walk.num_loops, 21);
}

#[test]
fn a_report_out_of_turn_changes_nothing() {
    let sett = settings();
    let (mut walk, _) = Walk::start();
    let before = walk;
    assert_eq!(walk.step(&sett, Observation::Applied { weight: s(1.0) }), Err(Error::OutOfTurn));
    assert_eq!(walk, before);
    assert_eq!(walk.step(&sett, Observation::Drawn { uniform: s(0.5) }), Err(Error::OutOfTurn));
    assert_eq!(walk.step(&sett, Observation::Emitted), Err(Error::OutOfTurn));
    assert_eq!(walk, before);
    assert_eq!(
        walk.step(&sett, Observation::Located { contained: true, weight: s(1.0) }),
        Ok(Action::Emit)
    );
    assert_eq!(
        walk.step(&sett, Observation::Located { contained: true, weight: s(1.0) }),
        Err(Error::OutOfTurn)
    );
}
