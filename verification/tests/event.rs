use photon_transport::scalar::Scalar;
use photon_transport::sim::event::{is_nearest, search_bound, Event};

fn s(x: f64) -> Scalar {
    Scalar::from_bits(x.to_bits())
}

#[test]
fn voxel_precedes_scattering_at_one_distance() {
    let event = Event::new(s(2.0), s(2.0), Some(s(3.0)), s(4.0));
    assert_eq!(event, Event::Voxel(s(2.0)));
}

#[test]
fn ties_go_by_precedence() {
    assert_eq!(Event::new(s(1.0), s(1.0), Some(s(1.0)), s(1.0)), Event::Voxel(s(1.0)));
    assert_eq!(Event::new(s(2.0), s(1.0), Some(s(1.0)), s(1.0)), Event::Scattering(s(1.0)));
    assert_eq!(Event::new(s(2.0), s(2.0), Some(s(1.0)), s(1.0)), Event::Surface(s(1.0)));
    assert_eq!(Event::new(s(2.0), s(2.0), Some(s(2.0)), s(1.0)), Event::Boundary(s(1.0)));
}

#[test]
fn the_nearest_event_happens() {
    assert_eq!(Event::new(s(0.5), s(2.0), Some(s(3.0)), s(4.0)), Event::Voxel(s(0.5)));
    assert_eq!(Event::new(s(2.5), s(2.0), Some(s(3.0)), s(4.0)), Event::Scattering(s(2.0)));
    assert_eq!(Event::new(s(3.5), s(3.25), Some(s(3.0)), s(4.0)), Event::Surface(s(3.0)));
    assert_eq!(Event::new(s(5.5), s(6.0), Some(s(7.0)), s(4.0)), Event::Boundary(s(4.0)));
    assert_eq!(Event::new(s(5.5), s(6.0), None, s(4.0)), Event::Boundary(s(4.0)));
    assert_eq!(Event::new(s(5.5), s(3.0), None, s(4.0)), Event::Scattering(s(3.0)));
}

#[test]
fn an_endless_free_path_never_scatters() {
    let event = Event::new(s(20.0), s(f64::INFINITY), Some(s(5.0)), s(10.0));
    assert_eq!(event, Event::Surface(s(5.0)));
    assert_eq!(event.dist(), s(5.0));
}

#[test]
fn a_distance_that_is_no_number_leaves_the_boundary() {
    assert_eq!(Event::new(s(f64::NAN), s(1.0), None, s(4.0)), Event::Boundary(s(4.0)));
    assert_eq!(Event::new(s(1.0), s(f64::NAN), None, s(4.0)), Event::Boundary(s(4.0)));
    assert_eq!(Event::new(s(1.0), s(2.0), Some(s(f64::NAN)), s(4.0)), Event::Boundary(s(4.0)));
}

#[test]
fn nearest_is_no_farther_than_any() {
    assert!(is_nearest(s(1.0), s(1.0), s(2.0), None, s(3.0)));
    assert!(!is_nearest(s(2.0), s(1.0), s(2.0), None, s(3.0)));
    assert!(!is_nearest(s(1.0), s(1.0), s(2.0), Some(s(0.5)), s(3.0)));
}

#[test]
fn the_search_for_a_surface_is_bounded_by_the_nearer() {
    assert_eq!(search_bound(s(2.0), s(3.0)), s(2.0));
    assert_eq!(search_bound(s(3.0), s(2.0)), s(2.0));
    assert_eq!(search_bound(s(3.0), s(f64::INFINITY)), s(3.0));
}
