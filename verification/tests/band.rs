use photon_transport::scalar::Scalar;
use photon_transport::sim::band::{Band, NM_380, NM_440, NM_490, NM_510, NM_580, NM_645, NM_750};

fn band(nm: f64) -> Option<Band> {
    Band::of(Scalar::from_bits(nm.to_bits()))
}

#[test]
fn the_edges_are_the_wavelengths_they_are_named_after() {
    assert_eq!(f64::from_bits(NM_380), 380.0);
    assert_eq!(f64::from_bits(NM_440), 440.0);
    assert_eq!(f64::from_bits(NM_490), 490.0);
    assert_eq!(f64::from_bits(NM_510), 510.0);
    assert_eq!(f64::from_bits(NM_580), 580.0);
    assert_eq!(f64::from_bits(NM_645), 645.0);
    assert_eq!(f64::from_bits(NM_750), 750.0);
}

#[test]
fn an_edge_belongs_to_the_band_above_it() {
    assert_eq!(band(380.0), None);
    assert_eq!(band(380.000_001), Some(Band::Violet));
    assert_eq!(band(440.0), Some(Band::Blue));
    assert_eq!(band(490.0), Some(Band::Cyan));
    assert_eq!(band(510.0), Some(Band::Green));
    assert_eq!(band(580.0), Some(Band::Orange));
    assert_eq!(band(645.0), Some(Band::Red));
    assert_eq!(band(750.0), None);
}

#[test]
fn just_below_an_edge_is_the_band_below_it() {
    assert_eq!(band(379.999_999), None);
    assert_eq!(band(439.999_999), Some(Band::Violet));
    assert_eq!(band(489.999_999), Some(Band::Blue));
    assert_eq!(band(509.999_999), Some(Band::Cyan));
    assert_eq!(band(579.999_999), Some(Band::Green));
    assert_eq!(band(644.999_999), Some(Band::Orange));
    assert_eq!(band(749.999_999), Some(Band::Red));
}

#[test]
fn what_is_not_visible_has_no_band() {
    assert_eq!(band(0.0), None);
    assert_eq!(band(-0.0), None);
    assert_eq!(band(300.0), None);
    assert_eq!(band(380.0), None);
    assert_eq!(band(-500.0), None);
    assert_eq!(band(200.0), None);
    assert_eq!(band(751.0), None);
    assert_eq!(band(1.0e9), None);
    assert_eq!(band(f64::INFINITY), None);
    assert_eq!(band(f64::NEG_INFINITY), None);
    assert_eq!(band(f64::NAN), None);
    assert_eq!(band(5.5e-7), None);
}

#[test]
fn every_visible_wavelength_has_its_band() {
    let mut nm = 380.25;
    while nm < 750.0 {
        let expected = if nm < 440.0 {
            Band::Violet
        } else if nm < 490.0 {
            Band::Blue
        } else if nm < 510.0 {
            Band::Cyan
        } else if nm < 580.0 {
            Band::Green
        } else if nm < 645.0 {
            Band::Orange
        } else {
            Band::Red
        };
        assert_eq!(band(nm), Some(expected), "{}", nm);
        nm += 0.25;
    }
}
