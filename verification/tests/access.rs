use photon_transport::sim::engine::Settings;
use photon_transport::scalar::Scalar;

/// Test implementation structure.
pub struct Testy {
    /// Immutable parameter.
    a: String,
    /// Mutable parameter.
    b: String,
}

impl Testy {
    #[allow(dead_code)]
    pub fn a(&self) -> &String {
        &self.a
    }

    pub fn b(&self) -> &String {
        &self.b
    }

    pub fn b_mut(&mut self) -> &mut String {
        &mut self.b
    }
}

/// A simple test for immutable access with a getter.
#[test]
fn test_access() {
    let testy = Testy {
        a: "one".to_owned(),
        b: "two".to_owned(),
    };

    assert_eq!(testy.a(), &"one");
    assert_eq!(testy.b(), &"two");
}

/// A simple test for mutable access with a setter.
#[test]
fn test_mut_access() {
    let mut testy = Testy {
        a: "one".to_owned(),
        b: "two".to_owned(),
    };

    *testy.b_mut() = "three".to_owned();

    assert_eq!(testy.b(), &"three");
}

#[test]
fn settings_fields_are_read_and_written() {
    let mut sett = Settings {
        loop_limit: 100,
        min_weight: Scalar::from_bits(0.01f64.to_bits()),
        roulette_barrels: 10,
        roulette_survive_prob: Scalar::from_bits(0.1f64.to_bits()),
    };
    assert_eq!(sett.loop_limit, 100);
    sett.loop_limit = 7;
    assert_eq!(sett.loop_limit, 7);
    assert_eq!(f64::from_bits(sett.min_weight.to_bits()), 0.01);
}
