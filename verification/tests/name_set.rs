use photon_transport::error::Error;
use photon_transport::ord::multiset::MultiSet;
use photon_transport::ord::name_set::NameSet;

fn name(text: &str) -> String {
    text.to_owned()
}

fn set_of(pairs: &[(&str, u32)]) -> NameSet<u32> {
    let mut set = NameSet::empty();
    for (key, value) in pairs {
        set = set.with(name(key), *value).unwrap();
    }
    set
}

#[test]
fn an_empty_set_has_nothing() {
    let set: NameSet<u32> = NameSet::empty();
    assert_eq!(set.len(), 0);
    assert_eq!(set.get(&name("air")), None);
    assert_eq!(set.position(&name("air")), None);
}

#[test]
fn values_are_found_by_name() {
    let set = set_of(&[("air", 1), ("glass", 2), ("water", 3)]);
    assert_eq!(set.len(), 3);
    assert_eq!(set.get(&name("air")), Some(&1));
    assert_eq!(set.get(&name("glass")), Some(&2));
    assert_eq!(set.get(&name("water")), Some(&3));
    assert_eq!(set.get(&name("fog")), None);
    assert_eq!(set.position(&name("water")), Some(2));
}

#[test]
fn a_name_is_taken_once() {
    let set = set_of(&[("air", 1), ("glass", 2)]);
    let error = set.with(name("air"), 9).unwrap_err();
    assert_eq!(error, Error::DuplicateName { name: name("air") });
}

#[test]
fn sets_combine_in_order() {
    let set = set_of(&[("air", 1), ("glass", 2)]).combine(set_of(&[("water", 3), ("fog", 4)])).unwrap();
    assert_eq!(set.len(), 4);
    assert_eq!(set.position(&name("air")), Some(0));
    assert_eq!(set.position(&name("glass")), Some(1));
    assert_eq!(set.position(&name("water")), Some(2));
    assert_eq!(set.position(&name("fog")), Some(3));
    assert_eq!(set.get(&name("fog")), Some(&4));
}

#[test]
fn combining_fails_on_the_first_shared_name() {
    let error = set_of(&[("air", 1), ("glass", 2), ("fog", 5)])
        .combine(set_of(&[("water", 3), ("fog", 4), ("air", 6)]))
        .unwrap_err();
    assert_eq!(error, Error::DuplicateName { name: name("fog") });
}

#[test]
fn a_single_set_loads_as_itself() {
    let set = MultiSet::Single(set_of(&[("air", 1), ("glass", 2)])).load().unwrap();
    assert_eq!(set.len(), 2);
    assert_eq!(set.get(&name("glass")), Some(&2));
}

#[test]
fn several_sets_load_as_one() {
    let multi = MultiSet::Multi(vec![
        set_of(&[("air", 1)]),
        set_of(&[]),
        set_of(&[("glass", 2), ("water", 3)]),
    ]);
    let set = multi.load().unwrap();
    assert_eq!(set.len(), 3);
    assert_eq!(set.position(&name("air")), Some(0));
    assert_eq!(set.position(&name("glass")), Some(1));
    assert_eq!(set.position(&name("water")), Some(2));
    assert_eq!(set.get(&name("water")), Some(&3));
}

#[test]
fn no_sets_load_as_the_empty_set() {
    let multi: MultiSet<u32> = MultiSet::Multi(Vec::new());
    assert_eq!(multi.load().unwrap().len(), 0);
}

#[test]
fn loading_fails_on_the_first_name_that_stands_twice() {
    let multi = MultiSet::Multi(vec![
        set_of(&[("air", 1), ("glass", 2)]),
        set_of(&[("water", 3)]),
        set_of(&[("fog", 4), ("glass", 5), ("air", 6)]),
    ]);
    assert_eq!(multi.load().unwrap_err(), Error::DuplicateName { name: name("glass") });
}
