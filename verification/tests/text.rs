use photon_transport::error::{Context, Error};
use photon_transport::ord::multiset::MultiSet;
use photon_transport::ord::name_set::NameSet;
use photon_transport::sim::attribute::report::{Heading, Label};

#[test]
fn a_missing_key_is_named_in_the_message() {
    let error = Error::MissingKey { context: Context::Ccd, name: "eye".to_owned() };
    assert_eq!(error.message(), "Failed to link attribute-ccd key: eye");
    let error = Error::MissingKey { context: Context::Interface, name: "fog".to_owned() };
    assert_eq!(error.message(), "Failed to link attribute-interface key: fog");
    let error = Error::MissingKey { context: Context::Imager, name: "".to_owned() };
    assert_eq!(error.message(), "Failed to link attribute-imager key: ");
    let error = Error::MissingKey { context: Context::Spectrometer, name: "prism".to_owned() };
    assert_eq!(error.message(), "Failed to link attribute-spectrometer key: prism");
}

#[test]
fn the_other_errors_have_their_messages() {
    assert_eq!(
        Error::DuplicateName { name: "air".to_owned() }.message(),
        "Set names must be unique, but this name is not: air"
    );
    assert_eq!(Error::NotContained.message(), "Photon not contained in boundary.");
    assert_eq!(Error::OutOfTurn.message(), "Observation out of turn.");
}

#[test]
fn headings_and_labels_have_their_words() {
    assert_eq!(Heading::Interface.text(), "Interface");
    assert_eq!(Heading::Mirror.text(), "Mirror");
    assert_eq!(Heading::Spectrometer.text(), "Spectrometer");
    assert_eq!(Heading::Imager.text(), "Imager");
    assert_eq!(Heading::Ccd.text(), "Ccd");
    assert_eq!(Heading::Reflector.text(), "Reflector");
    assert_eq!(Heading::PhotonCollector.text(), "Photon Collector");
    assert_eq!(Heading::AttributeChain.text(), "Attribute Chain");
    assert_eq!(Heading::Rasterise.text(), "Rasterise");
    assert_eq!(Heading::Hyperspectral.text(), "Hyperspectral");
    assert_eq!(Label::Name.text(), "name");
    assert_eq!(Label::Id.text(), "id");
    assert_eq!(Label::Width.text(), "width (m)");
    assert_eq!(Label::Center.text(), "center (m)");
    assert_eq!(Label::Forward.text(), "forward");
    assert_eq!(Label::Resolution.text(), "resolution");
    assert_eq!(Label::Binner.text(), "binner");
    assert_eq!(Label::Reflectance.text(), "reflectance");
    assert_eq!(Label::Orientation.text(), "orientation");
    assert_eq!(Label::Inside.text(), "inside");
    assert_eq!(Label::Outside.text(), "outside");
    assert_eq!(Label::Absorption.text(), "absorption");
    assert_eq!(Label::Range.text(), "range");
    assert_eq!(Label::Bins.text(), "bins");
    assert_eq!(Context::Ccd.text(), "ccd");
}

#[test]
fn pairs_go_in_and_come_out_in_order() {
    let pairs = vec![("b".to_owned(), 2), ("a".to_owned(), 1), ("c".to_owned(), 3)];
    let set = NameSet::from_pairs(pairs.clone()).unwrap();
    assert_eq!(set.len(), 3);
    assert_eq!(set.position(&"a".to_owned()), Some(1));
    assert_eq!(set.into_pairs(), pairs);
}

#[test]
fn pairs_with_one_name_twice_make_no_set() {
    let pairs = vec![
        ("b".to_owned(), 2),
        ("a".to_owned(), 1),
        ("c".to_owned(), 3),
        ("a".to_owned(), 4),
        ("b".to_owned(), 5),
    ];
    assert_eq!(
        NameSet::from_pairs(pairs).unwrap_err(),
        Error::DuplicateName { name: "a".to_owned() }
    );
}

#[test]
fn the_sets_of_a_multiset_are_counted() {
    let one: MultiSet<u8> = MultiSet::Single(NameSet::empty());
    assert_eq!(one.len(), 1);
    let three: MultiSet<u8> = MultiSet::Multi(vec![NameSet::empty(), NameSet::empty(), NameSet::empty()]);
    assert_eq!(three.len(), 3);
    let none: MultiSet<u8> = MultiSet::Multi(Vec::new());
    assert_eq!(none.len(), 0);
}
