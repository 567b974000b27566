use crate::geom::Orient;
use crate::math::{Point3, Vec3};
use crate::phys::Reflectance;
use crate::scalar::Scalar;
use crate::tools::{Binner, Range};
use vstd::prelude::*;

verus! {

/// The kind of an attribute, as a report names it.
#[derive(Clone, Copy, Debug, PartialEq, Eq, Structural)]
pub enum Heading {
    Interface,
    Mirror,
    Spectrometer,
    Imager,
    Ccd,
    Reflector,
    PhotonCollector,
    AttributeChain,
    Rasterise,
    Hyperspectral,
}

impl Heading {
    /// The heading in words.
    pub open spec fn text_spec(self) -> Seq<char> {
        match self {
            Heading::Interface => "Interface"@,
            Heading::Mirror => "Mirror"@,
            Heading::Spectrometer => "Spectrometer"@,
            Heading::Imager => "Imager"@,
            Heading::Ccd => "Ccd"@,
            Heading::Reflector => "Reflector"@,
            Heading::PhotonCollector => "Photon Collector"@,
            Heading::AttributeChain => "Attribute Chain"@,
            Heading::Rasterise => "Rasterise"@,
            Heading::Hyperspectral => "Hyperspectral"@,
        }
    }

    /// The heading in words.
    pub fn text(self) -> (text: &'static str)
        ensures
            text@ == self.text_spec(),
    {
        match self {
            Heading::Interface => "Interface",
            Heading::Mirror => "Mirror",
            Heading::Spectrometer => "Spectrometer",
            Heading::Imager => "Imager",
            Heading::Ccd => "Ccd",
            Heading::Reflector => "Reflector",
            Heading::PhotonCollector => "Photon Collector",
            Heading::AttributeChain => "Attribute Chain",
            Heading::Rasterise => "Rasterise",
            Heading::Hyperspectral => "Hyperspectral",
        }
    }
}

/// What a line of a report tells.
#[derive(Clone, Copy, Debug, PartialEq, Eq, Structural)]
pub enum Label {
    Inside,
    Outside,
    Absorption,
    Name,
    Id,
    Range,
    Bins,
    Resolution,
    Width,
    Center,
    Forward,
    Orientation,
    Binner,
    Reflectance,
}

impl Label {
    /// The label in words.
    pub open spec fn text_spec(self) -> Seq<char> {
        match self {
            Label::Inside => "inside"@,
            Label::Outside => "outside"@,
            Label::Absorption => "absorption"@,
            Label::Name => "name"@,
            Label::Id => "id"@,
            Label::Range => "range"@,
            Label::Bins => "bins"@,
            Label::Resolution => "resolution"@,
            Label::Width => "width (m)"@,
            Label::Center => "center (m)"@,
            Label::Forward => "forward"@,
            Label::Orientation => "orientation"@,
            Label::Binner => "binner"@,
            Label::Reflectance => "reflectance"@,
        }
    }

    /// The label in words.
    pub fn text(self) -> (text: &'static str)
        ensures
            text@ == self.text_spec(),
    {
        match self {
            Label::Inside => "inside",
            Label::Outside => "outside",
            Label::Absorption => "absorption",
            Label::Name => "name",
            Label::Id => "id",
            Label::Range => "range",
            Label::Bins => "bins",
            Label::Resolution => "resolution",
            Label::Width => "width (m)",
            Label::Center => "center (m)",
            Label::Forward => "forward",
            Label::Orientation => "orientation",
            Label::Binner => "binner",
            Label::Reflectance => "reflectance",
        }
    }
}

/// The value that a line of a report tells.
#[derive(Clone, Debug, PartialEq, Eq)]
pub enum Value {
    Name(String),
    Index(usize),
    Number(Scalar),
    Resolution([usize; 2]),
    Point(Point3),
    Direction(Vec3),
    Frame(Orient),
    Range(Range),
    Binner(Binner),
    Reflectance(Reflectance),
}

/// A line of a report: the heading of an attribute, or one of its fields.
#[derive(Clone, Debug, PartialEq, Eq)]
pub enum Line {
    Heading(Heading),
    Field(Label, Value),
}

} // verus!
