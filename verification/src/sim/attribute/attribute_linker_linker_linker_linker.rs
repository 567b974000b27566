use crate::error::{Context, Error};
use crate::geom::Orient;
use crate::math::{Point3, Vec3};
use crate::ord::name_set::NameSet;
use crate::phys::Reflectance;
use crate::scalar::Scalar;
use crate::sim::attribute::attribute_material_linker::AttributeMaterialLinker;
use crate::sim::attribute::link::{
    first_missing, lemma_missing_in_row, lemma_resolved_row, reports_first_missing, resolved,
    Reference,
};
use crate::sim::attribute::report::{Heading, Label, Line, Value};
use crate::tools::{Binner, Range};
use vstd::prelude::*;

verus! {

/// A surface attribute as a scene describes it: detectors and materials by name.
#[derive(Debug, PartialEq, Eq)]
pub enum AttributeLinkerLinkerLinkerLinker {
    /// Material interface, inside material name, outside material name.
    Interface(String, String),
    /// Partially reflective mirror, reflection fraction.
    Mirror(Scalar),
    /// Spectrometer name, range, resolution.
    Spectrometer(String, Range, usize),
    /// Imager name, resolution, horizontal width, center, forward direction.
    Imager(String, [usize; 2], Scalar, Point3, Vec3),
    /// Ccd name, resolution, horizontal width, center, forward direction, wavelength binner.
    Ccd(String, [usize; 2], Scalar, Point3, Vec3, Binner),
    /// A purely reflecting material, with its reflectance.
    Reflector(Reflectance),
    /// A photon collector, by its index.
    PhotonCollector(usize),
    /// A chain of attributes, which are applied in order.
    AttributeChain(Vec<AttributeLinkerLinkerLinkerLinker>),
    /// An output into the output plane of this index.
    Rasterise(usize),
    /// An output into the output volume of this index.
    Hyperspectral(usize),
}

impl Clone for AttributeLinkerLinkerLinkerLinker {
    /// A copy of the attribute.
    fn clone(&self) -> (copy: Self)
        ensures
            self.copied_as(copy),
        decreases self,
    {
        match self {
            Self::Interface(inside, outside) => Self::Interface(inside.clone(), outside.clone()),
            Self::Mirror(fraction) => Self::Mirror(*fraction),
            Self::Spectrometer(name, range, bins) => Self::Spectrometer(name.clone(), *range, *bins),
            Self::Imager(name, resolution, width, center, forward) => Self::Imager(
                name.clone(),
                *resolution,
                *width,
                *center,
                *forward,
            ),
            Self::Ccd(name, resolution, width, center, forward, binner) => Self::Ccd(
                name.clone(),
                *resolution,
                *width,
                *center,
                *forward,
                *binner,
            ),
            Self::Reflector(reflectance) => Self::Reflector(*reflectance),
            Self::PhotonCollector(id) => Self::PhotonCollector(*id),
            Self::AttributeChain(attrs) => {
                let mut copies: Vec<Self> = Vec::new();
                let mut i: usize = 0;
                while i < attrs.len()
                    invariant
                        i <= attrs.len(),
                        *self == Self::AttributeChain(*attrs),
                        copies@.len() == i,
                        forall|j: int| 0 <= j < i ==> (#[trigger] attrs@[j]).copied_as(copies@[j]),
                    decreases attrs.len() - i,
                {
                    proof {
                        vstd::std_specs::vec::axiom_vec_index_decreases(*attrs, i as int);
                        assert(decreases_to!(*self => self->AttributeChain_0));
                    }
                    copies.push(attrs[i].clone());
                    i = i + 1;
                }
                Self::AttributeChain(copies)
            },
            Self::Rasterise(id) => Self::Rasterise(*id),
            Self::Hyperspectral(id) => Self::Hyperspectral(*id),
        }
    }
}

impl AttributeLinkerLinkerLinkerLinker {
    /// `copy` is this attribute over again: the same but for the vectors that
    /// hold the attributes of its chains, which hold copies in the same order.
    pub open spec fn copied_as(self, copy: Self) -> bool
        decreases self,
    {
        match self {
            Self::AttributeChain(attrs) => {
                &&& copy matches Self::AttributeChain(copies)
                &&& copies@.len() == attrs@.len()
                &&& forall|i: int|
                    0 <= i < attrs@.len() ==> (#[trigger] attrs@[i]).copied_as(copies@[i])
            },
            _ => copy == self,
        }
    }

    /// The reports of a chain's attributes, in the chain's order.
    pub open spec fn rows(attrs: Seq<Self>) -> Seq<Seq<Line>>
        decreases attrs,
    {
        Seq::new(attrs.len(), |i: int| if 0 <= i < attrs.len() { attrs[i].lines() } else { Seq::empty() })
    }

    /// The lines of the attribute's report.
    pub open spec fn lines(self) -> Seq<Line>
        decreases self,
    {
        match self {
            Self::Interface(inside, outside) => seq![
                Line::Heading(Heading::Interface),
                Line::Field(Label::Inside, Value::Name(inside)),
                Line::Field(Label::Outside, Value::Name(outside)),
            ],
            Self::Mirror(fraction) => seq![
                Line::Heading(Heading::Mirror),
                Line::Field(Label::Absorption, Value::Number(fraction)),
            ],
            Self::Spectrometer(name, range, bins) => seq![
                Line::Heading(Heading::Spectrometer),
                Line::Field(Label::Name, Value::Name(name)),
                Line::Field(Label::Range, Value::Range(range)),
                Line::Field(Label::Bins, Value::Index(bins)),
            ],
            Self::Imager(name, resolution, width, center, forward) => seq![
                Line::Heading(Heading::Imager),
                Line::Field(Label::Name, Value::Name(name)),
                Line::Field(Label::Resolution, Value::Resolution(resolution)),
                Line::Field(Label::Width, Value::Number(width)),
                Line::Field(Label::Center, Value::Point(center)),
                Line::Field(Label::Forward, Value::Direction(forward)),
            ],
            Self::Ccd(name, resolution, width, center, forward, binner) => seq![
                Line::Heading(Heading::Ccd),
                Line::Field(Label::Name, Value::Name(name)),
                Line::Field(Label::Resolution, Value::Resolution(resolution)),
                Line::Field(Label::Width, Value::Number(width)),
                Line::Field(Label::Center, Value::Point(center)),
                Line::Field(Label::Forward, Value::Direction(forward)),
                Line::Field(Label::Binner, Value::Binner(binner)),
            ],
            Self::Reflector(reflectance) => seq![
                Line::Heading(Heading::Reflector),
                Line::Field(Label::Reflectance, Value::Reflectance(reflectance)),
            ],
            Self::PhotonCollector(id) => seq![
                Line::Heading(Heading::PhotonCollector),
                Line::Field(Label::Id, Value::Index(id)),
            ],
            Self::AttributeChain(attrs) => seq![Line::Heading(Heading::AttributeChain)]
                + Self::rows(attrs@).flatten(),
            Self::Rasterise(id) => seq![
                Line::Heading(Heading::Rasterise),
                Line::Field(Label::Name, Value::Index(id)),
            ],
            Self::Hyperspectral(id) => seq![
                Line::Heading(Heading::Hyperspectral),
                Line::Field(Label::Name, Value::Index(id)),
            ],
        }
    }

    /// Reports the attribute: its heading, then its fields in their order, and
    /// for a chain the reports of its attributes in the chain's order.
    pub fn report(&self) -> (lines: Vec<Line>)
        ensures
            lines@ == self.lines(),
        decreases self,
    {
        let mut lines: Vec<Line> = Vec::new();
        match self {
            Self::Interface(inside, outside) => {
                lines.push(Line::Heading(Heading::Interface));
                lines.push(Line::Field(Label::Inside, Value::Name(inside.clone())));
                lines.push(Line::Field(Label::Outside, Value::Name(outside.clone())));
            },
            Self::Mirror(fraction) => {
                lines.push(Line::Heading(Heading::Mirror));
                lines.push(Line::Field(Label::Absorption, Value::Number(*fraction)));
            },
            Self::Spectrometer(name, range, bins) => {
                lines.push(Line::Heading(Heading::Spectrometer));
                lines.push(Line::Field(Label::Name, Value::Name(name.clone())));
                lines.push(Line::Field(Label::Range, Value::Range(*range)));
                lines.push(Line::Field(Label::Bins, Value::Index(*bins)));
            },
            Self::Imager(name, resolution, width, center, forward) => {
                lines.push(Line::Heading(Heading::Imager));
                lines.push(Line::Field(Label::Name, Value::Name(name.clone())));
                lines.push(Line::Field(Label::Resolution, Value::Resolution(*resolution)));
                lines.push(Line::Field(Label::Width, Value::Number(*width)));
                lines.push(Line::Field(Label::Center, Value::Point(*center)));
                lines.push(Line::Field(Label::Forward, Value::Direction(*forward)));
            },
            Self::Ccd(name, resolution, width, center, forward, binner) => {
                lines.push(Line::Heading(Heading::Ccd));
                lines.push(Line::Field(Label::Name, Value::Name(name.clone())));
                lines.push(Line::Field(Label::Resolution, Value::Resolution(*resolution)));
                lines.push(Line::Field(Label::Width, Value::Number(*width)));
                lines.push(Line::Field(Label::Center, Value::Point(*center)));
                lines.push(Line::Field(Label::Forward, Value::Direction(*forward)));
                lines.push(Line::Field(Label::Binner, Value::Binner(*binner)));
            },
            Self::Reflector(reflectance) => {
                lines.push(Line::Heading(Heading::Reflector));
                lines.push(Line::Field(Label::Reflectance, Value::Reflectance(*reflectance)));
            },
            Self::PhotonCollector(id) => {
                lines.push(Line::Heading(Heading::PhotonCollector));
                lines.push(Line::Field(Label::Id, Value::Index(*id)));
            },
            Self::AttributeChain(attrs) => {
                lines.push(Line::Heading(Heading::AttributeChain));
                let ghost rows = Self::rows(attrs@);
                let mut i: usize = 0;
                proof {
                    assert(rows.take(0) =~= Seq::empty());
                }
                while i < attrs.len()
                    invariant
                        i <= attrs.len(),
                        rows == Self::rows(attrs@),
                        *self == Self::AttributeChain(*attrs),
                        lines@ == seq![Line::Heading(Heading::AttributeChain)] + rows.take(
                            i as int,
                        ).flatten(),
                    decreases attrs.len() - i,
                {
                    proof {
                        vstd::std_specs::vec::axiom_vec_index_decreases(*attrs, i as int);
                        assert(decreases_to!(*self => self->AttributeChain_0));
                    }
                    let mut part = attrs[i].report();
                    proof {
                        assert(rows.take(i + 1) =~= rows.take(i as int).push(attrs@[i as int].lines()));
                        rows.take(i as int).lemma_flatten_push(attrs@[i as int].lines());
                    }
                    lines.append(&mut part);
                    i = i + 1;
                }
                proof {
                    assert(rows.take(i as int) =~= rows);
                }
            },
            Self::Rasterise(id) => {
                lines.push(Line::Heading(Heading::Rasterise));
                lines.push(Line::Field(Label::Name, Value::Index(*id)));
            },
            Self::Hyperspectral(id) => {
                lines.push(Line::Heading(Heading::Hyperspectral));
                lines.push(Line::Field(Label::Name, Value::Index(*id)));
            },
        }
        lines
    }
    /// The names that the attribute itself asks for before it can be linked
    /// against the register of detectors: none.
    pub fn required_names(&self) -> (names: Vec<String>)
        ensures
            names@ == Seq::<String>::empty(),
    {
        Vec::new()
    }

    /// The references of a chain's attributes, in the chain's order.
    pub open spec fn reference_rows(attrs: Seq<Self>) -> Seq<Seq<Reference>>
        decreases attrs,
    {
        Seq::new(
            attrs.len(),
            |i: int| if 0 <= i < attrs.len() { attrs[i].references() } else { Seq::empty() },
        )
    }

    /// The detector names that the attribute and the attributes in it refer
    /// to, in the order in which they are linked.
    pub open spec fn references(self) -> Seq<Reference>
        decreases self,
    {
        match self {
            Self::Spectrometer(name, _, _) => seq![(Context::Spectrometer, name)],
            Self::Imager(name, _, _, _, _) => seq![(Context::Imager, name)],
            Self::Ccd(name, _, _, _, _, _) => seq![(Context::Ccd, name)],
            Self::AttributeChain(attrs) => Self::reference_rows(attrs@).flatten(),
            _ => Seq::empty(),
        }
    }

    /// The material references of a chain's attributes, in the chain's order.
    pub open spec fn material_rows(attrs: Seq<Self>) -> Seq<Seq<Reference>>
        decreases attrs,
    {
        Seq::new(
            attrs.len(),
            |i: int| if 0 <= i < attrs.len() { attrs[i].materials() } else { Seq::empty() },
        )
    }

    /// The material names that the attribute and the attributes in it refer
    /// to, in the order in which they are linked once the detectors are.
    pub open spec fn materials(self) -> Seq<Reference>
        decreases self,
    {
        match self {
            Self::Interface(inside, outside) => seq![
                (Context::Interface, inside),
                (Context::Interface, outside),
            ],
            Self::AttributeChain(attrs) => Self::material_rows(attrs@).flatten(),
            _ => Seq::empty(),
        }
    }

    /// `inst` is this attribute with each detector name replaced by the index
    /// that stands under it in `reg`, the orientation of an imager or a ccd
    /// made of its center and its forward direction, and the material names
    /// as they were.
    pub open spec fn links_to(self, inst: AttributeMaterialLinker, reg: Map<Seq<char>, usize>) -> bool
        decreases self,
    {
        match self {
            Self::Interface(inside, outside) => inst == AttributeMaterialLinker::Interface(
                inside,
                outside,
            ),
            Self::Mirror(fraction) => inst == AttributeMaterialLinker::Mirror(fraction),
            Self::Spectrometer(name, _, _) => {
                &&& reg.contains_key(name@)
                &&& inst == AttributeMaterialLinker::Spectrometer(reg[name@])
            },
            Self::Imager(name, _, width, center, forward) => {
                &&& reg.contains_key(name@)
                &&& inst == AttributeMaterialLinker::Imager(
                    reg[name@],
                    width,
                    Orient { pos: center, forward },
                )
            },
            Self::Ccd(name, _, width, center, forward, binner) => {
                &&& reg.contains_key(name@)
                &&& inst == AttributeMaterialLinker::Ccd(
                    reg[name@],
                    width,
                    Orient { pos: center, forward },
                    binner,
                )
            },
            Self::Reflector(reflectance) => inst == AttributeMaterialLinker::Reflector(reflectance),
            Self::PhotonCollector(id) => inst == AttributeMaterialLinker::PhotonCollector(id),
            Self::AttributeChain(attrs) => {
                &&& inst matches AttributeMaterialLinker::AttributeChain(insts)
                &&& insts@.len() == attrs@.len()
                &&& forall|i: int|
                    0 <= i < attrs@.len() ==> (#[trigger] attrs@[i]).links_to(insts@[i], reg)
            },
            Self::Rasterise(id) => inst == AttributeMaterialLinker::Rasterise(id),
            Self::Hyperspectral(id) => inst == AttributeMaterialLinker::Hyperspectral(id),
        }
    }

    /// Replaces each detector name by the index that stands under it in
    /// `reg`. It fails on the first name, in the order of linking, that `reg`
    /// lacks.
    pub fn link(self, reg: &NameSet<usize>) -> (result: Result<AttributeMaterialLinker, Error>)
        ensures
            match result {
                Ok(inst) => {
                    &&& resolved(self.references(), reg@.dom())
                    &&& self.links_to(inst, reg@)
                },
                Err(e) => reports_first_missing(e, self.references(), reg@.dom()),
            },
        decreases self,
    {
        let ghost refs = self.references();
        proof {
            assert(refs.take(0) =~= Seq::empty());
        }
        match self {
            Self::Interface(inside, outside) => Ok(
                AttributeMaterialLinker::Interface(inside, outside),
            ),
            Self::Mirror(r) => Ok(AttributeMaterialLinker::Mirror(r)),
            Self::Spectrometer(name, _range, _resolution) => match reg.get(&name) {
                Some(id) => Ok(AttributeMaterialLinker::Spectrometer(*id)),
                None => {
                    proof {
                        assert(first_missing(refs, reg@.dom(), 0));
                    }
                    Err(Error::MissingKey { context: Context::Spectrometer, name })
                },
            },
            Self::Imager(name, _resolution, width, center, forward) => match reg.get(&name) {
                Some(id) => Ok(
                    AttributeMaterialLinker::Imager(*id, width, Orient::new(center, forward)),
                ),
                None => {
                    proof {
                        assert(first_missing(refs, reg@.dom(), 0));
                    }
                    Err(Error::MissingKey { context: Context::Imager, name })
                },
            },
            Self::Ccd(name, _resolution, width, center, forward, binner) => match reg.get(&name) {
                Some(id) => Ok(
                    AttributeMaterialLinker::Ccd(*id, width, Orient::new(center, forward), binner),
                ),
                None => {
                    proof {
                        assert(first_missing(refs, reg@.dom(), 0));
                    }
                    Err(Error::MissingKey { context: Context::Ccd, name })
                },
            },
            Self::Reflector(reflect) => Ok(AttributeMaterialLinker::Reflector(reflect)),
            Self::PhotonCollector(id) => Ok(AttributeMaterialLinker::PhotonCollector(id)),
            Self::AttributeChain(attrs) => {
                let ghost all = attrs@;
                let ghost rows = Self::reference_rows(all);
                let ghost keys = reg@.dom();
                let mut linked_attrs: Vec<AttributeMaterialLinker> = Vec::new();
                let ghost mut done: int = 0;
                proof {
                    assert(rows.take(0) =~= Seq::empty());
                }
                for attr in iter: attrs
                    invariant
                        done == iter.index(),
                        iter.seq() == all,
                        self == Self::AttributeChain(attrs),
                        all == attrs@,
                        rows == Self::reference_rows(all),
                        keys == reg@.dom(),
                        resolved(rows.take(done).flatten(), keys),
                        linked_attrs@.len() == done,
                        forall|i: int|
                            0 <= i < done ==> (#[trigger] all[i]).links_to(linked_attrs@[i], reg@),
                {
                    proof {
                        vstd::std_specs::vec::axiom_vec_index_decreases(attrs, done);
                        assert(decreases_to!(self => self->AttributeChain_0));
                        assert(rows[done] == attr.references());
                    }
                    match attr.link(reg) {
                        Ok(inst) => {
                            proof {
                                lemma_resolved_row(rows, done, keys);
                            }
                            linked_attrs.push(inst);
                            proof {
                                done = done + 1;
                            }
                        },
                        Err(e) => {
                            proof {
                                let at = choose|at: int|
                                    {
                                        &&& first_missing(rows[done], keys, at)
                                        &&& e == (Error::MissingKey {
                                            context: rows[done][at].0,
                                            name: rows[done][at].1,
                                        })
                                    };
                                lemma_missing_in_row(rows, done, at, keys);
                                assert(first_missing(
                                    self.references(),
                                    keys,
                                    rows.take(done).flatten().len() + at,
                                ));
                            }
                            return Err(e);
                        },
                    }
                }
                proof {
                    assert(rows.take(done) =~= rows);
                }
                Ok(AttributeMaterialLinker::AttributeChain(linked_attrs))
            },
            Self::Rasterise(id) => Ok(AttributeMaterialLinker::Rasterise(id)),
            Self::Hyperspectral(id) => Ok(AttributeMaterialLinker::Hyperspectral(id)),
        }
    }
}

/// A copy reports as the attribute does and refers to the same names.
pub proof fn law_copy_is_alike(
    attr: AttributeLinkerLinkerLinkerLinker,
    copy: AttributeLinkerLinkerLinkerLinker,
)
    requires
        attr.copied_as(copy),
    ensures
        copy.lines() == attr.lines(),
        copy.references() == attr.references(),
        copy.materials() == attr.materials(),
    decreases attr,
{
    match attr {
        AttributeLinkerLinkerLinkerLinker::AttributeChain(attrs) => {
            let copies = copy->AttributeChain_0;
            assert forall|i: int| 0 <= i < attrs@.len() implies {
                &&& AttributeLinkerLinkerLinkerLinker::rows(attrs@)[i]
                    == AttributeLinkerLinkerLinkerLinker::rows(copies@)[i]
                &&& AttributeLinkerLinkerLinkerLinker::reference_rows(attrs@)[i]
                    == AttributeLinkerLinkerLinkerLinker::reference_rows(copies@)[i]
                &&& AttributeLinkerLinkerLinkerLinker::material_rows(attrs@)[i]
                    == AttributeLinkerLinkerLinkerLinker::material_rows(copies@)[i]
            } by {
                assert(attrs@[i].copied_as(copies@[i]));
                law_copy_is_alike(attrs@[i], copies@[i]);
            }
            assert(AttributeLinkerLinkerLinkerLinker::rows(attrs@)
                =~= AttributeLinkerLinkerLinkerLinker::rows(copies@));
            assert(AttributeLinkerLinkerLinkerLinker::reference_rows(attrs@)
                =~= AttributeLinkerLinkerLinkerLinker::reference_rows(copies@));
            assert(AttributeLinkerLinkerLinkerLinker::material_rows(attrs@)
                =~= AttributeLinkerLinkerLinkerLinker::material_rows(copies@));
        },
        _ => {},
    }
}

/// What an attribute is linked to, its copy is linked to, and nothing else.
pub proof fn law_copy_links_alike(
    attr: AttributeLinkerLinkerLinkerLinker,
    copy: AttributeLinkerLinkerLinkerLinker,
    inst: AttributeMaterialLinker,
    reg: Map<Seq<char>, usize>,
)
    requires
        attr.copied_as(copy),
    ensures
        attr.links_to(inst, reg) == copy.links_to(inst, reg),
    decreases attr,
{
    match attr {
        AttributeLinkerLinkerLinkerLinker::AttributeChain(attrs) => {
            let copies = copy->AttributeChain_0;
            if inst is AttributeChain && inst->AttributeChain_0@.len() == attrs@.len() {
                let insts = inst->AttributeChain_0;
                assert forall|i: int| 0 <= i < attrs@.len() implies attrs@[i].links_to(
                    insts@[i],
                    reg,
                ) == copies@[i].links_to(insts@[i], reg) by {
                    assert(attrs@[i].copied_as(copies@[i]));
                    law_copy_links_alike(attrs@[i], copies@[i], insts@[i], reg);
                }
            }
        },
        _ => {},
    }
}

} // verus!
