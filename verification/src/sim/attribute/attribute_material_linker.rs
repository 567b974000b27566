use crate::error::{Context, Error};
use crate::geom::Orient;
use crate::ord::name_set::NameSet;
use crate::phys::Reflectance;
use crate::scalar::Scalar;
use crate::sim::attribute::attribute::Attribute;
use crate::sim::attribute::link::{
    first_missing, lemma_missing_in_row, lemma_resolved_row, reports_first_missing, resolved,
    Reference,
};
use crate::sim::attribute::report::{Heading, Label, Line, Value};
use crate::tools::Binner;
use vstd::prelude::*;

verus! {

/// A surface attribute with its detectors by index and its materials still
/// by name.
#[derive(Debug, PartialEq, Eq)]
pub enum AttributeMaterialLinker {
    /// Material interface, inside material name, outside material name.
    Interface(String, String),
    /// Partially reflective mirror, reflection fraction.
    Mirror(Scalar),
    /// Spectrometer index.
    Spectrometer(usize),
    /// Imager index, horizontal width, orientation.
    Imager(usize, Scalar, Orient),
    /// Ccd index, horizontal width, orientation, wavelength binner.
    Ccd(usize, Scalar, Orient, Binner),
    /// A purely reflecting material, with its reflectance.
    Reflector(Reflectance),
    /// A photon collector, by its index.
    PhotonCollector(usize),
    /// A chain of attributes, which are applied in order.
    AttributeChain(Vec<AttributeMaterialLinker>),
    /// An output into the output plane of this index.
    Rasterise(usize),
    /// An output into the output volume of this index.
    Hyperspectral(usize),
}

impl Clone for AttributeMaterialLinker {
    /// A copy of the attribute.
    fn clone(&self) -> (copy: Self)
        ensures
            self.copied_as(copy),
        decreases self,
    {
        match self {
            Self::Interface(inside, outside) => Self::Interface(inside.clone(), outside.clone()),
            Self::Mirror(fraction) => Self::Mirror(*fraction),
            Self::Spectrometer(id) => Self::Spectrometer(*id),
            Self::Imager(id, width, orient) => Self::Imager(*id, *width, *orient),
            Self::Ccd(id, width, orient, binner) => Self::Ccd(*id, *width, *orient, *binner),
            Self::Reflector(reflectance) => Self::Reflector(*reflectance),
            Self::PhotonCollector(id) => Self::PhotonCollector(*id),
            Self::AttributeChain(attrs) => {
                let mut copies: Vec<Self> = Vec::new();
                let mut i: usize = 0;
                while i < attrs.len()
                    invariant
                        i <= attrs.len(),
                        *self == Self::AttributeChain(*attrs),
                        copies@.len() == i,
                        forall|j: int| 0 <= j < i ==> (#[trigger] attrs@[j]).copied_as(copies@[j]),
                    decreases attrs.len() - i,
                {
                    proof {
                        vstd::std_specs::vec::axiom_vec_index_decreases(*attrs, i as int);
                        assert(decreases_to!(*self => self->AttributeChain_0));
                    }
                    copies.push(attrs[i].clone());
                    i = i + 1;
                }
                Self::AttributeChain(copies)
            },
            Self::Rasterise(id) => Self::Rasterise(*id),
            Self::Hyperspectral(id) => Self::Hyperspectral(*id),
        }
    }
}

impl AttributeMaterialLinker {
    /// `copy` is this attribute over again: the same but for the vectors that
    /// hold the attributes of its chains, which hold copies in the same order.
    pub open spec fn copied_as(self, copy: Self) -> bool
        decreases self,
    {
        match self {
            Self::AttributeChain(attrs) => {
                &&& copy matches Self::AttributeChain(copies)
                &&& copies@.len() == attrs@.len()
                &&& forall|i: int|
                    0 <= i < attrs@.len() ==> (#[trigger] attrs@[i]).copied_as(copies@[i])
            },
            _ => copy == self,
        }
    }

    /// The reports of a chain's attributes, in the chain's order.
    pub open spec fn rows(attrs: Seq<Self>) -> Seq<Seq<Line>>
        decreases attrs,
    {
        Seq::new(attrs.len(), |i: int| if 0 <= i < attrs.len() { attrs[i].lines() } else { Seq::empty() })
    }

    /// The lines of the attribute's report.
    pub open spec fn lines(self) -> Seq<Line>
        decreases self,
    {
        match self {
            Self::Interface(inside, outside) => seq![
                Line::Heading(Heading::Interface),
                Line::Field(Label::Inside, Value::Name(inside)),
                Line::Field(Label::Outside, Value::Name(outside)),
            ],
            Self::Mirror(fraction) => seq![
                Line::Heading(Heading::Mirror),
                Line::Field(Label::Absorption, Value::Number(fraction)),
            ],
            Self::Spectrometer(id) => seq![
                Line::Heading(Heading::Spectrometer),
                Line::Field(Label::Id, Value::Index(id)),
            ],
            Self::Imager(id, width, orient) => seq![
                Line::Heading(Heading::Imager),
                Line::Field(Label::Name, Value::Index(id)),
                Line::Field(Label::Width, Value::Number(width)),
                Line::Field(Label::Orientation, Value::Frame(orient)),
            ],
            Self::Ccd(id, width, orient, binner) => seq![
                Line::Heading(Heading::Ccd),
                Line::Field(Label::Name, Value::Index(id)),
                Line::Field(Label::Width, Value::Number(width)),
                Line::Field(Label::Orientation, Value::Frame(orient)),
                Line::Field(Label::Binner, Value::Binner(binner)),
            ],
            Self::Reflector(reflectance) => seq![
                Line::Heading(Heading::Reflector),
                Line::Field(Label::Reflectance, Value::Reflectance(reflectance)),
            ],
            Self::PhotonCollector(id) => seq![
                Line::Heading(Heading::PhotonCollector),
                Line::Field(Label::Name, Value::Index(id)),
            ],
            Self::AttributeChain(attrs) => seq![Line::Heading(Heading::AttributeChain)]
                + Self::rows(attrs@).flatten(),
            Self::Rasterise(id) => seq![
                Line::Heading(Heading::Rasterise),
                Line::Field(Label::Name, Value::Index(id)),
            ],
            Self::Hyperspectral(id) => seq![
                Line::Heading(Heading::Hyperspectral),
                Line::Field(Label::Name, Value::Index(id)),
            ],
        }
    }

    /// Reports the attribute: its heading, then its fields in their order, and
    /// for a chain the reports of its attributes in the chain's order.
    pub fn report(&self) -> (lines: Vec<Line>)
        ensures
            lines@ == self.lines(),
        decreases self,
    {
        let mut lines: Vec<Line> = Vec::new();
        match self {
            Self::Interface(inside, outside) => {
                lines.push(Line::Heading(Heading::Interface));
                lines.push(Line::Field(Label::Inside, Value::Name(inside.clone())));
                lines.push(Line::Field(Label::Outside, Value::Name(outside.clone())));
            },
            Self::Mirror(fraction) => {
                lines.push(Line::Heading(Heading::Mirror));
                lines.push(Line::Field(Label::Absorption, Value::Number(*fraction)));
            },
            Self::Spectrometer(id) => {
                lines.push(Line::Heading(Heading::Spectrometer));
                lines.push(Line::Field(Label::Id, Value::Index(*id)));
            },
            Self::Imager(id, width, orient) => {
                lines.push(Line::Heading(Heading::Imager));
                lines.push(Line::Field(Label::Name, Value::Index(*id)));
                lines.push(Line::Field(Label::Width, Value::Number(*width)));
                lines.push(Line::Field(Label::Orientation, Value::Frame(*orient)));
            },
            Self::Ccd(id, width, orient, binner) => {
                lines.push(Line::Heading(Heading::Ccd));
                lines.push(Line::Field(Label::Name, Value::Index(*id)));
                lines.push(Line::Field(Label::Width, Value::Number(*width)));
                lines.push(Line::Field(Label::Orientation, Value::Frame(*orient)));
                lines.push(Line::Field(Label::Binner, Value::Binner(*binner)));
            },
            Self::Reflector(reflectance) => {
                lines.push(Line::Heading(Heading::Reflector));
                lines.push(Line::Field(Label::Reflectance, Value::Reflectance(*reflectance)));
            },
            Self::PhotonCollector(id) => {
                lines.push(Line::Heading(Heading::PhotonCollector));
                lines.push(Line::Field(Label::Name, Value::Index(*id)));
            },
            Self::AttributeChain(attrs) => {
                lines.push(Line::Heading(Heading::AttributeChain));
                let ghost rows = Self::rows(attrs@);
                let mut i: usize = 0;
                proof {
                    assert(rows.take(0) =~= Seq::empty());
                }
                while i < attrs.len()
                    invariant
                        i <= attrs.len(),
                        rows == Self::rows(attrs@),
                        *self == Self::AttributeChain(*attrs),
                        lines@ == seq![Line::Heading(Heading::AttributeChain)] + rows.take(
                            i as int,
                        ).flatten(),
                    decreases attrs.len() - i,
                {
                    proof {
                        vstd::std_specs::vec::axiom_vec_index_decreases(*attrs, i as int);
                        assert(decreases_to!(*self => self->AttributeChain_0));
                    }
                    let mut part = attrs[i].report();
                    proof {
                        assert(rows.take(i + 1) =~= rows.take(i as int).push(attrs@[i as int].lines()));
                        rows.take(i as int).lemma_flatten_push(attrs@[i as int].lines());
                    }
                    lines.append(&mut part);
                    i = i + 1;
                }
                proof {
                    assert(rows.take(i as int) =~= rows);
                }
            },
            Self::Rasterise(id) => {
                lines.push(Line::Heading(Heading::Rasterise));
                lines.push(Line::Field(Label::Name, Value::Index(*id)));
            },
            Self::Hyperspectral(id) => {
                lines.push(Line::Heading(Heading::Hyperspectral));
                lines.push(Line::Field(Label::Name, Value::Index(*id)));
            },
        }
        lines
    }

    /// The names that the attribute itself asks of the set of materials: those
    /// of an interface. A chain asks for none; its attributes ask for their own.
    pub open spec fn required(self) -> Seq<String> {
        match self {
            Self::Interface(inside, outside) => seq![inside, outside],
            _ => Seq::empty(),
        }
    }

    /// The names that the attribute itself asks of the set of materials.
    pub fn required_names(&self) -> (names: Vec<String>)
        ensures
            names@ == self.required(),
    {
        let mut names: Vec<String> = Vec::new();
        match self {
            Self::Interface(inside, outside) => {
                names.push(inside.clone());
                names.push(outside.clone());
            },
            Self::Mirror(..)
            | Self::Spectrometer(..)
            | Self::Imager(..)
            | Self::Ccd(..)
            | Self::Reflector(..)
            | Self::PhotonCollector(..)
            | Self::AttributeChain(..)
            | Self::Rasterise(..)
            | Self::Hyperspectral(..) => {},
        }
        names
    }

    /// The references of a chain's attributes, in the chain's order.
    pub open spec fn reference_rows(attrs: Seq<Self>) -> Seq<Seq<Reference>>
        decreases attrs,
    {
        Seq::new(
            attrs.len(),
            |i: int| if 0 <= i < attrs.len() { attrs[i].references() } else { Seq::empty() },
        )
    }

    /// The material names that the attribute and the attributes in it refer
    /// to, in the order in which they are linked.
    pub open spec fn references(self) -> Seq<Reference>
        decreases self,
    {
        match self {
            Self::Interface(inside, outside) => seq![
                (Context::Interface, inside),
                (Context::Interface, outside),
            ],
            Self::AttributeChain(attrs) => Self::reference_rows(attrs@).flatten(),
            _ => Seq::empty(),
        }
    }

    /// `inst` is this attribute with each material name replaced by the
    /// material that stands under it in `mats`, and nothing else changed.
    pub open spec fn links_to<M>(self, inst: Attribute<M>, mats: Map<Seq<char>, M>) -> bool
        decreases self,
    {
        match self {
            Self::Interface(inside, outside) => {
                &&& inst matches Attribute::Interface(inner, outer)
                &&& mats.contains_key(inside@)
                &&& mats.contains_key(outside@)
                &&& *inner == mats[inside@]
                &&& *outer == mats[outside@]
            },
            Self::Mirror(fraction) => inst == Attribute::<M>::Mirror(fraction),
            Self::Spectrometer(id) => inst == Attribute::<M>::Spectrometer(id),
            Self::Imager(id, width, orient) => inst == Attribute::<M>::Imager(id, width, orient),
            Self::Ccd(id, width, orient, binner) => inst == Attribute::<M>::Ccd(
                id,
                width,
                orient,
                binner,
            ),
            Self::Reflector(reflectance) => inst == Attribute::<M>::Reflector(reflectance),
            Self::PhotonCollector(id) => inst == Attribute::<M>::PhotonCollector(id),
            Self::AttributeChain(attrs) => {
                &&& inst matches Attribute::AttributeChain(insts)
                &&& insts@.len() == attrs@.len()
                &&& forall|i: int|
                    0 <= i < attrs@.len() ==> (#[trigger] attrs@[i]).links_to(insts@[i], mats)
            },
            Self::Rasterise(id) => inst == Attribute::<M>::Rasterise(id),
            Self::Hyperspectral(id) => inst == Attribute::<M>::Hyperspectral(id),
        }
    }

    /// Replaces each material name by the material that stands under it in
    /// `mats`. It fails on the first name, in the order of linking, that
    /// `mats` lacks.
    pub fn link<'a, M>(self, mats: &'a NameSet<M>) -> (result: Result<Attribute<'a, M>, Error>)
        ensures
            match result {
                Ok(inst) => {
                    &&& resolved(self.references(), mats@.dom())
                    &&& self.links_to(inst, mats@)
                },
                Err(e) => reports_first_missing(e, self.references(), mats@.dom()),
            },
        decreases self,
    {
        match self {
            Self::Interface(inside, outside) => {
                let ghost refs = self.references();
                match mats.get(&inside) {
                    None => {
                        proof {
                            assert(refs.take(0) =~= Seq::empty());
                            assert(first_missing(refs, mats@.dom(), 0));
                        }
                        Err(Error::MissingKey { context: Context::Interface, name: inside })
                    },
                    Some(inner) => match mats.get(&outside) {
                        None => {
                            proof {
                                assert(refs.take(1) =~= seq![refs[0]]);
                                assert(first_missing(refs, mats@.dom(), 1));
                            }
                            Err(Error::MissingKey { context: Context::Interface, name: outside })
                        },
                        Some(outer) => Ok(Attribute::Interface(inner, outer)),
                    },
                }
            },
            Self::Mirror(r) => Ok(Attribute::Mirror(r)),
            Self::Spectrometer(id) => Ok(Attribute::Spectrometer(id)),
            Self::Imager(id, width, orient) => Ok(Attribute::Imager(id, width, orient)),
            Self::Ccd(id, width, orient, binner) => Ok(Attribute::Ccd(id, width, orient, binner)),
            Self::Reflector(reflectance) => Ok(Attribute::Reflector(reflectance)),
            Self::PhotonCollector(id) => Ok(Attribute::PhotonCollector(id)),
            Self::AttributeChain(attrs) => {
                let ghost all = attrs@;
                let ghost rows = Self::reference_rows(all);
                let ghost keys = mats@.dom();
                let mut linked_attrs: Vec<Attribute<'a, M>> = Vec::new();
                let ghost mut done: int = 0;
                proof {
                    assert(rows.take(0) =~= Seq::empty());
                }
                for attr in iter: attrs
                    invariant
                        done == iter.index(),
                        iter.seq() == all,
                        self == Self::AttributeChain(attrs),
                        all == attrs@,
                        rows == Self::reference_rows(all),
                        keys == mats@.dom(),
                        resolved(rows.take(done).flatten(), keys),
                        linked_attrs@.len() == done,
                        forall|i: int|
                            0 <= i < done ==> (#[trigger] all[i]).links_to(
                                linked_attrs@[i],
                                mats@,
                            ),
                {
                    proof {
                        vstd::std_specs::vec::axiom_vec_index_decreases(attrs, done);
                        assert(decreases_to!(self => self->AttributeChain_0));
                        assert(rows[done] == attr.references());
                    }
                    match attr.link(mats) {
                        Ok(inst) => {
                            proof {
                                lemma_resolved_row(rows, done, keys);
                            }
                            linked_attrs.push(inst);
                            proof {
                                done = done + 1;
                            }
                        },
                        Err(e) => {
                            proof {
                                let at = choose|at: int|
                                    {
                                        &&& first_missing(rows[done], keys, at)
                                        &&& e == (Error::MissingKey {
                                            context: rows[done][at].0,
                                            name: rows[done][at].1,
                                        })
                                    };
                                lemma_missing_in_row(rows, done, at, keys);
                                assert(first_missing(
                                    self.references(),
                                    keys,
                                    rows.take(done).flatten().len() + at,
                                ));
                            }
                            return Err(e);
                        },
                    }
                }
                proof {
                    assert(rows.take(done) =~= rows);
                }
                Ok(Attribute::AttributeChain(linked_attrs))
            },
            Self::Rasterise(id) => Ok(Attribute::Rasterise(id)),
            Self::Hyperspectral(id) => Ok(Attribute::Hyperspectral(id)),
        }
    }
}

/// A copy reports as the attribute does, refers to the same names and is
/// bound to the same.
pub proof fn law_copy_is_alike(attr: AttributeMaterialLinker, copy: AttributeMaterialLinker)
    requires
        attr.copied_as(copy),
    ensures
        copy.lines() == attr.lines(),
        copy.references() == attr.references(),
        copy.required() == attr.required(),
    decreases attr,
{
    match attr {
        AttributeMaterialLinker::AttributeChain(attrs) => {
            let copies = copy->AttributeChain_0;
            assert forall|i: int| 0 <= i < attrs@.len() implies AttributeMaterialLinker::rows(
                attrs@,
            )[i] == AttributeMaterialLinker::rows(copies@)[i]
                && AttributeMaterialLinker::reference_rows(attrs@)[i]
                == AttributeMaterialLinker::reference_rows(copies@)[i] by {
                assert(attrs@[i].copied_as(copies@[i]));
                law_copy_is_alike(attrs@[i], copies@[i]);
            }
            assert(AttributeMaterialLinker::rows(attrs@) =~= AttributeMaterialLinker::rows(copies@));
            assert(AttributeMaterialLinker::reference_rows(attrs@)
                =~= AttributeMaterialLinker::reference_rows(copies@));
        },
        _ => {},
    }
}

/// What an attribute is bound to, its copy is bound to, and nothing else.
pub proof fn law_copy_links_alike<M>(
    attr: AttributeMaterialLinker,
    copy: AttributeMaterialLinker,
    inst: Attribute<M>,
    mats: Map<Seq<char>, M>,
)
    requires
        attr.copied_as(copy),
    ensures
        attr.links_to(inst, mats) == copy.links_to(inst, mats),
    decreases attr,
{
    match attr {
        AttributeMaterialLinker::AttributeChain(attrs) => {
            let copies = copy->AttributeChain_0;
            if inst is AttributeChain && inst->AttributeChain_0@.len() == attrs@.len() {
                let insts = inst->AttributeChain_0;
                assert forall|i: int| 0 <= i < attrs@.len() implies attrs@[i].links_to(
                    insts@[i],
                    mats,
                ) == copies@[i].links_to(insts@[i], mats) by {
                    assert(attrs@[i].copied_as(copies@[i]));
                    law_copy_links_alike(attrs@[i], copies@[i], insts@[i], mats);
                }
            }
        },
        _ => {},
    }
}

} // verus!
