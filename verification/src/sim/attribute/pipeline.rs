use crate::error::Error;
use crate::ord::name_set::NameSet;
use crate::sim::attribute::attribute::Attribute;
use crate::sim::attribute::attribute_linker_linker_linker_linker::AttributeLinkerLinkerLinkerLinker;
use crate::sim::attribute::attribute_material_linker::AttributeMaterialLinker;
use crate::sim::attribute::link::{first_missing, reports_first_missing, resolved, Reference};
use crate::sim::attribute::report::{Heading, Line};
use vstd::prelude::*;

verus! {

/// Links an attribute against the register of detectors and then against the
/// set of materials. It succeeds if every detector name is in `reg` and every
/// material name in `mats`, and fails on the first name that is not, the
/// detectors first.
pub fn resolve<'a, M>(
    attr: AttributeLinkerLinkerLinkerLinker,
    reg: &NameSet<usize>,
    mats: &'a NameSet<M>,
) -> (result: Result<Attribute<'a, M>, Error>)
    ensures
        match result {
            Ok(inst) => {
                &&& resolved(attr.references(), reg@.dom())
                &&& resolved(attr.materials(), mats@.dom())
                &&& exists|bound: AttributeMaterialLinker|
                    attr.links_to(bound, reg@) && #[trigger] bound.links_to(inst, mats@)
            },
            Err(e) => {
                ||| reports_first_missing(e, attr.references(), reg@.dom())
                ||| {
                    &&& resolved(attr.references(), reg@.dom())
                    &&& reports_first_missing(e, attr.materials(), mats@.dom())
                }
            },
        },
{
    match attr.link(reg) {
        Err(e) => Err(e),
        Ok(bound) => {
            proof {
                lemma_link_keeps_materials(attr, bound, reg@);
            }
            bound.link(mats)
        },
    }
}

/// Linking the detectors leaves the material names as they were, and in
/// their order.
pub proof fn lemma_link_keeps_materials(
    attr: AttributeLinkerLinkerLinkerLinker,
    bound: AttributeMaterialLinker,
    reg: Map<Seq<char>, usize>,
)
    requires
        attr.links_to(bound, reg),
    ensures
        bound.references() == attr.materials(),
    decreases attr,
{
    match attr {
        AttributeLinkerLinkerLinkerLinker::AttributeChain(attrs) => {
            let insts = bound->AttributeChain_0;
            let before = AttributeLinkerLinkerLinkerLinker::material_rows(attrs@);
            let after = AttributeMaterialLinker::reference_rows(insts@);
            assert forall|i: int| 0 <= i < attrs@.len() implies before[i] == after[i] by {
                assert(attrs@[i].links_to(insts@[i], reg));
                lemma_link_keeps_materials(attrs@[i], insts@[i], reg);
            }
            assert(before =~= after);
        },
        _ => {},
    }
}

/// A chain is linked attribute by attribute: the linked chain is as long, each
/// of its attributes is the linked attribute of the same place, and its report
/// is the heading and then their reports in the chain's order.
pub proof fn law_chain_keeps_order(
    attrs: Vec<AttributeLinkerLinkerLinkerLinker>,
    bound: AttributeMaterialLinker,
    reg: Map<Seq<char>, usize>,
)
    requires
        AttributeLinkerLinkerLinkerLinker::AttributeChain(attrs).links_to(bound, reg),
    ensures
        bound is AttributeChain,
        bound->AttributeChain_0@.len() == attrs@.len(),
        forall|i: int|
            0 <= i < attrs@.len() ==> (#[trigger] attrs@[i]).links_to(bound->AttributeChain_0@[i], reg),
        bound.lines() == seq![Line::Heading(Heading::AttributeChain)]
            + AttributeMaterialLinker::rows(bound->AttributeChain_0@).flatten(),
        AttributeMaterialLinker::rows(bound->AttributeChain_0@).len() == attrs@.len(),
        forall|i: int|
            0 <= i < attrs@.len() ==> #[trigger] AttributeMaterialLinker::rows(
                bound->AttributeChain_0@,
            )[i] == bound->AttributeChain_0@[i].lines(),
{
}

/// A chain is bound to its materials attribute by attribute: the bound chain
/// is as long, and each of its attributes is the bound attribute of the same
/// place.
pub proof fn law_bound_chain_keeps_order<M>(
    attrs: Vec<AttributeMaterialLinker>,
    inst: Attribute<M>,
    mats: Map<Seq<char>, M>,
)
    requires
        AttributeMaterialLinker::AttributeChain(attrs).links_to(inst, mats),
    ensures
        inst is AttributeChain,
        inst->AttributeChain_0@.len() == attrs@.len(),
        forall|i: int|
            0 <= i < attrs@.len() ==> (#[trigger] attrs@[i]).links_to(inst->AttributeChain_0@[i], mats),
{
}

/// An error that tells of the first missing reference names a name that is
/// referred to and that is not among the keys.
pub proof fn law_missing_name_is_reported(error: Error, refs: Seq<Reference>, keys: Set<Seq<char>>)
    requires
        reports_first_missing(error, refs, keys),
    ensures
        !resolved(refs, keys),
        error matches Error::MissingKey { context, name } && !keys.contains(name@) && refs.contains(
            (context, name),
        ),
{
    let at = choose|at: int|
        {
            &&& first_missing(refs, keys, at)
            &&& error == (Error::MissingKey { context: refs[at].0, name: refs[at].1 })
        };
    assert(refs[at] == (refs[at].0, refs[at].1));
}

/// References that are not all resolved have a first that is missing.
pub proof fn law_unresolved_has_first_missing(refs: Seq<Reference>, keys: Set<Seq<char>>)
    requires
        !resolved(refs, keys),
    ensures
        exists|at: int| first_missing(refs, keys, at),
    decreases refs.len(),
{
    let bad = choose|i: int| 0 <= i < refs.len() && !keys.contains(#[trigger] refs[i].1@);
    if resolved(refs.take(bad), keys) {
        assert(first_missing(refs, keys, bad));
    } else {
        law_unresolved_has_first_missing(refs.take(bad), keys);
        let at = choose|at: int| first_missing(refs.take(bad), keys, at);
        assert(refs.take(bad).take(at) =~= refs.take(at));
        assert(first_missing(refs, keys, at));
    }
}

} // verus!
