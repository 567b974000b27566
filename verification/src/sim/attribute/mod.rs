pub mod attribute;
pub mod attribute_linker_linker_linker_linker;
pub mod attribute_material_linker;
pub mod link;
pub mod pipeline;
pub mod report;
