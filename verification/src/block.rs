use crate::method::{MethodDefinition, MethodDefinitionView};
use crate::record::{GenericParam, GenericParamView};
use vstd::prelude::*;

verus! {

/// The implementation block that holds a record's accessors.
#[derive(Clone, Debug, PartialEq, Eq)]
pub struct ImplBlock {
    /// The record's name.
    pub name: String,
    /// The record's generic parameters, in the order of their declaration.
    pub generics: Vec<GenericParam>,
    /// The record's `where` clause as it is written, if it has one.
    pub bounds: Option<String>,
    /// The accessors, field by field in the order of the fields.
    pub methods: Vec<MethodDefinition>,
}

pub struct ImplBlockView {
    pub name: Seq<char>,
    pub generics: Seq<GenericParamView>,
    pub bounds: Option<Seq<char>>,
    pub methods: Seq<MethodDefinitionView>,
}

impl View for ImplBlock {
    type V = ImplBlockView;

    open spec fn view(&self) -> ImplBlockView {
        ImplBlockView {
            name: self.name@,
            generics: self.generics.deep_view(),
            bounds: self.bounds.deep_view(),
            methods: self.methods.deep_view(),
        }
    }
}

} // verus!
