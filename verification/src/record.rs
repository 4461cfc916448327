use crate::directive::{Directive, DirectiveView};
use crate::location::Location;
use crate::visibility::Visibility;
use vstd::prelude::*;

verus! {

/// One generic parameter of a record.
#[derive(Debug, PartialEq, Eq)]
pub struct GenericParam {
    /// The parameter as it is declared, with its bounds: `T: Clone`.
    pub decl: String,
    /// The parameter as it is used: `T`.
    pub usage: String,
}

pub struct GenericParamView {
    pub decl: Seq<char>,
    pub usage: Seq<char>,
}

impl View for GenericParam {
    type V = GenericParamView;

    open spec fn view(&self) -> GenericParamView {
        GenericParamView { decl: self.decl@, usage: self.usage@ }
    }
}

impl DeepView for GenericParam {
    type V = GenericParamView;

    open spec fn deep_view(&self) -> GenericParamView {
        self@
    }
}

impl Clone for GenericParam {
    fn clone(&self) -> (copy: GenericParam)
        ensures
            copy@ == self@,
    {
        GenericParam { decl: self.decl.clone(), usage: self.usage.clone() }
    }
}

/// One named field of a record.
#[derive(Clone, Debug, PartialEq, Eq)]
pub struct FieldDescriptor {
    pub name: String,
    /// The field's type, as it is written.
    pub ty: String,
    /// The field's documentation: each annotation as it is written.
    pub docs: Vec<String>,
    /// The field's markers, in the order in which they stand.
    pub directives: Vec<Directive>,
    pub at: Location,
}

pub struct FieldDescriptorView {
    pub name: Seq<char>,
    pub ty: Seq<char>,
    pub docs: Seq<Seq<char>>,
    pub directives: Seq<DirectiveView>,
    pub at: Location,
}

impl View for FieldDescriptor {
    type V = FieldDescriptorView;

    open spec fn view(&self) -> FieldDescriptorView {
        FieldDescriptorView {
            name: self.name@,
            ty: self.ty@,
            docs: self.docs.deep_view(),
            directives: self.directives.deep_view(),
            at: self.at,
        }
    }
}

impl DeepView for FieldDescriptor {
    type V = FieldDescriptorView;

    open spec fn deep_view(&self) -> FieldDescriptorView {
        self@
    }
}

/// What a record is made of.
#[derive(Clone, Debug, PartialEq, Eq)]
pub enum RecordBody {
    /// A struct with named fields, in the order of their declaration.
    Named(Vec<FieldDescriptor>),
    /// A struct with positional fields; the place is that of the field list.
    Positional(Location),
    /// A struct without a field list.
    Unit(Location),
    /// An enum; the place is that of its keyword.
    Enum(Location),
    /// A union; the place is that of its keyword.
    Union(Location),
}

pub enum RecordBodyView {
    Named(Seq<FieldDescriptorView>),
    Positional(Location),
    Unit(Location),
    Enum(Location),
    Union(Location),
}

impl View for RecordBody {
    type V = RecordBodyView;

    open spec fn view(&self) -> RecordBodyView {
        match self {
            RecordBody::Named(fields) => RecordBodyView::Named(fields.deep_view()),
            RecordBody::Positional(at) => RecordBodyView::Positional(*at),
            RecordBody::Unit(at) => RecordBodyView::Unit(*at),
            RecordBody::Enum(at) => RecordBodyView::Enum(*at),
            RecordBody::Union(at) => RecordBodyView::Union(*at),
        }
    }
}

/// A record for which accessors are asked.
#[derive(Clone, Debug, PartialEq, Eq)]
pub struct RecordDescriptor {
    pub name: String,
    /// The generic parameters, in the order of their declaration.
    pub generics: Vec<GenericParam>,
    /// The `where` clause as it is written, if there is one.
    pub bounds: Option<String>,
    /// The visibility that the record is declared with.
    pub vis: Visibility,
    /// The record's own markers, in the order in which they stand.
    pub directives: Vec<Directive>,
    pub body: RecordBody,
}

pub struct RecordDescriptorView {
    pub name: Seq<char>,
    pub generics: Seq<GenericParamView>,
    pub bounds: Option<Seq<char>>,
    pub vis: Seq<char>,
    pub directives: Seq<DirectiveView>,
    pub body: RecordBodyView,
}

impl View for RecordDescriptor {
    type V = RecordDescriptorView;

    open spec fn view(&self) -> RecordDescriptorView {
        RecordDescriptorView {
            name: self.name@,
            generics: self.generics.deep_view(),
            bounds: self.bounds.deep_view(),
            vis: self.vis@,
            directives: self.directives.deep_view(),
            body: self.body@,
        }
    }
}

} // verus!
