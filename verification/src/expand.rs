use crate::block::{ImplBlock, ImplBlockView};
use crate::directive::{Directive, DirectiveView};
use crate::error::{DeriveError, Shape};
use crate::method::{synthesize, synthesized, MethodDefinition, MethodDefinitionView};
use crate::policy::{resolve, resolved, FieldOptions, FieldOptionsView, InputAttrs, InputAttrsView};
use crate::record::{
    FieldDescriptor, FieldDescriptorView, GenericParam, RecordBody, RecordBodyView,
    RecordDescriptor, RecordDescriptorView,
};
use crate::visibility::Visibility;
use vstd::prelude::*;

verus! {

/// The accessors of one field of a record with the defaults `defaults`, or
/// the error of the first of the field's markers that cannot be read.
pub open spec fn field_methods(field: FieldDescriptorView, defaults: InputAttrsView) -> Result<
    Seq<MethodDefinitionView>,
    DeriveError,
> {
    match FieldOptionsView::of_markers(field.directives) {
        Err(e) => Err(e),
        Ok(options) => Ok(synthesized(field, resolved(defaults, options))),
    }
}

/// The accessors of `fields`, field after field, or the error of the first
/// field that has one.
pub open spec fn all_methods(fields: Seq<FieldDescriptorView>, defaults: InputAttrsView) -> Result<
    Seq<MethodDefinitionView>,
    DeriveError,
>
    decreases fields.len(),
{
    if fields.len() == 0 {
        Ok(Seq::empty())
    } else {
        match all_methods(fields.drop_last(), defaults) {
            Err(e) => Err(e),
            Ok(methods) => match field_methods(fields.last(), defaults) {
                Err(e) => Err(e),
                Ok(added) => Ok(methods + added),
            },
        }
    }
}

/// What a record expands to.
///
/// A record that is no struct with named fields is refused, whatever else
/// it holds. Otherwise the record's markers give the defaults, starting from
/// the record's own visibility, and the block holds the accessors of all
/// fields. An error in a marker leaves no block at all.
pub open spec fn expansion(record: RecordDescriptorView) -> Result<ImplBlockView, DeriveError> {
    match record.body {
        RecordBodyView::Enum(at) => Err(DeriveError::UnsupportedShape { shape: Shape::Enum, at }),
        RecordBodyView::Union(at) => Err(DeriveError::UnsupportedShape { shape: Shape::Union, at }),
        RecordBodyView::Positional(at) => Err(
            DeriveError::UnsupportedShape { shape: Shape::Positional, at },
        ),
        RecordBodyView::Unit(at) => Err(DeriveError::UnsupportedShape { shape: Shape::Unit, at }),
        RecordBodyView::Named(fields) => match InputAttrsView::initial(record.vis).with_markers(
            record.directives,
        ) {
            Err(e) => Err(e),
            Ok(defaults) => match all_methods(fields, defaults) {
                Err(e) => Err(e),
                Ok(methods) => Ok(
                    ImplBlockView {
                        name: record.name,
                        generics: record.generics,
                        bounds: record.bounds,
                        methods,
                    },
                ),
            },
        },
    }
}

/// Once one of the first `upto` fields has an error, the outcome for all
/// fields is that error.
pub proof fn lemma_first_field_error_stays(
    fields: Seq<FieldDescriptorView>,
    defaults: InputAttrsView,
    upto: int,
)
    requires
        0 <= upto <= fields.len(),
        all_methods(fields.take(upto), defaults) is Err,
    ensures
        all_methods(fields, defaults) == all_methods(fields.take(upto), defaults),
    decreases fields.len() - upto,
{
    if upto < fields.len() {
        assert(fields.take(upto + 1).drop_last() =~= fields.take(upto));
        lemma_first_field_error_stays(fields, defaults, upto + 1);
    } else {
        assert(fields.take(upto) =~= fields);
    }
}

/// Once one of the first `upto` markers cannot be read, the outcome for all
/// markers is that marker's error.
pub proof fn lemma_first_marker_error_stays(
    start: InputAttrsView,
    markers: Seq<DirectiveView>,
    upto: int,
)
    requires
        0 <= upto <= markers.len(),
        start.with_markers(markers.take(upto)) is Err,
    ensures
        start.with_markers(markers) == start.with_markers(markers.take(upto)),
    decreases markers.len() - upto,
{
    if upto < markers.len() {
        assert(markers.take(upto + 1).drop_last() =~= markers.take(upto));
        lemma_first_marker_error_stays(start, markers, upto + 1);
    } else {
        assert(markers.take(upto) =~= markers);
    }
}

/// Adds the accessors of `field` to `methods`. Where one of the field's
/// markers cannot be read, nothing is added.
pub fn process_field(
    field: &FieldDescriptor,
    input_attrs: &InputAttrs,
    methods: &mut Vec<MethodDefinition>,
) -> (done: Result<(), DeriveError>)
    ensures
        match field_methods(field@, input_attrs@) {
            Ok(added) => done is Ok && final(methods).deep_view() == old(methods).deep_view()
                + added,
            Err(e) => done == Err::<(), DeriveError>(e) && final(methods).deep_view() == old(
                methods,
            ).deep_view(),
        },
{
    let options = match FieldOptions::from_markers(&field.directives) {
        Ok(options) => options,
        Err(e) => {
            return Err(e);
        },
    };
    let policy = resolve(input_attrs, &options);
    let mut added = synthesize(field, &policy);
    let ghost before = methods.deep_view();
    let ghost new = added.deep_view();
    methods.append(&mut added);
    assert(methods.deep_view() =~= before + new);
    Ok(())
}

/// The defaults of a record that is declared with visibility `vis` and
/// carries the markers `markers`.
pub fn container_defaults(vis: &Visibility, markers: &Vec<Directive>) -> (found: Result<
    InputAttrs,
    DeriveError,
>)
    ensures
        match InputAttrsView::initial(vis@).with_markers(markers.deep_view()) {
            Ok(defaults) => found is Ok && found->Ok_0@ == defaults,
            Err(e) => found == Err::<InputAttrs, DeriveError>(e),
        },
{
    let ghost all = markers.deep_view();
    let ghost start = InputAttrsView::initial(vis@);
    let mut defaults = InputAttrs::new(vis);
    let mut next: usize = 0;
    while next < markers.len()
        invariant
            next <= markers.len(),
            all == markers.deep_view(),
            start == InputAttrsView::initial(vis@),
            start.with_markers(all.take(next as int)) == Ok::<InputAttrsView, DeriveError>(
                defaults@,
            ),
        decreases markers.len() - next,
    {
        proof {
            assert(all.take(next + 1).drop_last() =~= all.take(next as int));
            assert(all.take(next + 1).last() == markers[next as int]@);
        }
        match defaults.apply(&markers[next]) {
            Err(e) => {
                proof {
                    lemma_first_marker_error_stays(start, all, next + 1);
                }
                return Err(e);
            },
            Ok(_) => {},
        }
        next = next + 1;
    }
    assert(all.take(next as int) =~= all);
    Ok(defaults)
}

/// A copy of `generics`.
pub fn copy_generics(generics: &Vec<GenericParam>) -> (copy: Vec<GenericParam>)
    ensures
        copy.deep_view() == generics.deep_view(),
{
    let mut copy: Vec<GenericParam> = Vec::new();
    let mut next: usize = 0;
    while next < generics.len()
        invariant
            next <= generics.len(),
            copy.len() == next,
            forall|i: int| 0 <= i < next ==> copy[i]@ == generics[i]@,
        decreases generics.len() - next,
    {
        copy.push(generics[next].clone());
        next = next + 1;
    }
    assert(copy.deep_view() =~= generics.deep_view());
    copy
}

/// Makes the implementation block of `input`, or says why there is none.
pub fn gusket_impl(input: &RecordDescriptor) -> (output: Result<ImplBlock, DeriveError>)
    ensures
        match expansion(input@) {
            Ok(block) => output is Ok && output->Ok_0@ == block,
            Err(e) => output == Err::<ImplBlock, DeriveError>(e),
        },
{
    let fields = match &input.body {
        RecordBody::Named(fields) => fields,
        RecordBody::Enum(at) => {
            return Err(DeriveError::UnsupportedShape { shape: Shape::Enum, at: *at });
        },
        RecordBody::Union(at) => {
            return Err(DeriveError::UnsupportedShape { shape: Shape::Union, at: *at });
        },
        RecordBody::Positional(at) => {
            return Err(DeriveError::UnsupportedShape { shape: Shape::Positional, at: *at });
        },
        RecordBody::Unit(at) => {
            return Err(DeriveError::UnsupportedShape { shape: Shape::Unit, at: *at });
        },
    };
    let input_attrs = match container_defaults(&input.vis, &input.directives) {
        Ok(input_attrs) => input_attrs,
        Err(e) => {
            return Err(e);
        },
    };
    let ghost all = fields.deep_view();
    let ghost defaults = input_attrs@;
    let mut methods: Vec<MethodDefinition> = Vec::new();
    assert(methods.deep_view() =~= Seq::<MethodDefinitionView>::empty());
    let mut next: usize = 0;
    while next < fields.len()
        invariant
            next <= fields.len(),
            all == fields.deep_view(),
            defaults == input_attrs@,
            input@.body == RecordBodyView::Named(all),
            InputAttrsView::initial(input@.vis).with_markers(input@.directives) == Ok::<
                InputAttrsView,
                DeriveError,
            >(defaults),
            all_methods(all.take(next as int), defaults) == Ok::<
                Seq<MethodDefinitionView>,
                DeriveError,
            >(methods.deep_view()),
        decreases fields.len() - next,
    {
        proof {
            assert(all.take(next + 1).drop_last() =~= all.take(next as int));
            assert(all.take(next + 1).last() == fields[next as int]@);
        }
        match process_field(&fields[next], &input_attrs, &mut methods) {
            Err(e) => {
                proof {
                    lemma_first_field_error_stays(all, defaults, next + 1);
                }
                return Err(e);
            },
            Ok(_) => {},
        }
        next = next + 1;
    }
    assert(all.take(next as int) =~= all);
    Ok(
        ImplBlock {
            name: input.name.clone(),
            generics: copy_generics(&input.generics),
            bounds: match &input.bounds {
                Some(bounds) => Some(bounds.clone()),
                None => None,
            },
            methods,
        },
    )
}

/// What the derive puts in the place of its invocation.
#[derive(Clone, Debug, PartialEq, Eq)]
pub enum Expansion {
    /// The implementation block with the accessors.
    Accessors(ImplBlock),
    /// A compile error that reports why there are no accessors.
    CompileError(DeriveError),
}

pub enum ExpansionView {
    Accessors(ImplBlockView),
    CompileError(DeriveError),
}

impl View for Expansion {
    type V = ExpansionView;

    open spec fn view(&self) -> ExpansionView {
        match self {
            Expansion::Accessors(block) => ExpansionView::Accessors(block@),
            Expansion::CompileError(error) => ExpansionView::CompileError(*error),
        }
    }
}

/// What the derive puts in the place of its invocation on `record`: the
/// record's implementation block, or a compile error where the record gets
/// none.
pub open spec fn expanded(record: RecordDescriptorView) -> ExpansionView {
    match expansion(record) {
        Ok(block) => ExpansionView::Accessors(block),
        Err(error) => ExpansionView::CompileError(error),
    }
}

/// Expands the derive on `input`.
pub fn gusket(input: &RecordDescriptor) -> (output: Expansion)
    ensures
        output@ == expanded(input@),
{
    match gusket_impl(input) {
        Ok(block) => Expansion::Accessors(block),
        Err(error) => Expansion::CompileError(error),
    }
}

} // verus!
