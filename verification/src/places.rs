use crate::directive::{assignment_at, DirectiveView, FieldAttr, InputAttr};
use crate::expand::field_methods;
use crate::location::Location;
use crate::method::{synthesized, MethodDefinitionView};
use crate::policy::{FieldOptionsView, InputAttrsView, ResolvedPolicyView};
use crate::record::FieldDescriptorView;
use crate::token::{joined, lemma_run_stays_inside, run_length, TokenView};
use vstd::prelude::*;

verus! {

/// The two token lists hold the same tokens, whatever the places of the
/// tokens are.
pub open spec fn same_tokens(left: Seq<TokenView>, right: Seq<TokenView>) -> bool {
    &&& left.len() == right.len()
    &&& forall|i: int|
        0 <= i < left.len() ==> (#[trigger] left[i]).kind == right[i].kind && left[i].text
            == right[i].text
}

/// The two markers have the same form and hold the same tokens, whatever
/// their places are.
pub open spec fn same_marker(left: DirectiveView, right: DirectiveView) -> bool {
    match (left.args, right.args) {
        (None, None) => true,
        (Some(left), Some(right)) => same_tokens(left, right),
        _ => false,
    }
}

/// The two lists hold the same markers, whatever their places are.
pub open spec fn same_markers(left: Seq<DirectiveView>, right: Seq<DirectiveView>) -> bool {
    &&& left.len() == right.len()
    &&& forall|i: int| 0 <= i < left.len() ==> same_marker(#[trigger] left[i], right[i])
}

/// The same tokens have their commas at the same indices.
pub proof fn lemma_same_run(left: Seq<TokenView>, right: Seq<TokenView>, from: int)
    requires
        same_tokens(left, right),
    ensures
        run_length(left, from) == run_length(right, from),
    decreases left.len() - from,
{
    if 0 <= from < left.len() {
        assert(left[from].kind == right[from].kind && left[from].text == right[from].text);
        if !left[from].is_punct(","@) {
            lemma_same_run(left, right, from + 1);
        }
    }
}

/// The same tokens make the same text.
pub proof fn lemma_same_text(left: Seq<TokenView>, right: Seq<TokenView>)
    requires
        same_tokens(left, right),
    ensures
        joined(left) == joined(right),
    decreases left.len(),
{
    if left.len() > 0 {
        let last = left.len() - 1;
        assert(left[last].kind == right[last].kind && left[last].text == right[last].text);
        assert(left[0].kind == right[0].kind && left[0].text == right[0].text);
        if left.len() > 1 {
            let left_front = left.drop_last();
            let right_front = right.drop_last();
            assert forall|i: int| 0 <= i < left_front.len() implies (#[trigger] left_front[i]).kind
                == right_front[i].kind && left_front[i].text == right_front[i].text by {
                assert(left[i].kind == right[i].kind && left[i].text == right[i].text);
            }
            lemma_same_text(left_front, right_front);
        }
    }
}

/// An assignment of visibility is read to the same visibility, or refused
/// in both lists.
pub proof fn lemma_same_assignment(
    left: Seq<TokenView>,
    right: Seq<TokenView>,
    from: int,
    left_end: Location,
    right_end: Location,
)
    requires
        same_tokens(left, right),
        0 <= from < left.len(),
    ensures
        assignment_at(left, from, left_end) is Ok <==> assignment_at(right, from, right_end) is Ok,
        assignment_at(left, from, left_end) is Ok ==> assignment_at(left, from, left_end)->Ok_0
            == assignment_at(right, from, right_end)->Ok_0,
{
    if from + 1 < left.len() {
        assert(left[from + 1].kind == right[from + 1].kind && left[from + 1].text == right[from
            + 1].text);
        if left[from + 1].is_punct("="@) {
            lemma_same_run(left, right, from + 2);
            lemma_run_stays_inside(left, from + 2);
            let run = run_length(left, from + 2);
            let left_run = left.subrange(from + 2, from + 2 + run);
            let right_run = right.subrange(from + 2, from + 2 + run);
            assert forall|i: int| 0 <= i < left_run.len() implies (#[trigger] left_run[i]).kind
                == right_run[i].kind && left_run[i].text == right_run[i].text by {
                assert(left[from + 2 + i].kind == right[from + 2 + i].kind && left[from + 2
                    + i].text == right[from + 2 + i].text);
            }
            lemma_same_text(left_run, right_run);
        }
    }
}

/// The places of the tokens and of the marker decide nothing of what a
/// field's argument list holds: two lists of the same tokens are read to
/// the same entries, or are both refused.
pub proof fn field_entries_ignore_places(
    left: Seq<TokenView>,
    right: Seq<TokenView>,
    from: int,
    left_end: Location,
    right_end: Location,
)
    requires
        same_tokens(left, right),
    ensures
        FieldAttr::parsed_list(left, from, left_end) is Ok <==> FieldAttr::parsed_list(
            right,
            from,
            right_end,
        ) is Ok,
        FieldAttr::parsed_list(left, from, left_end) is Ok ==> FieldAttr::parsed_list(
            left,
            from,
            left_end,
        ) == FieldAttr::parsed_list(right, from, right_end),
    decreases left.len() - from,
{
    if 0 <= from < left.len() {
        assert(left[from].kind == right[from].kind && left[from].text == right[from].text);
        lemma_same_assignment(left, right, from, left_end, right_end);
        match FieldAttr::parsed_at(left, from, left_end) {
            Err(_) => {},
            Ok((_, used)) => {
                let next = from + used;
                if next < left.len() {
                    assert(left[next].kind == right[next].kind && left[next].text
                        == right[next].text);
                    field_entries_ignore_places(left, right, next + 1, left_end, right_end);
                }
            },
        }
    }
}

/// The places of the tokens and of the marker decide nothing of what a
/// record's argument list holds.
pub proof fn record_entries_ignore_places(
    left: Seq<TokenView>,
    right: Seq<TokenView>,
    from: int,
    left_end: Location,
    right_end: Location,
)
    requires
        same_tokens(left, right),
    ensures
        InputAttr::parsed_list(left, from, left_end) is Ok <==> InputAttr::parsed_list(
            right,
            from,
            right_end,
        ) is Ok,
        InputAttr::parsed_list(left, from, left_end) is Ok ==> InputAttr::parsed_list(
            left,
            from,
            left_end,
        ) == InputAttr::parsed_list(right, from, right_end),
    decreases left.len() - from,
{
    if 0 <= from < left.len() {
        assert(left[from].kind == right[from].kind && left[from].text == right[from].text);
        lemma_same_assignment(left, right, from, left_end, right_end);
        match InputAttr::parsed_at(left, from, left_end) {
            Err(_) => {},
            Ok((_, used)) => {
                let next = from + used;
                if next < left.len() {
                    assert(left[next].kind == right[next].kind && left[next].text
                        == right[next].text);
                    record_entries_ignore_places(left, right, next + 1, left_end, right_end);
                }
            },
        }
    }
}

/// The places of a field's markers decide nothing of the field's options.
pub proof fn options_ignore_places(left: Seq<DirectiveView>, right: Seq<DirectiveView>)
    requires
        same_markers(left, right),
    ensures
        FieldOptionsView::of_markers(left) is Ok <==> FieldOptionsView::of_markers(right) is Ok,
        FieldOptionsView::of_markers(left) is Ok ==> FieldOptionsView::of_markers(left)
            == FieldOptionsView::of_markers(right),
    decreases left.len(),
{
    if left.len() > 0 {
        let last = left.len() - 1;
        assert(same_marker(left[last], right[last]));
        assert forall|i: int| 0 <= i < left.drop_last().len() implies same_marker(
            #[trigger] left.drop_last()[i],
            right.drop_last()[i],
        ) by {
            assert(same_marker(left[i], right[i]));
        }
        options_ignore_places(left.drop_last(), right.drop_last());
        match (left[last].args, right[last].args) {
            (Some(left_args), Some(right_args)) => {
                field_entries_ignore_places(left_args, right_args, 0, left[last].at, right[last].at);
            },
            _ => {},
        }
    }
}

/// The places of a record's markers decide nothing of the record's
/// defaults.
pub proof fn defaults_ignore_places(
    start: InputAttrsView,
    left: Seq<DirectiveView>,
    right: Seq<DirectiveView>,
)
    requires
        same_markers(left, right),
    ensures
        start.with_markers(left) is Ok <==> start.with_markers(right) is Ok,
        start.with_markers(left) is Ok ==> start.with_markers(left) == start.with_markers(right),
    decreases left.len(),
{
    if left.len() > 0 {
        let last = left.len() - 1;
        assert(same_marker(left[last], right[last]));
        assert forall|i: int| 0 <= i < left.drop_last().len() implies same_marker(
            #[trigger] left.drop_last()[i],
            right.drop_last()[i],
        ) by {
            assert(same_marker(left[i], right[i]));
        }
        defaults_ignore_places(start, left.drop_last(), right.drop_last());
        match (left[last].args, right[last].args) {
            (Some(left_args), Some(right_args)) => {
                record_entries_ignore_places(
                    left_args,
                    right_args,
                    0,
                    left[last].at,
                    right[last].at,
                );
            },
            _ => {},
        }
    }
}

/// The place of a field goes into its accessors and decides nothing else
/// of them.
pub proof fn accessors_carry_the_place(
    field: FieldDescriptorView,
    policy: ResolvedPolicyView,
    at: Location,
)
    ensures
        ({
            let here = synthesized(field, policy);
            let there = synthesized(FieldDescriptorView { at, ..field }, policy);
            &&& here.len() == there.len()
            &&& forall|i: int|
                0 <= i < here.len() ==> there[i] == (MethodDefinitionView { at, ..here[i] })
        }),
{
}

/// Two fields that differ only in the places of their markers and of the
/// tokens in them get the same accessors, or are both refused.
pub proof fn accessors_ignore_the_places_of_markers(
    field: FieldDescriptorView,
    markers: Seq<DirectiveView>,
    defaults: InputAttrsView,
)
    requires
        same_markers(field.directives, markers),
    ensures
        ({
            let other = FieldDescriptorView { directives: markers, ..field };
            &&& field_methods(field, defaults) is Ok <==> field_methods(other, defaults) is Ok
            &&& field_methods(field, defaults) is Ok ==> field_methods(field, defaults)
                == field_methods(other, defaults)
        }),
{
    options_ignore_places(field.directives, markers);
}

} // verus!
