use crate::directive::{DirectiveView, FieldAttrView};
use crate::error::DeriveError;
use crate::expand::field_methods;
use crate::method::{
    getter_of, mut_getter_of, setter_of, synthesized, BodyView, MethodDefinitionView, MethodKind,
    Passing, ReturnTypeView,
};
use crate::policy::{resolved, FieldOptionsView, InputAttrsView, ResolvedPolicyView};
use crate::record::FieldDescriptorView;
use vstd::prelude::*;

verus! {

/// Some marker among `markers` lists `skip`.
pub open spec fn asks_to_skip(markers: Seq<DirectiveView>) -> bool {
    exists|i: int|
        0 <= i < markers.len() && (#[trigger] markers[i]).field_attrs() is Ok
            && markers[i].field_attrs()->Ok_0.contains(FieldAttrView::Skip)
}

/// Entries touch the skip flag only by setting it, and never touch the
/// marker flag.
pub proof fn lemma_skip_flag(start: FieldOptionsView, attrs: Seq<FieldAttrView>)
    ensures
        start.with_all(attrs).skip <==> start.skip || attrs.contains(FieldAttrView::Skip),
        start.with_all(attrs).derive == start.derive,
    decreases attrs.len(),
{
    if attrs.len() > 0 {
        let front = attrs.drop_last();
        lemma_skip_flag(start, front);
        if front.contains(FieldAttrView::Skip) {
            let j = choose|j: int| 0 <= j < front.len() && front[j] == FieldAttrView::Skip;
            assert(attrs[j] == FieldAttrView::Skip);
        }
        if attrs.last() == FieldAttrView::Skip {
            assert(attrs[attrs.len() - 1] == FieldAttrView::Skip);
        }
        if attrs.contains(FieldAttrView::Skip) {
            let j = choose|j: int| 0 <= j < attrs.len() && attrs[j] == FieldAttrView::Skip;
            if j < front.len() {
                assert(front[j] == FieldAttrView::Skip);
            }
        }
    }
}

/// Markers that can all be read leave the skip flag set exactly where one
/// of them lists `skip`, and the marker flag set exactly where there is a
/// marker at all.
pub proof fn lemma_flags_of_markers(markers: Seq<DirectiveView>)
    requires
        FieldOptionsView::of_markers(markers) is Ok,
    ensures
        FieldOptionsView::of_markers(markers)->Ok_0.skip == asks_to_skip(markers),
        FieldOptionsView::of_markers(markers)->Ok_0.derive == (markers.len() > 0),
        forall|i: int| 0 <= i < markers.len() ==> (#[trigger] markers[i]).field_attrs() is Ok,
    decreases markers.len(),
{
    if markers.len() > 0 {
        let front = markers.drop_last();
        let attrs = markers.last().field_attrs()->Ok_0;
        let so_far = FieldOptionsView::of_markers(front)->Ok_0;
        lemma_flags_of_markers(front);
        lemma_skip_flag(FieldOptionsView { derive: true, ..so_far }, attrs);
        assert forall|i: int| 0 <= i < markers.len() implies (#[trigger] markers[i]).field_attrs()
            is Ok by {
            if i < front.len() {
                assert(front[i] == markers[i]);
            }
        }
        if asks_to_skip(front) {
            let i = choose|i: int|
                0 <= i < front.len() && (#[trigger] front[i]).field_attrs() is Ok
                    && front[i].field_attrs()->Ok_0.contains(FieldAttrView::Skip);
            assert(markers[i] == front[i]);
        }
        if attrs.contains(FieldAttrView::Skip) {
            assert(markers[markers.len() - 1] == markers.last());
        }
        if asks_to_skip(markers) {
            let i = choose|i: int|
                0 <= i < markers.len() && (#[trigger] markers[i]).field_attrs() is Ok
                    && markers[i].field_attrs()->Ok_0.contains(FieldAttrView::Skip);
            if i < front.len() {
                assert(front[i] == markers[i]);
            }
        }
    }
}

/// A field without a marker, in a record that does not give accessors to
/// every field, gets no accessors.
pub proof fn unmarked_field_gets_nothing(field: FieldDescriptorView, defaults: InputAttrsView)
    requires
        field.directives.len() == 0,
        !defaults.derive,
    ensures
        field_methods(field, defaults) == Ok::<Seq<MethodDefinitionView>, DeriveError>(
            Seq::empty(),
        ),
{
}

/// In a record that gives accessors to every field, a field none of whose
/// markers lists `skip` gets at least its getter, and the getter comes
/// first.
pub proof fn derive_all_gives_a_getter(field: FieldDescriptorView, defaults: InputAttrsView)
    requires
        defaults.derive,
        FieldOptionsView::of_markers(field.directives) is Ok,
        !asks_to_skip(field.directives),
    ensures
        field_methods(field, defaults) is Ok,
        field_methods(field, defaults)->Ok_0.len() >= 1,
        field_methods(field, defaults)->Ok_0[0].kind == MethodKind::Getter,
        field_methods(field, defaults)->Ok_0[0].name == field.name,
{
    lemma_flags_of_markers(field.directives);
}

/// A field one of whose markers lists `skip` gets no accessors, whatever
/// the record's defaults are and whatever else the markers list.
pub proof fn skip_wins(field: FieldDescriptorView, defaults: InputAttrsView)
    requires
        FieldOptionsView::of_markers(field.directives) is Ok,
        asks_to_skip(field.directives),
    ensures
        field_methods(field, defaults) == Ok::<Seq<MethodDefinitionView>, DeriveError>(
            Seq::empty(),
        ),
{
    lemma_flags_of_markers(field.directives);
}

/// Every accessor of a field has the visibility that the policy names and
/// the documentation of the field: the getter, the mutable getter and the
/// setter never differ in either.
pub proof fn accessors_share_visibility_and_docs(
    field: FieldDescriptorView,
    policy: ResolvedPolicyView,
)
    ensures
        forall|i: int|
            0 <= i < synthesized(field, policy).len() ==> {
                &&& (#[trigger] synthesized(field, policy)[i]).visibility == policy.visibility
                &&& synthesized(field, policy)[i].docs == field.docs
            },
{
}

/// A policy that derives nothing gives no method; one that is not mutable
/// gives the getter alone; one that is mutable gives the getter, the mutable
/// getter and the setter, in this order.
pub proof fn accessors_follow_the_policy(field: FieldDescriptorView, policy: ResolvedPolicyView)
    ensures
        !policy.derive ==> synthesized(field, policy).len() == 0,
        policy.derive && !policy.mutable ==> synthesized(field, policy) =~= seq![
            getter_of(field, policy),
        ],
        policy.derive && policy.mutable ==> synthesized(field, policy) =~= seq![
            getter_of(field, policy),
            mut_getter_of(field, policy),
            setter_of(field, policy),
        ],
{
}

/// Where the entries `attrs` hold an assignment of visibility at `last`
/// and none after it, the visibility assigned there is the policy's: it
/// goes before the record's, and before any that stands earlier in the
/// list.
pub proof fn last_visibility_wins(
    defaults: InputAttrsView,
    start: FieldOptionsView,
    attrs: Seq<FieldAttrView>,
    last: int,
)
    requires
        0 <= last < attrs.len(),
        attrs[last] is Vis,
        forall|j: int| last < j < attrs.len() ==> !(#[trigger] attrs[j] is Vis),
    ensures
        start.with_all(attrs).vis == Some(attrs[last]->Vis_0),
        resolved(defaults, start.with_all(attrs)).visibility == attrs[last]->Vis_0,
    decreases attrs.len(),
{
    if last < attrs.len() - 1 {
        let front = attrs.drop_last();
        assert(!(attrs[attrs.len() - 1] is Vis));
        assert forall|j: int| last < j < front.len() implies !(#[trigger] front[j] is Vis) by {
            assert(front[j] == attrs[j]);
        }
        last_visibility_wins(defaults, start, front, last);
    }
}

/// Entries that assign no visibility leave the visibility as it was: a
/// field that names none has the record's.
pub proof fn visibility_is_inherited(
    defaults: InputAttrsView,
    start: FieldOptionsView,
    attrs: Seq<FieldAttrView>,
)
    requires
        forall|j: int| 0 <= j < attrs.len() ==> !(#[trigger] attrs[j] is Vis),
    ensures
        start.with_all(attrs).vis == start.vis,
        start.vis is None ==> resolved(defaults, start.with_all(attrs)).visibility == defaults.vis,
    decreases attrs.len(),
{
    if attrs.len() > 0 {
        let front = attrs.drop_last();
        assert(!(attrs[attrs.len() - 1] is Vis));
        assert forall|j: int| 0 <= j < front.len() implies !(#[trigger] front[j] is Vis) by {
            assert(front[j] == attrs[j]);
        }
        visibility_is_inherited(defaults, start, front);
    }
}

/// No entry of the markers after `marker` assigns a visibility.
pub open spec fn no_visibility_after(markers: Seq<DirectiveView>, marker: int) -> bool {
    forall|m: int, j: int|
        marker < m < markers.len() && 0 <= j < markers[m].field_attrs()->Ok_0.len() ==> !(
        #[trigger] markers[m].field_attrs()->Ok_0[j] is Vis)
}

/// Where the markers can all be read, and the last assignment of
/// visibility in them is entry `entry` of marker `marker`, the options hold
/// the visibility that is assigned there.
pub proof fn lemma_visibility_of_markers(markers: Seq<DirectiveView>, marker: int, entry: int)
    requires
        FieldOptionsView::of_markers(markers) is Ok,
        0 <= marker < markers.len(),
        0 <= entry < markers[marker].field_attrs()->Ok_0.len(),
        markers[marker].field_attrs()->Ok_0[entry] is Vis,
        forall|j: int|
            entry < j < markers[marker].field_attrs()->Ok_0.len() ==> !(
            #[trigger] markers[marker].field_attrs()->Ok_0[j] is Vis),
        no_visibility_after(markers, marker),
    ensures
        FieldOptionsView::of_markers(markers)->Ok_0.vis == Some(
            markers[marker].field_attrs()->Ok_0[entry]->Vis_0,
        ),
    decreases markers.len(),
{
    let front = markers.drop_last();
    let so_far = FieldOptionsView { derive: true, ..FieldOptionsView::of_markers(front)->Ok_0 };
    let attrs = markers.last().field_attrs()->Ok_0;
    let defaults = InputAttrsView::initial(Seq::empty());
    if marker == markers.len() - 1 {
        last_visibility_wins(defaults, so_far, attrs, entry);
    } else {
        assert forall|j: int| 0 <= j < attrs.len() implies !(#[trigger] attrs[j] is Vis) by {
            assert(markers[markers.len() - 1] == markers.last());
        }
        visibility_is_inherited(defaults, so_far, attrs);
        assert(front[marker] == markers[marker]);
        assert forall|m: int, j: int|
            marker < m < front.len() && 0 <= j < front[m].field_attrs()->Ok_0.len() implies !(
        #[trigger] front[m].field_attrs()->Ok_0[j] is Vis) by {
            assert(front[m] == markers[m]);
        }
        lemma_visibility_of_markers(front, marker, entry);
    }
}

/// The visibility that a field assigns last goes before the record's and
/// before any that the field assigns earlier: every accessor of the field
/// has it.
pub proof fn field_visibility_goes_first(
    field: FieldDescriptorView,
    defaults: InputAttrsView,
    marker: int,
    entry: int,
)
    requires
        FieldOptionsView::of_markers(field.directives) is Ok,
        0 <= marker < field.directives.len(),
        0 <= entry < field.directives[marker].field_attrs()->Ok_0.len(),
        field.directives[marker].field_attrs()->Ok_0[entry] is Vis,
        forall|j: int|
            entry < j < field.directives[marker].field_attrs()->Ok_0.len() ==> !(
            #[trigger] field.directives[marker].field_attrs()->Ok_0[j] is Vis),
        no_visibility_after(field.directives, marker),
    ensures
        field_methods(field, defaults) is Ok,
        forall|i: int|
            0 <= i < field_methods(field, defaults)->Ok_0.len() ==> (#[trigger] field_methods(
                field,
                defaults,
            )->Ok_0[i]).visibility == field.directives[marker].field_attrs()->Ok_0[entry]->Vis_0,
{
    lemma_visibility_of_markers(field.directives, marker, entry);
}

/// Putting `copy` into a list of entries, at any place, changes nothing in
/// the policy but the way the getter hands the value out.
pub proof fn copy_touches_only_by_value(
    defaults: InputAttrsView,
    start: FieldOptionsView,
    attrs: Seq<FieldAttrView>,
    place: int,
)
    requires
        0 <= place <= attrs.len(),
    ensures
        resolved(defaults, start.with_all(attrs.insert(place, FieldAttrView::Copy)))
            == (ResolvedPolicyView { by_value: true, ..resolved(defaults, start.with_all(attrs)) }),
    decreases attrs.len(),
{
    let longer = attrs.insert(place, FieldAttrView::Copy);
    if place == attrs.len() {
        assert(longer.drop_last() =~= attrs);
    } else {
        assert(longer.drop_last() =~= attrs.drop_last().insert(place, FieldAttrView::Copy));
        assert(longer.last() == attrs.last());
        copy_touches_only_by_value(defaults, start, attrs.drop_last(), place);
    }
}

/// Whether the getter hands the value out by copy or by borrow changes
/// nothing but the getter's return type and body: as many methods are made
/// either way, and the mutable getter and the setter are the same.
pub proof fn by_value_changes_only_the_getter(
    field: FieldDescriptorView,
    policy: ResolvedPolicyView,
)
    ensures
        ({
            let copied = synthesized(field, ResolvedPolicyView { by_value: true, ..policy });
            let borrowed = synthesized(field, ResolvedPolicyView { by_value: false, ..policy });
            &&& copied.len() == borrowed.len()
            &&& forall|i: int| 1 <= i < copied.len() ==> copied[i] == borrowed[i]
            &&& copied.len() > 0 ==> copied[0] == (MethodDefinitionView {
                output: Some(ReturnTypeView { passing: Passing::Value, ty: field.ty }),
                body: BodyView::Read { passing: Passing::Value, field: field.name },
                ..borrowed[0]
            })
            &&& copied.len() > 0 ==> borrowed[0].output == Some(
                ReturnTypeView { passing: Passing::Borrow, ty: field.ty },
            )
        }),
{
}

} // verus!
