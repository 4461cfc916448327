use crate::directive::{
    Directive, DirectiveView, FieldAttr, FieldAttrView, InputAttr, InputAttrView,
};
use crate::error::DeriveError;
use crate::visibility::Visibility;
use vstd::prelude::*;

verus! {

/// What holds for every field of a record unless the field says otherwise.
#[derive(Clone, Debug, PartialEq, Eq)]
pub struct InputAttrs {
    /// The accessors' visibility.
    pub vis: Visibility,
    /// Whether a field gets a mutable getter and a setter.
    pub mutable: bool,
    /// Whether a field without a marker gets accessors.
    pub derive: bool,
}

pub struct InputAttrsView {
    pub vis: Seq<char>,
    pub mutable: bool,
    pub derive: bool,
}

impl View for InputAttrs {
    type V = InputAttrsView;

    open spec fn view(&self) -> InputAttrsView {
        InputAttrsView { vis: self.vis@, mutable: self.mutable, derive: self.derive }
    }
}

impl InputAttrsView {
    /// The defaults of a record that is declared with visibility `vis` and
    /// has no marker: mutable accessors, and only for the fields that ask.
    pub open spec fn initial(vis: Seq<char>) -> InputAttrsView {
        InputAttrsView { vis, mutable: true, derive: false }
    }

    /// The defaults after one entry.
    pub open spec fn with(self, attr: InputAttrView) -> InputAttrsView {
        match attr {
            InputAttrView::Vis(vis) => InputAttrsView { vis, ..self },
            InputAttrView::Immut => InputAttrsView { mutable: false, ..self },
            InputAttrView::All => InputAttrsView { derive: true, ..self },
        }
    }

    /// The defaults after the entries `attrs`, taken in order.
    pub open spec fn with_all(self, attrs: Seq<InputAttrView>) -> InputAttrsView
        decreases attrs.len(),
    {
        if attrs.len() == 0 {
            self
        } else {
            self.with_all(attrs.drop_last()).with(attrs.last())
        }
    }

    /// The defaults after the markers `markers`, taken in order, or the error
    /// of the first marker that cannot be read.
    pub open spec fn with_markers(self, markers: Seq<DirectiveView>) -> Result<
        InputAttrsView,
        DeriveError,
    >
        decreases markers.len(),
    {
        if markers.len() == 0 {
            Ok(self)
        } else {
            match self.with_markers(markers.drop_last()) {
                Err(e) => Err(e),
                Ok(so_far) => match markers.last().input_attrs() {
                    Err(e) => Err(e),
                    Ok(attrs) => Ok(so_far.with_all(attrs)),
                },
            }
        }
    }
}

impl InputAttrs {
    /// The defaults of a record that is declared with visibility `vis`.
    pub fn new(vis: &Visibility) -> (defaults: InputAttrs)
        ensures
            defaults@ == InputAttrsView::initial(vis@),
    {
        InputAttrs { vis: vis.clone(), mutable: true, derive: false }
    }

    /// Takes the entries of one marker on the record into the defaults. If
    /// the marker cannot be read, the defaults stay as they are.
    pub fn apply(&mut self, attr: &Directive) -> (done: Result<(), DeriveError>)
        ensures
            match attr@.input_attrs() {
                Ok(attrs) => done is Ok && final(self)@ == old(self)@.with_all(attrs),
                Err(e) => done == Err::<(), DeriveError>(e) && final(self)@ == old(self)@,
            },
    {
        let attrs = match attr.input_attrs() {
            Ok(attrs) => attrs,
            Err(e) => {
                return Err(e);
            },
        };
        let ghost all = attrs.deep_view();
        let mut next: usize = 0;
        while next < attrs.len()
            invariant
                next <= attrs.len(),
                all == attrs.deep_view(),
                self@ == old(self)@.with_all(all.take(next as int)),
            decreases attrs.len() - next,
        {
            match &attrs[next] {
                InputAttr::Vis(vis) => {
                    self.vis = vis.clone();
                },
                InputAttr::Immut => {
                    self.mutable = false;
                },
                InputAttr::All => {
                    self.derive = true;
                },
            }
            proof {
                assert(all.take(next + 1).drop_last() =~= all.take(next as int));
                assert(all.take(next + 1).last() == attrs[next as int]@);
            }
            next = next + 1;
        }
        assert(all.take(next as int) =~= all);
        Ok(())
    }
}

/// What the markers of one field say, before the record's defaults are
/// taken into account.
#[derive(Clone, Debug, PartialEq, Eq)]
pub struct FieldOptions {
    /// The field has a marker.
    pub derive: bool,
    /// The visibility that the field asks for, if it names one.
    pub vis: Option<Visibility>,
    /// Whether the field asks for mutable accessors, if it says.
    pub mutable: Option<bool>,
    /// The field asks for a getter that returns the value.
    pub copy: bool,
    /// The field asks to be left out.
    pub skip: bool,
}

pub struct FieldOptionsView {
    pub derive: bool,
    pub vis: Option<Seq<char>>,
    pub mutable: Option<bool>,
    pub copy: bool,
    pub skip: bool,
}

impl View for FieldOptions {
    type V = FieldOptionsView;

    open spec fn view(&self) -> FieldOptionsView {
        FieldOptionsView {
            derive: self.derive,
            vis: self.vis.deep_view(),
            mutable: self.mutable,
            copy: self.copy,
            skip: self.skip,
        }
    }
}

impl FieldOptionsView {
    /// The options of a field without a marker.
    pub open spec fn blank() -> FieldOptionsView {
        FieldOptionsView { derive: false, vis: None, mutable: None, copy: false, skip: false }
    }

    /// The options after one entry. A later entry on the same matter
    /// replaces an earlier one.
    pub open spec fn with(self, attr: FieldAttrView) -> FieldOptionsView {
        match attr {
            FieldAttrView::Vis(vis) => FieldOptionsView { vis: Some(vis), ..self },
            FieldAttrView::Immut => FieldOptionsView { mutable: Some(false), ..self },
            FieldAttrView::Mut => FieldOptionsView { mutable: Some(true), ..self },
            FieldAttrView::Copy => FieldOptionsView { copy: true, ..self },
            FieldAttrView::Skip => FieldOptionsView { skip: true, ..self },
        }
    }

    /// The options after the entries `attrs`, taken in order.
    pub open spec fn with_all(self, attrs: Seq<FieldAttrView>) -> FieldOptionsView
        decreases attrs.len(),
    {
        if attrs.len() == 0 {
            self
        } else {
            self.with_all(attrs.drop_last()).with(attrs.last())
        }
    }

    /// The options after one marker with the entries `attrs`: the marker
    /// itself asks for accessors, whatever it lists.
    pub open spec fn with_marker(self, attrs: Seq<FieldAttrView>) -> FieldOptionsView {
        FieldOptionsView { derive: true, ..self }.with_all(attrs)
    }

    /// The options that the markers `markers` of one field amount to, or the
    /// error of the first marker that cannot be read.
    pub open spec fn of_markers(markers: Seq<DirectiveView>) -> Result<
        FieldOptionsView,
        DeriveError,
    >
        decreases markers.len(),
    {
        if markers.len() == 0 {
            Ok(FieldOptionsView::blank())
        } else {
            match FieldOptionsView::of_markers(markers.drop_last()) {
                Err(e) => Err(e),
                Ok(so_far) => match markers.last().field_attrs() {
                    Err(e) => Err(e),
                    Ok(attrs) => Ok(so_far.with_marker(attrs)),
                },
            }
        }
    }
}

impl FieldOptions {
    /// The options of a field without a marker.
    pub fn new() -> (options: FieldOptions)
        ensures
            options@ == FieldOptionsView::blank(),
    {
        FieldOptions { derive: false, vis: None, mutable: None, copy: false, skip: false }
    }

    /// Takes one entry into the options.
    pub fn apply(&mut self, attr: &FieldAttr)
        ensures
            final(self)@ == old(self)@.with(attr@),
    {
        match attr {
            FieldAttr::Vis(vis) => {
                self.vis = Some(vis.clone());
            },
            FieldAttr::Immut => {
                self.mutable = Some(false);
            },
            FieldAttr::Mut => {
                self.mutable = Some(true);
            },
            FieldAttr::Copy => {
                self.copy = true;
            },
            FieldAttr::Skip => {
                self.skip = true;
            },
        }
    }

    /// Takes one marker with the entries `attrs` into the options.
    pub fn apply_marker(&mut self, attrs: &Vec<FieldAttr>)
        ensures
            final(self)@ == old(self)@.with_marker(attrs.deep_view()),
    {
        self.derive = true;
        let ghost all = attrs.deep_view();
        let ghost start = self@;
        let mut next: usize = 0;
        while next < attrs.len()
            invariant
                next <= attrs.len(),
                all == attrs.deep_view(),
                self@ == start.with_all(all.take(next as int)),
            decreases attrs.len() - next,
        {
            self.apply(&attrs[next]);
            proof {
                assert(all.take(next + 1).drop_last() =~= all.take(next as int));
                assert(all.take(next + 1).last() == attrs[next as int]@);
            }
            next = next + 1;
        }
        assert(all.take(next as int) =~= all);
    }

    /// Reads the markers of one field.
    pub fn from_markers(markers: &Vec<Directive>) -> (found: Result<FieldOptions, DeriveError>)
        ensures
            match FieldOptionsView::of_markers(markers.deep_view()) {
                Ok(options) => found is Ok && found->Ok_0@ == options,
                Err(e) => found == Err::<FieldOptions, DeriveError>(e),
            },
    {
        let ghost all = markers.deep_view();
        let mut options = FieldOptions::new();
        let mut next: usize = 0;
        while next < markers.len()
            invariant
                next <= markers.len(),
                all == markers.deep_view(),
                FieldOptionsView::of_markers(all.take(next as int)) == Ok::<
                    FieldOptionsView,
                    DeriveError,
                >(options@),
            decreases markers.len() - next,
        {
            proof {
                assert(all.take(next + 1).drop_last() =~= all.take(next as int));
                assert(all.take(next + 1).last() == markers[next as int]@);
            }
            match markers[next].field_attrs() {
                Err(e) => {
                    proof {
                        lemma_first_failure_stays(all, next + 1);
                    }
                    return Err(e);
                },
                Ok(attrs) => {
                    options.apply_marker(&attrs);
                },
            }
            next = next + 1;
        }
        assert(all.take(next as int) =~= all);
        Ok(options)
    }
}

/// Once a marker among the first `upto` cannot be read, the outcome for the
/// whole list is that marker's error.
pub proof fn lemma_first_failure_stays(markers: Seq<DirectiveView>, upto: int)
    requires
        0 <= upto <= markers.len(),
        FieldOptionsView::of_markers(markers.take(upto)) is Err,
    ensures
        FieldOptionsView::of_markers(markers) == FieldOptionsView::of_markers(markers.take(upto)),
    decreases markers.len() - upto,
{
    if upto < markers.len() {
        assert(markers.take(upto + 1).drop_last() =~= markers.take(upto));
        lemma_first_failure_stays(markers, upto + 1);
    } else {
        assert(markers.take(upto) =~= markers);
    }
}

/// What is decided for one field.
#[derive(Clone, Debug, PartialEq, Eq)]
pub struct ResolvedPolicy {
    /// The field gets accessors.
    pub derive: bool,
    /// The accessors' visibility.
    pub visibility: Visibility,
    /// The field gets a mutable getter and a setter besides the getter.
    pub mutable: bool,
    /// The getter returns the value, not a borrow of it.
    pub by_value: bool,
}

pub struct ResolvedPolicyView {
    pub derive: bool,
    pub visibility: Seq<char>,
    pub mutable: bool,
    pub by_value: bool,
}

impl View for ResolvedPolicy {
    type V = ResolvedPolicyView;

    open spec fn view(&self) -> ResolvedPolicyView {
        ResolvedPolicyView {
            derive: self.derive,
            visibility: self.visibility@,
            mutable: self.mutable,
            by_value: self.by_value,
        }
    }
}

/// The policy of a field with the options `options` in a record with the
/// defaults `defaults`.
///
/// A field gets accessors if it has a marker or the record gives them to
/// every field, unless it asks to be left out. What the field says of
/// visibility and mutability goes before what the record says.
pub open spec fn resolved(
    defaults: InputAttrsView,
    options: FieldOptionsView,
) -> ResolvedPolicyView {
    ResolvedPolicyView {
        derive: (defaults.derive || options.derive) && !options.skip,
        visibility: match options.vis {
            Some(vis) => vis,
            None => defaults.vis,
        },
        mutable: match options.mutable {
            Some(mutable) => mutable,
            None => defaults.mutable,
        },
        by_value: options.copy,
    }
}

/// Merges a field's options with the record's defaults.
pub fn resolve(defaults: &InputAttrs, options: &FieldOptions) -> (policy: ResolvedPolicy)
    ensures
        policy@ == resolved(defaults@, options@),
{
    ResolvedPolicy {
        derive: (defaults.derive || options.derive) && !options.skip,
        visibility: match &options.vis {
            Some(vis) => vis.clone(),
            None => defaults.vis.clone(),
        },
        mutable: match options.mutable {
            Some(mutable) => mutable,
            None => defaults.mutable,
        },
        by_value: options.copy,
    }
}

} // verus!
