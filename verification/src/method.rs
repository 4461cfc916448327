use crate::location::Location;
use crate::policy::{ResolvedPolicy, ResolvedPolicyView};
use crate::record::{FieldDescriptor, FieldDescriptorView};
use crate::visibility::Visibility;
use vstd::prelude::*;

verus! {

/// Which accessor a method is.
#[derive(Clone, Copy, Debug, PartialEq, Eq, Structural)]
pub enum MethodKind {
    Getter,
    MutGetter,
    Setter,
}

/// How a method takes the record.
#[derive(Clone, Copy, Debug, PartialEq, Eq, Structural)]
pub enum Receiver {
    /// `&self`
    Shared,
    /// `&mut self`
    Exclusive,
}

/// How a value is handed over.
#[derive(Clone, Copy, Debug, PartialEq, Eq, Structural)]
pub enum Passing {
    /// The value itself.
    Value,
    /// A shared borrow of it.
    Borrow,
    /// A mutable borrow of it.
    BorrowMut,
}

/// A parameter of a method, besides the record itself.
#[derive(Clone, Debug, PartialEq, Eq)]
pub struct Param {
    pub name: String,
    pub ty: String,
}

pub struct ParamView {
    pub name: Seq<char>,
    pub ty: Seq<char>,
}

impl View for Param {
    type V = ParamView;

    open spec fn view(&self) -> ParamView {
        ParamView { name: self.name@, ty: self.ty@ }
    }
}

impl DeepView for Param {
    type V = ParamView;

    open spec fn deep_view(&self) -> ParamView {
        self@
    }
}

/// What a method hands back: a value of type `ty`, or a borrow of one.
#[derive(Clone, Debug, PartialEq, Eq)]
pub struct ReturnType {
    pub passing: Passing,
    pub ty: String,
}

pub struct ReturnTypeView {
    pub passing: Passing,
    pub ty: Seq<char>,
}

impl View for ReturnType {
    type V = ReturnTypeView;

    open spec fn view(&self) -> ReturnTypeView {
        ReturnTypeView { passing: self.passing, ty: self.ty@ }
    }
}

impl DeepView for ReturnType {
    type V = ReturnTypeView;

    open spec fn deep_view(&self) -> ReturnTypeView {
        self@
    }
}

/// What a method does.
#[derive(Clone, Debug, PartialEq, Eq)]
pub enum Body {
    /// Hands out the field `field` of the record.
    Read { passing: Passing, field: String },
    /// Assigns the parameter `value` to the field `field` of the record.
    Assign { field: String, value: String },
}

pub enum BodyView {
    Read { passing: Passing, field: Seq<char> },
    Assign { field: Seq<char>, value: Seq<char> },
}

impl View for Body {
    type V = BodyView;

    open spec fn view(&self) -> BodyView {
        match self {
            Body::Read { passing, field } => BodyView::Read { passing: *passing, field: field@ },
            Body::Assign { field, value } => BodyView::Assign { field: field@, value: value@ },
        }
    }
}

/// One accessor method.
#[derive(Clone, Debug, PartialEq, Eq)]
pub struct MethodDefinition {
    pub kind: MethodKind,
    pub name: String,
    pub visibility: Visibility,
    /// The documentation: each annotation as it is written on the field.
    pub docs: Vec<String>,
    pub receiver: Receiver,
    /// The parameters after the record itself.
    pub params: Vec<Param>,
    /// What the method hands back, if anything.
    pub output: Option<ReturnType>,
    pub body: Body,
    /// The place of the field that the method is made for.
    pub at: Location,
}

pub struct MethodDefinitionView {
    pub kind: MethodKind,
    pub name: Seq<char>,
    pub visibility: Seq<char>,
    pub docs: Seq<Seq<char>>,
    pub receiver: Receiver,
    pub params: Seq<ParamView>,
    pub output: Option<ReturnTypeView>,
    pub body: BodyView,
    pub at: Location,
}

impl View for MethodDefinition {
    type V = MethodDefinitionView;

    open spec fn view(&self) -> MethodDefinitionView {
        MethodDefinitionView {
            kind: self.kind,
            name: self.name@,
            visibility: self.visibility@,
            docs: self.docs.deep_view(),
            receiver: self.receiver,
            params: self.params.deep_view(),
            output: self.output.deep_view(),
            body: self.body@,
            at: self.at,
        }
    }
}

impl DeepView for MethodDefinition {
    type V = MethodDefinitionView;

    open spec fn deep_view(&self) -> MethodDefinitionView {
        self@
    }
}

/// The name `name` without the prefix `r#` that marks a raw identifier: the
/// part of a field's name that goes into the names made from it.
pub open spec fn stem_of(name: Seq<char>) -> Seq<char> {
    if name.len() >= 2 && name[0] == 'r' && name[1] == '#' {
        name.skip(2)
    } else {
        name
    }
}

/// The getter of `field`: named as the field, it takes the record by shared
/// borrow and hands back the field, by value where `policy` says so and else by
/// shared borrow.
pub open spec fn getter_of(
    field: FieldDescriptorView,
    policy: ResolvedPolicyView,
) -> MethodDefinitionView {
    let passing = if policy.by_value {
        Passing::Value
    } else {
        Passing::Borrow
    };
    MethodDefinitionView {
        kind: MethodKind::Getter,
        name: field.name,
        visibility: policy.visibility,
        docs: field.docs,
        receiver: Receiver::Shared,
        params: Seq::empty(),
        output: Some(ReturnTypeView { passing, ty: field.ty }),
        body: BodyView::Read { passing, field: field.name },
        at: field.at,
    }
}

/// The mutable getter of `field`: named `<field>_mut` after the stem of the
/// field's name, it takes the record by mutable borrow and hands back a
/// mutable borrow of the field.
pub open spec fn mut_getter_of(
    field: FieldDescriptorView,
    policy: ResolvedPolicyView,
) -> MethodDefinitionView {
    MethodDefinitionView {
        kind: MethodKind::MutGetter,
        name: stem_of(field.name) + "_mut"@,
        visibility: policy.visibility,
        docs: field.docs,
        receiver: Receiver::Exclusive,
        params: Seq::empty(),
        output: Some(ReturnTypeView { passing: Passing::BorrowMut, ty: field.ty }),
        body: BodyView::Read { passing: Passing::BorrowMut, field: field.name },
        at: field.at,
    }
}

/// The setter of `field`: named `set_<field>` after the stem of the field's
/// name, it takes the record by mutable borrow and a value of the field's
/// type, assigns the value to the field and hands back nothing.
pub open spec fn setter_of(
    field: FieldDescriptorView,
    policy: ResolvedPolicyView,
) -> MethodDefinitionView {
    MethodDefinitionView {
        kind: MethodKind::Setter,
        name: "set_"@ + stem_of(field.name),
        visibility: policy.visibility,
        docs: field.docs,
        receiver: Receiver::Exclusive,
        params: seq![ParamView { name: field.name, ty: field.ty }],
        output: None,
        body: BodyView::Assign { field: field.name, value: field.name },
        at: field.at,
    }
}

/// The accessors of `field` under `policy`: none where the policy derives
/// nothing; else the getter, followed by the mutable getter and the setter
/// where the policy is mutable.
pub open spec fn synthesized(field: FieldDescriptorView, policy: ResolvedPolicyView) -> Seq<
    MethodDefinitionView,
> {
    if !policy.derive {
        Seq::empty()
    } else if policy.mutable {
        seq![getter_of(field, policy), mut_getter_of(field, policy), setter_of(field, policy)]
    } else {
        seq![getter_of(field, policy)]
    }
}

/// A copy of `lines`.
pub fn copy_lines(lines: &Vec<String>) -> (copy: Vec<String>)
    ensures
        copy.deep_view() == lines.deep_view(),
{
    let mut copy: Vec<String> = Vec::new();
    let mut next: usize = 0;
    while next < lines.len()
        invariant
            next <= lines.len(),
            copy.len() == next,
            forall|i: int| 0 <= i < next ==> copy[i]@ == lines[i]@,
        decreases lines.len() - next,
    {
        copy.push(lines[next].clone());
        next = next + 1;
    }
    assert(copy.deep_view() =~= lines.deep_view());
    copy
}

/// The part of `name` that goes into the names made from it.
pub fn stem(name: &str) -> (part: &str)
    ensures
        part@ == stem_of(name@),
{
    let length = name.unicode_len();
    if length >= 2 && name.get_char(0) == 'r' && name.get_char(1) == '#' {
        name.substring_char(2, length)
    } else {
        name
    }
}

fn getter(field: &FieldDescriptor, policy: &ResolvedPolicy) -> (method: MethodDefinition)
    ensures
        method@ == getter_of(field@, policy@),
{
    let passing = if policy.by_value {
        Passing::Value
    } else {
        Passing::Borrow
    };
    let params: Vec<Param> = Vec::new();
    assert(params.deep_view() =~= Seq::<ParamView>::empty());
    MethodDefinition {
        kind: MethodKind::Getter,
        name: field.name.clone(),
        visibility: policy.visibility.clone(),
        docs: copy_lines(&field.docs),
        receiver: Receiver::Shared,
        params,
        output: Some(ReturnType { passing, ty: field.ty.clone() }),
        body: Body::Read { passing, field: field.name.clone() },
        at: field.at,
    }
}

fn mut_getter(field: &FieldDescriptor, policy: &ResolvedPolicy) -> (method: MethodDefinition)
    ensures
        method@ == mut_getter_of(field@, policy@),
{
    let params: Vec<Param> = Vec::new();
    assert(params.deep_view() =~= Seq::<ParamView>::empty());
    MethodDefinition {
        kind: MethodKind::MutGetter,
        name: String::from_str(stem(field.name.as_str())).concat("_mut"),
        visibility: policy.visibility.clone(),
        docs: copy_lines(&field.docs),
        receiver: Receiver::Exclusive,
        params,
        output: Some(ReturnType { passing: Passing::BorrowMut, ty: field.ty.clone() }),
        body: Body::Read { passing: Passing::BorrowMut, field: field.name.clone() },
        at: field.at,
    }
}

fn setter(field: &FieldDescriptor, policy: &ResolvedPolicy) -> (method: MethodDefinition)
    ensures
        method@ == setter_of(field@, policy@),
{
    let mut params: Vec<Param> = Vec::new();
    params.push(Param { name: field.name.clone(), ty: field.ty.clone() });
    assert(params.deep_view() =~= seq![ParamView { name: field.name@, ty: field.ty@ }]);
    MethodDefinition {
        kind: MethodKind::Setter,
        name: String::from_str("set_").concat(stem(field.name.as_str())),
        visibility: policy.visibility.clone(),
        docs: copy_lines(&field.docs),
        receiver: Receiver::Exclusive,
        params,
        output: None,
        body: Body::Assign { field: field.name.clone(), value: field.name.clone() },
        at: field.at,
    }
}

/// Lays out the accessors of `field` under `policy`.
pub fn synthesize(field: &FieldDescriptor, policy: &ResolvedPolicy) -> (methods: Vec<
    MethodDefinition,
>)
    ensures
        methods.deep_view() == synthesized(field@, policy@),
{
    let mut methods: Vec<MethodDefinition> = Vec::new();
    if policy.derive {
        methods.push(getter(field, policy));
        if policy.mutable {
            methods.push(mut_getter(field, policy));
            methods.push(setter(field, policy));
        }
    }
    assert(methods.deep_view() =~= synthesized(field@, policy@));
    methods
}

} // verus!
