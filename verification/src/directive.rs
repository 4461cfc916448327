use crate::error::DeriveError;
use crate::location::Location;
use crate::token::{
    join, joined, lemma_run_stays_inside, run_end, run_length, Token, TokenView,
};
use crate::visibility::{syn_visibility, Visibility};
use vstd::prelude::*;

verus! {

/// One marker on a record or on a field.
///
/// `args` is `None` where the marker stands alone and holds the tokens
/// between the delimiters where it has an argument list, which may be empty.
#[derive(Clone, Debug, PartialEq, Eq)]
pub struct Directive {
    pub args: Option<Vec<Token>>,
    pub at: Location,
}

pub struct DirectiveView {
    pub args: Option<Seq<TokenView>>,
    pub at: Location,
}

impl View for Directive {
    type V = DirectiveView;

    open spec fn view(&self) -> DirectiveView {
        DirectiveView { args: self.args.deep_view(), at: self.at }
    }
}

impl DeepView for Directive {
    type V = DirectiveView;

    open spec fn deep_view(&self) -> DirectiveView {
        self@
    }
}

/// One entry of a record's marker.
#[derive(Clone, Debug, PartialEq, Eq)]
pub enum InputAttr {
    /// `vis = <visibility>`: the accessors' visibility.
    Vis(Visibility),
    /// `immut`: no mutable getter and no setter.
    Immut,
    /// `all`: every field gets accessors.
    All,
}

pub enum InputAttrView {
    Vis(Seq<char>),
    Immut,
    All,
}

impl View for InputAttr {
    type V = InputAttrView;

    open spec fn view(&self) -> InputAttrView {
        match self {
            InputAttr::Vis(vis) => InputAttrView::Vis(vis@),
            InputAttr::Immut => InputAttrView::Immut,
            InputAttr::All => InputAttrView::All,
        }
    }
}

impl DeepView for InputAttr {
    type V = InputAttrView;

    open spec fn deep_view(&self) -> InputAttrView {
        self@
    }
}

/// One entry of a field's marker.
#[derive(Clone, Debug, PartialEq, Eq)]
pub enum FieldAttr {
    /// `vis = <visibility>`: the accessors' visibility.
    Vis(Visibility),
    /// `immut`: no mutable getter and no setter.
    Immut,
    /// `mut`: a mutable getter and a setter.
    Mut,
    /// `copy`: the getter returns the value, not a borrow of it.
    Copy,
    /// `skip`: no accessors for this field.
    Skip,
}

pub enum FieldAttrView {
    Vis(Seq<char>),
    Immut,
    Mut,
    Copy,
    Skip,
}

impl View for FieldAttr {
    type V = FieldAttrView;

    open spec fn view(&self) -> FieldAttrView {
        match self {
            FieldAttr::Vis(vis) => FieldAttrView::Vis(vis@),
            FieldAttr::Immut => FieldAttrView::Immut,
            FieldAttr::Mut => FieldAttrView::Mut,
            FieldAttr::Copy => FieldAttrView::Copy,
            FieldAttr::Skip => FieldAttrView::Skip,
        }
    }
}

impl DeepView for FieldAttr {
    type V = FieldAttrView;

    open spec fn deep_view(&self) -> FieldAttrView {
        self@
    }
}

/// The visibility that is assigned at `from`, where the word `vis` stands,
/// and the number of tokens that the assignment takes up.
///
/// After the word comes `=`, and after that the visibility, which runs up to
/// the next comma or to the end. A missing `=` is reported at the token in
/// its place, a text that is no visibility at its first token, and what is
/// missing at the end of the list at `end_at`.
pub open spec fn assignment_at(tokens: Seq<TokenView>, from: int, end_at: Location) -> Result<
    (Seq<char>, nat),
    DeriveError,
> {
    if from + 1 >= tokens.len() {
        Err(DeriveError::UnsupportedDirective { at: end_at })
    } else if !tokens[from + 1].is_punct("="@) {
        Err(DeriveError::UnsupportedDirective { at: tokens[from + 1].at })
    } else {
        let run = run_length(tokens, from + 2);
        let source = joined(tokens.subrange(from + 2, from + 2 + run));
        if syn_visibility(source) {
            Ok((source, 2 + run))
        } else if run == 0 {
            Err(DeriveError::UnsupportedDirective { at: tokens[from + 1].at })
        } else {
            Err(DeriveError::UnsupportedDirective { at: tokens[from + 2].at })
        }
    }
}

fn parse_assignment(tokens: &Vec<Token>, from: usize, end_at: Location) -> (found: Result<
    (Visibility, usize),
    DeriveError,
>)
    requires
        from < tokens.len(),
    ensures
        match assignment_at(tokens.deep_view(), from as int, end_at) {
            Ok((source, used)) => found is Ok && found->Ok_0.0@ == source && found->Ok_0.1 == from
                + used && from + used <= tokens.len(),
            Err(e) => found == Err::<(Visibility, usize), DeriveError>(e),
        },
{
    if from + 1 >= tokens.len() {
        return Err(DeriveError::UnsupportedDirective { at: end_at });
    }
    if !tokens[from + 1].is_punct("=") {
        return Err(DeriveError::UnsupportedDirective { at: tokens[from + 1].at });
    }
    let start: usize = from + 2;
    let end: usize = run_end(tokens, start);
    proof {
        lemma_run_stays_inside(tokens.deep_view(), start as int);
    }
    let at = if end == start {
        tokens[from + 1].at
    } else {
        tokens[start].at
    };
    match Visibility::parse(join(tokens, start, end), at) {
        Ok(vis) => Ok((vis, end)),
        Err(e) => Err(e),
    }
}

impl InputAttr {
    /// The entry that stands at `from`, and the number of tokens it takes up.
    ///
    /// An entry is one of the words `immut` and `all`, or the word `vis`
    /// with an assignment. Anything else is reported at its first token, and
    /// an entry that is missing at `end_at`.
    pub open spec fn parsed_at(tokens: Seq<TokenView>, from: int, end_at: Location) -> Result<
        (InputAttrView, nat),
        DeriveError,
    > {
        if from < 0 || from >= tokens.len() {
            Err(DeriveError::UnsupportedDirective { at: end_at })
        } else if tokens[from].is_word("vis"@) {
            match assignment_at(tokens, from, end_at) {
                Ok((source, used)) => Ok((InputAttrView::Vis(source), used)),
                Err(e) => Err(e),
            }
        } else if tokens[from].is_word("immut"@) {
            Ok((InputAttrView::Immut, 1))
        } else if tokens[from].is_word("all"@) {
            Ok((InputAttrView::All, 1))
        } else {
            Err(DeriveError::UnsupportedDirective { at: tokens[from].at })
        }
    }

    /// The entries of the list that starts at `from`.
    ///
    /// Entries are separated by commas, and a comma may follow the last one.
    /// Anything else after an entry is reported at that token.
    pub open spec fn parsed_list(tokens: Seq<TokenView>, from: int, end_at: Location) -> Result<
        Seq<InputAttrView>,
        DeriveError,
    >
        decreases tokens.len() - from,
    {
        if from < 0 || from >= tokens.len() {
            Ok(Seq::empty())
        } else {
            match InputAttr::parsed_at(tokens, from, end_at) {
                Err(e) => Err(e),
                Ok((attr, used)) => {
                    let next = from + used;
                    if next >= tokens.len() {
                        Ok(seq![attr])
                    } else if !tokens[next].is_punct(","@) {
                        Err(DeriveError::UnsupportedDirective { at: tokens[next].at })
                    } else {
                        match InputAttr::parsed_list(tokens, next + 1, end_at) {
                            Err(e) => Err(e),
                            Ok(rest) => Ok(seq![attr] + rest),
                        }
                    }
                },
            }
        }
    }

    /// Reads the entry at `from`; returns it with the index after it.
    pub fn parse(tokens: &Vec<Token>, from: usize, end_at: Location) -> (found: Result<
        (InputAttr, usize),
        DeriveError,
    >)
        ensures
            match InputAttr::parsed_at(tokens.deep_view(), from as int, end_at) {
                Ok((attr, used)) => found is Ok && found->Ok_0.0@ == attr && found->Ok_0.1 == from
                    + used && 0 < used && from + used <= tokens.len(),
                Err(e) => found == Err::<(InputAttr, usize), DeriveError>(e),
            },
    {
        if from >= tokens.len() {
            return Err(DeriveError::UnsupportedDirective { at: end_at });
        }
        let token = &tokens[from];
        if token.is_word("vis") {
            match parse_assignment(tokens, from, end_at) {
                Ok((vis, next)) => Ok((InputAttr::Vis(vis), next)),
                Err(e) => Err(e),
            }
        } else if token.is_word("immut") {
            Ok((InputAttr::Immut, from + 1))
        } else if token.is_word("all") {
            Ok((InputAttr::All, from + 1))
        } else {
            Err(DeriveError::UnsupportedDirective { at: token.at })
        }
    }

    /// Reads a whole argument list.
    pub fn parse_list(tokens: &Vec<Token>, end_at: Location) -> (found: Result<
        Vec<InputAttr>,
        DeriveError,
    >)
        ensures
            match InputAttr::parsed_list(tokens.deep_view(), 0, end_at) {
                Ok(attrs) => found is Ok && found->Ok_0.deep_view() == attrs,
                Err(e) => found == Err::<Vec<InputAttr>, DeriveError>(e),
            },
    {
        let ghost all = tokens.deep_view();
        let ghost whole = InputAttr::parsed_list(all, 0, end_at);
        let mut attrs: Vec<InputAttr> = Vec::new();
        let mut from: usize = 0;
        while from < tokens.len()
            invariant
                all == tokens.deep_view(),
                whole == InputAttr::parsed_list(all, 0, end_at),
                from <= tokens.len(),
                match InputAttr::parsed_list(all, from as int, end_at) {
                    Ok(rest) => whole == Ok::<Seq<InputAttrView>, DeriveError>(
                        attrs.deep_view() + rest,
                    ),
                    Err(e) => whole == Err::<Seq<InputAttrView>, DeriveError>(e),
                },
            decreases tokens.len() - from,
        {
            let ghost before = attrs.deep_view();
            match InputAttr::parse(tokens, from, end_at) {
                Err(e) => {
                    return Err(e);
                },
                Ok((attr, next)) => {
                    let ghost entry = attr@;
                    attrs.push(attr);
                    assert(attrs.deep_view() =~= before.push(entry));
                    if next >= tokens.len() {
                        assert(before + seq![entry] =~= before.push(entry));
                        return Ok(attrs);
                    }
                    if !tokens[next].is_punct(",") {
                        return Err(DeriveError::UnsupportedDirective { at: tokens[next].at });
                    }
                    proof {
                        match InputAttr::parsed_list(all, next + 1, end_at) {
                            Ok(rest) => {
                                assert(before + (seq![entry] + rest) =~= before.push(entry) + rest);
                            },
                            Err(_) => {},
                        }
                    }
                    from = next + 1;
                },
            }
        }
        assert(attrs.deep_view() + Seq::<InputAttrView>::empty() =~= attrs.deep_view());
        Ok(attrs)
    }
}

impl FieldAttr {
    /// The entry that stands at `from`, and the number of tokens it takes up.
    ///
    /// An entry is one of the words `mut`, `immut`, `copy` and `skip`, or the
    /// word `vis` with an assignment. Anything else is reported at its first
    /// token, and an entry that is missing at `end_at`.
    pub open spec fn parsed_at(tokens: Seq<TokenView>, from: int, end_at: Location) -> Result<
        (FieldAttrView, nat),
        DeriveError,
    > {
        if from < 0 || from >= tokens.len() {
            Err(DeriveError::UnsupportedDirective { at: end_at })
        } else if tokens[from].is_word("mut"@) {
            Ok((FieldAttrView::Mut, 1))
        } else if tokens[from].is_word("vis"@) {
            match assignment_at(tokens, from, end_at) {
                Ok((source, used)) => Ok((FieldAttrView::Vis(source), used)),
                Err(e) => Err(e),
            }
        } else if tokens[from].is_word("immut"@) {
            Ok((FieldAttrView::Immut, 1))
        } else if tokens[from].is_word("copy"@) {
            Ok((FieldAttrView::Copy, 1))
        } else if tokens[from].is_word("skip"@) {
            Ok((FieldAttrView::Skip, 1))
        } else {
            Err(DeriveError::UnsupportedDirective { at: tokens[from].at })
        }
    }

    /// The entries of the list that starts at `from`.
    ///
    /// Entries are separated by commas, and a comma may follow the last one.
    /// Anything else after an entry is reported at that token.
    pub open spec fn parsed_list(tokens: Seq<TokenView>, from: int, end_at: Location) -> Result<
        Seq<FieldAttrView>,
        DeriveError,
    >
        decreases tokens.len() - from,
    {
        if from < 0 || from >= tokens.len() {
            Ok(Seq::empty())
        } else {
            match FieldAttr::parsed_at(tokens, from, end_at) {
                Err(e) => Err(e),
                Ok((attr, used)) => {
                    let next = from + used;
                    if next >= tokens.len() {
                        Ok(seq![attr])
                    } else if !tokens[next].is_punct(","@) {
                        Err(DeriveError::UnsupportedDirective { at: tokens[next].at })
                    } else {
                        match FieldAttr::parsed_list(tokens, next + 1, end_at) {
                            Err(e) => Err(e),
                            Ok(rest) => Ok(seq![attr] + rest),
                        }
                    }
                },
            }
        }
    }

    /// Reads the entry at `from`; returns it with the index after it.
    pub fn parse(tokens: &Vec<Token>, from: usize, end_at: Location) -> (found: Result<
        (FieldAttr, usize),
        DeriveError,
    >)
        ensures
            match FieldAttr::parsed_at(tokens.deep_view(), from as int, end_at) {
                Ok((attr, used)) => found is Ok && found->Ok_0.0@ == attr && found->Ok_0.1 == from
                    + used && 0 < used && from + used <= tokens.len(),
                Err(e) => found == Err::<(FieldAttr, usize), DeriveError>(e),
            },
    {
        if from >= tokens.len() {
            return Err(DeriveError::UnsupportedDirective { at: end_at });
        }
        let token = &tokens[from];
        if token.is_word("mut") {
            Ok((FieldAttr::Mut, from + 1))
        } else if token.is_word("vis") {
            match parse_assignment(tokens, from, end_at) {
                Ok((vis, next)) => Ok((FieldAttr::Vis(vis), next)),
                Err(e) => Err(e),
            }
        } else if token.is_word("immut") {
            Ok((FieldAttr::Immut, from + 1))
        } else if token.is_word("copy") {
            Ok((FieldAttr::Copy, from + 1))
        } else if token.is_word("skip") {
            Ok((FieldAttr::Skip, from + 1))
        } else {
            Err(DeriveError::UnsupportedDirective { at: token.at })
        }
    }

    /// Reads a whole argument list.
    pub fn parse_list(tokens: &Vec<Token>, end_at: Location) -> (found: Result<
        Vec<FieldAttr>,
        DeriveError,
    >)
        ensures
            match FieldAttr::parsed_list(tokens.deep_view(), 0, end_at) {
                Ok(attrs) => found is Ok && found->Ok_0.deep_view() == attrs,
                Err(e) => found == Err::<Vec<FieldAttr>, DeriveError>(e),
            },
    {
        let ghost all = tokens.deep_view();
        let ghost whole = FieldAttr::parsed_list(all, 0, end_at);
        let mut attrs: Vec<FieldAttr> = Vec::new();
        let mut from: usize = 0;
        while from < tokens.len()
            invariant
                all == tokens.deep_view(),
                whole == FieldAttr::parsed_list(all, 0, end_at),
                from <= tokens.len(),
                match FieldAttr::parsed_list(all, from as int, end_at) {
                    Ok(rest) => whole == Ok::<Seq<FieldAttrView>, DeriveError>(
                        attrs.deep_view() + rest,
                    ),
                    Err(e) => whole == Err::<Seq<FieldAttrView>, DeriveError>(e),
                },
            decreases tokens.len() - from,
        {
            let ghost before = attrs.deep_view();
            match FieldAttr::parse(tokens, from, end_at) {
                Err(e) => {
                    return Err(e);
                },
                Ok((attr, next)) => {
                    let ghost entry = attr@;
                    attrs.push(attr);
                    assert(attrs.deep_view() =~= before.push(entry));
                    if next >= tokens.len() {
                        assert(before + seq![entry] =~= before.push(entry));
                        return Ok(attrs);
                    }
                    if !tokens[next].is_punct(",") {
                        return Err(DeriveError::UnsupportedDirective { at: tokens[next].at });
                    }
                    proof {
                        match FieldAttr::parsed_list(all, next + 1, end_at) {
                            Ok(rest) => {
                                assert(before + (seq![entry] + rest) =~= before.push(entry) + rest);
                            },
                            Err(_) => {},
                        }
                    }
                    from = next + 1;
                },
            }
        }
        assert(attrs.deep_view() + Seq::<FieldAttrView>::empty() =~= attrs.deep_view());
        Ok(attrs)
    }
}

impl DirectiveView {
    /// The entries of a marker on a field. A marker that stands alone has
    /// none.
    pub open spec fn field_attrs(self) -> Result<Seq<FieldAttrView>, DeriveError> {
        match self.args {
            None => Ok(Seq::empty()),
            Some(tokens) => FieldAttr::parsed_list(tokens, 0, self.at),
        }
    }

    /// The entries of a marker on a record. There a marker that stands alone
    /// is not supported.
    pub open spec fn input_attrs(self) -> Result<Seq<InputAttrView>, DeriveError> {
        match self.args {
            None => Err(DeriveError::UnsupportedDirective { at: self.at }),
            Some(tokens) => InputAttr::parsed_list(tokens, 0, self.at),
        }
    }
}

impl Directive {
    /// A marker that stands alone.
    pub fn bare(at: Location) -> (marker: Directive)
        ensures
            marker@ == (DirectiveView { args: None, at }),
    {
        Directive { args: None, at }
    }

    /// A marker with the argument list `tokens`.
    pub fn with_args(tokens: Vec<Token>, at: Location) -> (marker: Directive)
        ensures
            marker@ == (DirectiveView { args: Some(tokens.deep_view()), at }),
    {
        Directive { args: Some(tokens), at }
    }

    /// Reads the marker as one on a field.
    pub fn field_attrs(&self) -> (found: Result<Vec<FieldAttr>, DeriveError>)
        ensures
            match self@.field_attrs() {
                Ok(attrs) => found is Ok && found->Ok_0.deep_view() == attrs,
                Err(e) => found == Err::<Vec<FieldAttr>, DeriveError>(e),
            },
    {
        match &self.args {
            None => {
                let attrs: Vec<FieldAttr> = Vec::new();
                assert(attrs.deep_view() =~= Seq::<FieldAttrView>::empty());
                Ok(attrs)
            },
            Some(tokens) => FieldAttr::parse_list(tokens, self.at),
        }
    }

    /// Reads the marker as one on a record.
    pub fn input_attrs(&self) -> (found: Result<Vec<InputAttr>, DeriveError>)
        ensures
            match self@.input_attrs() {
                Ok(attrs) => found is Ok && found->Ok_0.deep_view() == attrs,
                Err(e) => found == Err::<Vec<InputAttr>, DeriveError>(e),
            },
    {
        match &self.args {
            None => Err(DeriveError::UnsupportedDirective { at: self.at }),
            Some(tokens) => InputAttr::parse_list(tokens, self.at),
        }
    }
}

} // verus!
