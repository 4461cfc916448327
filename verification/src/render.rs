use crate::block::{ImplBlock, ImplBlockView};
use crate::error::DeriveError;
use crate::expand::{Expansion, ExpansionView};
use crate::method::{
    Body, BodyView, MethodDefinition, MethodDefinitionView, MethodKind, Param, ParamView, Passing,
    Receiver, ReturnType, ReturnTypeView,
};
use crate::record::{GenericParam, GenericParamView};
use vstd::prelude::*;

verus! {

/// What is written before a type or a place to pass it in the given way.
pub open spec fn passing_text(passing: Passing) -> Seq<char> {
    match passing {
        Passing::Value => ""@,
        Passing::Borrow => "&"@,
        Passing::BorrowMut => "&mut "@,
    }
}

pub open spec fn receiver_text(receiver: Receiver) -> Seq<char> {
    match receiver {
        Receiver::Shared => "&self"@,
        Receiver::Exclusive => "&mut self"@,
    }
}

/// The attributes that a method of the given kind carries: the getters must
/// be used, and every accessor is inlined.
pub open spec fn attributes_text(kind: MethodKind) -> Seq<char> {
    match kind {
        MethodKind::Getter => "#[must_use = \"Getters have no side effect\"]\n#[inline(always)]\n"@,
        MethodKind::MutGetter =>
            "#[must_use = \"Mutable getters have no side effect\"]\n#[inline(always)]\n"@,
        MethodKind::Setter => "#[inline(always)]\n"@,
    }
}

/// The lines `lines`, each with a line end after it.
pub open spec fn lines_text(lines: Seq<Seq<char>>) -> Seq<char>
    decreases lines.len(),
{
    if lines.len() == 0 {
        Seq::empty()
    } else {
        lines_text(lines.drop_last()) + lines.last() + "\n"@
    }
}

/// The parameters `params` as they follow the receiver in a parameter list.
pub open spec fn params_text(params: Seq<ParamView>) -> Seq<char>
    decreases params.len(),
{
    if params.len() == 0 {
        Seq::empty()
    } else {
        params_text(params.drop_last()) + ", "@ + params.last().name + ": "@ + params.last().ty
    }
}

pub open spec fn output_text(output: Option<ReturnTypeView>) -> Seq<char> {
    match output {
        None => Seq::empty(),
        Some(output) => " -> "@ + passing_text(output.passing) + output.ty,
    }
}

pub open spec fn body_text(body: BodyView) -> Seq<char> {
    match body {
        BodyView::Read { passing, field } => passing_text(passing) + "self."@ + field,
        BodyView::Assign { field, value } => "self."@ + field + " = "@ + value + ";"@,
    }
}

impl MethodDefinitionView {
    /// The method as source text: the documentation, the attributes, then
    /// the signature and the body on one line.
    pub open spec fn text(self) -> Seq<char> {
        lines_text(self.docs) + attributes_text(self.kind) + self.visibility + " fn "@ + self.name
            + "("@ + receiver_text(self.receiver) + params_text(self.params) + ")"@ + output_text(
            self.output,
        ) + " { "@ + body_text(self.body) + " }\n"@
    }
}

/// The methods `methods` as source text, one after the other.
pub open spec fn methods_text(methods: Seq<MethodDefinitionView>) -> Seq<char>
    decreases methods.len(),
{
    if methods.len() == 0 {
        Seq::empty()
    } else {
        methods_text(methods.drop_last()) + methods.last().text()
    }
}

/// The parameters `generics`, separated by commas: as they are used where
/// `usage` holds, and as they are declared where it does not.
pub open spec fn listed(generics: Seq<GenericParamView>, usage: bool) -> Seq<char>
    decreases generics.len(),
{
    if generics.len() == 0 {
        Seq::empty()
    } else {
        let item = if usage {
            generics.last().usage
        } else {
            generics.last().decl
        };
        if generics.len() == 1 {
            item
        } else {
            listed(generics.drop_last(), usage) + ", "@ + item
        }
    }
}

/// The parameter list in angle brackets, or nothing where there are no
/// parameters.
pub open spec fn generics_text(generics: Seq<GenericParamView>, usage: bool) -> Seq<char> {
    if generics.len() == 0 {
        Seq::empty()
    } else {
        "<"@ + listed(generics, usage) + ">"@
    }
}

pub open spec fn bounds_text(bounds: Option<Seq<char>>) -> Seq<char> {
    match bounds {
        None => Seq::empty(),
        Some(bounds) => " "@ + bounds,
    }
}

impl ImplBlockView {
    /// The block's header as source text: `impl` with the generic
    /// parameters as declared, the record's name with the parameters as
    /// used, and the `where` clause.
    pub open spec fn head_text(self) -> Seq<char> {
        "impl"@ + generics_text(self.generics, false) + " "@ + self.name + generics_text(
            self.generics,
            true,
        ) + bounds_text(self.bounds)
    }

    /// The block as source text: the header, then the methods between
    /// braces.
    pub open spec fn text(self) -> Seq<char> {
        self.head_text() + " {\n"@ + methods_text(self.methods) + "}\n"@
    }
}

/// The invocation of `compile_error` that reports `error`.
pub open spec fn compile_error_text(error: DeriveError) -> Seq<char> {
    "compile_error! { \""@ + error.text() + "\" }\n"@
}

impl ExpansionView {
    /// The expansion as source text.
    pub open spec fn text(self) -> Seq<char> {
        match self {
            ExpansionView::Accessors(block) => block.text(),
            ExpansionView::CompileError(error) => compile_error_text(error),
        }
    }
}

fn passing_str(passing: Passing) -> (text: &'static str)
    ensures
        text@ == passing_text(passing),
{
    match passing {
        Passing::Value => "",
        Passing::Borrow => "&",
        Passing::BorrowMut => "&mut ",
    }
}

fn write_lines(out: &mut String, lines: &Vec<String>)
    ensures
        final(out)@ == old(out)@ + lines_text(lines.deep_view()),
{
    let ghost all = lines.deep_view();
    let ghost start = out@;
    let mut next: usize = 0;
    assert(start + lines_text(all.take(0)) =~= start);
    while next < lines.len()
        invariant
            next <= lines.len(),
            all == lines.deep_view(),
            out@ == start + lines_text(all.take(next as int)),
        decreases lines.len() - next,
    {
        out.append(lines[next].as_str());
        out.append("\n");
        proof {
            assert(all.take(next + 1).drop_last() =~= all.take(next as int));
            assert(all.take(next + 1).last() == lines[next as int]@);
            assert(out@ =~= start + lines_text(all.take(next + 1)));
        }
        next = next + 1;
    }
    assert(all.take(next as int) =~= all);
}

fn write_params(out: &mut String, params: &Vec<Param>)
    ensures
        final(out)@ == old(out)@ + params_text(params.deep_view()),
{
    let ghost all = params.deep_view();
    let ghost start = out@;
    let mut next: usize = 0;
    assert(start + params_text(all.take(0)) =~= start);
    while next < params.len()
        invariant
            next <= params.len(),
            all == params.deep_view(),
            out@ == start + params_text(all.take(next as int)),
        decreases params.len() - next,
    {
        out.append(", ");
        out.append(params[next].name.as_str());
        out.append(": ");
        out.append(params[next].ty.as_str());
        proof {
            assert(all.take(next + 1).drop_last() =~= all.take(next as int));
            assert(all.take(next + 1).last() == params[next as int]@);
            assert(out@ =~= start + params_text(all.take(next + 1)));
        }
        next = next + 1;
    }
    assert(all.take(next as int) =~= all);
}

fn write_output(out: &mut String, output: &Option<ReturnType>)
    ensures
        final(out)@ == old(out)@ + output_text(output.deep_view()),
{
    match output {
        None => {
            assert(out@ + Seq::<char>::empty() =~= out@);
        },
        Some(output) => {
            let ghost start = out@;
            out.append(" -> ");
            out.append(passing_str(output.passing));
            out.append(output.ty.as_str());
            assert(out@ =~= start + (" -> "@ + passing_text(output.passing) + output.ty@));
        },
    }
}

fn write_body(out: &mut String, body: &Body)
    ensures
        final(out)@ == old(out)@ + body_text(body@),
{
    let ghost start = out@;
    match body {
        Body::Read { passing, field } => {
            out.append(passing_str(*passing));
            out.append("self.");
            out.append(field.as_str());
            assert(out@ =~= start + (passing_text(*passing) + "self."@ + field@));
        },
        Body::Assign { field, value } => {
            out.append("self.");
            out.append(field.as_str());
            out.append(" = ");
            out.append(value.as_str());
            out.append(";");
            assert(out@ =~= start + ("self."@ + field@ + " = "@ + value@ + ";"@));
        },
    }
}

fn write_method(out: &mut String, method: &MethodDefinition)
    ensures
        final(out)@ == old(out)@ + method@.text(),
{
    let ghost start = out@;
    write_lines(out, &method.docs);
    out.append(
        match method.kind {
            MethodKind::Getter =>
                "#[must_use = \"Getters have no side effect\"]\n#[inline(always)]\n",
            MethodKind::MutGetter =>
                "#[must_use = \"Mutable getters have no side effect\"]\n#[inline(always)]\n",
            MethodKind::Setter => "#[inline(always)]\n",
        },
    );
    out.append(method.visibility.text.as_str());
    out.append(" fn ");
    out.append(method.name.as_str());
    out.append("(");
    out.append(
        match method.receiver {
            Receiver::Shared => "&self",
            Receiver::Exclusive => "&mut self",
        },
    );
    write_params(out, &method.params);
    out.append(")");
    write_output(out, &method.output);
    out.append(" { ");
    write_body(out, &method.body);
    out.append(" }\n");
    assert(out@ =~= start + method@.text());
}

fn write_generics(out: &mut String, generics: &Vec<GenericParam>, usage: bool)
    ensures
        final(out)@ == old(out)@ + generics_text(generics.deep_view(), usage),
{
    let ghost all = generics.deep_view();
    let ghost start = out@;
    if generics.len() == 0 {
        assert(start + Seq::<char>::empty() =~= start);
        return ;
    }
    out.append("<");
    let mut next: usize = 0;
    assert(start + "<"@ + listed(all.take(0), usage) =~= start + "<"@);
    while next < generics.len()
        invariant
            next <= generics.len(),
            all == generics.deep_view(),
            out@ == start + "<"@ + listed(all.take(next as int), usage),
        decreases generics.len() - next,
    {
        if next > 0 {
            out.append(", ");
        }
        if usage {
            out.append(generics[next].usage.as_str());
        } else {
            out.append(generics[next].decl.as_str());
        }
        proof {
            assert(all.take(next + 1).drop_last() =~= all.take(next as int));
            assert(all.take(next + 1).last() == generics[next as int]@);
            assert(out@ =~= start + "<"@ + listed(all.take(next + 1), usage));
        }
        next = next + 1;
    }
    out.append(">");
    assert(all.take(next as int) =~= all);
    assert(out@ =~= start + ("<"@ + listed(all, usage) + ">"@));
}

impl MethodDefinition {
    /// The method as source text.
    pub fn render(&self) -> (text: String)
        ensures
            text@ == self@.text(),
    {
        let mut text = String::new();
        write_method(&mut text, self);
        assert(text@ =~= self@.text());
        text
    }
}

impl ImplBlock {
    /// The block's header as source text.
    pub fn render_head(&self) -> (text: String)
        ensures
            text@ == self@.head_text(),
    {
        let mut text = String::from_str("impl");
        write_generics(&mut text, &self.generics, false);
        text.append(" ");
        text.append(self.name.as_str());
        write_generics(&mut text, &self.generics, true);
        match &self.bounds {
            None => {},
            Some(bounds) => {
                text.append(" ");
                text.append(bounds.as_str());
            },
        }
        assert(text@ =~= self@.head_text());
        text
    }

    /// The block as source text.
    pub fn render(&self) -> (text: String)
        ensures
            text@ == self@.text(),
    {
        let mut text = self.render_head();
        text.append(" {\n");
        let ghost head = text@;
        let ghost all = self.methods.deep_view();
        let mut next: usize = 0;
        assert(head + methods_text(all.take(0)) =~= head);
        while next < self.methods.len()
            invariant
                next <= self.methods.len(),
                all == self.methods.deep_view(),
                text@ == head + methods_text(all.take(next as int)),
            decreases self.methods.len() - next,
        {
            write_method(&mut text, &self.methods[next]);
            proof {
                assert(all.take(next + 1).drop_last() =~= all.take(next as int));
                assert(all.take(next + 1).last() == self.methods[next as int]@);
                assert(text@ =~= head + methods_text(all.take(next + 1)));
            }
            next = next + 1;
        }
        assert(all.take(next as int) =~= all);
        text.append("}\n");
        assert(text@ =~= self@.text());
        text
    }
}

impl Expansion {
    /// The expansion as source text.
    pub fn render(&self) -> (text: String)
        ensures
            text@ == self@.text(),
    {
        match self {
            Expansion::Accessors(block) => block.render(),
            Expansion::CompileError(error) => {
                let mut text = String::from_str("compile_error! { \"");
                text.append(error.message().as_str());
                text.append("\" }\n");
                text
            },
        }
    }
}

} // verus!
