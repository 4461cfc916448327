use gusket::block::ImplBlock;
use gusket::directive::Directive;
use gusket::expand::{gusket, Expansion};
use gusket::location::Location;
use gusket::method::{Body, MethodDefinition, MethodKind, Passing, Receiver};
use gusket::record::{FieldDescriptor, GenericParam, RecordBody, RecordDescriptor};
use gusket::token::Token;
use gusket::visibility::Visibility;
use proc_macro2::{TokenStream, TokenTree};
use quote::ToTokens;

fn tokens_of(stream: TokenStream, places: &mut u64) -> Vec<Token> {
    let mut tokens = Vec::new();
    for tree in stream {
        *places += 1;
        let at = Location::new(*places);
        tokens.push(match tree {
            TokenTree::Ident(ident) => Token::ident(&ident.to_string(), at),
            TokenTree::Punct(punct) => Token::punct(&punct.as_char().to_string(), at),
            TokenTree::Literal(literal) => Token::literal(&literal.to_string(), at),
            TokenTree::Group(group) => Token::group(&group.to_string(), at),
        });
    }
    tokens
}

fn markers_of(attrs: &[syn::Attribute], places: &mut u64) -> Vec<Directive> {
    let mut markers = Vec::new();
    for attr in attrs {
        if attr.path.is_ident("gusket") {
            *places += 1;
            let at = Location::new(*places);
            if attr.tokens.is_empty() {
                markers.push(Directive::bare(at));
            } else {
                let args: TokenStream = attr.parse_args().expect("a marker with an argument list");
                markers.push(Directive::with_args(tokens_of(args, places), at));
            }
        }
    }
    markers
}

fn record_of(source: &str) -> RecordDescriptor {
    let input: syn::DeriveInput = syn::parse_str(source).expect("a derive input");
    let mut places = 0u64;
    let mut generics = Vec::new();
    for param in &input.generics.params {
        generics.push(GenericParam {
            decl: param.to_token_stream().to_string(),
            usage: match param {
                syn::GenericParam::Type(param) => param.ident.to_string(),
                syn::GenericParam::Lifetime(param) => param.lifetime.to_string(),
                syn::GenericParam::Const(param) => param.ident.to_string(),
            },
        });
    }
    let body = match &input.data {
        syn::Data::Enum(_) => RecordBody::Enum(Location::new(1000)),
        syn::Data::Union(_) => RecordBody::Union(Location::new(1000)),
        syn::Data::Struct(data) => match &data.fields {
            syn::Fields::Unnamed(_) => RecordBody::Positional(Location::new(1000)),
            syn::Fields::Unit => RecordBody::Unit(Location::new(1000)),
            syn::Fields::Named(named) => {
                let mut fields = Vec::new();
                for field in &named.named {
                    places += 1;
                    let at = Location::new(places);
                    let mut docs = Vec::new();
                    for attr in &field.attrs {
                        if attr.path.is_ident("doc") {
                            docs.push(attr.to_token_stream().to_string());
                        }
                    }
                    fields.push(FieldDescriptor {
                        name: field.ident.as_ref().expect("a named field").to_string(),
                        ty: field.ty.to_token_stream().to_string(),
                        docs,
                        directives: markers_of(&field.attrs, &mut places),
                        at,
                    });
                }
                RecordBody::Named(fields)
            }
        },
    };
    RecordDescriptor {
        name: input.ident.to_string(),
        generics,
        bounds: input.generics.where_clause.as_ref().map(|clause| clause.to_token_stream().to_string()),
        vis: Visibility::new(&input.vis.to_token_stream().to_string()),
        directives: markers_of(&input.attrs, &mut places),
        body,
    }
}

fn derive(source: &str) -> ImplBlock {
    match gusket(&record_of(source)) {
        Expansion::Accessors(block) => block,
        Expansion::CompileError(error) => panic!("{}", error.message()),
    }
}

fn method<'a>(block: &'a ImplBlock, name: &str) -> Option<&'a MethodDefinition> {
    block.methods.iter().find(|method| method.name == name)
}

fn hands_back(block: &ImplBlock, name: &str, passing: Passing, ty: &str) -> bool {
    match method(block, name) {
        Some(method) => match &method.output {
            Some(output) => output.passing == passing && output.ty == ty,
            None => false,
        },
        None => false,
    }
}

fn sets(block: &ImplBlock, name: &str, field: &str, ty: &str) -> bool {
    match method(block, name) {
        Some(method) => {
            method.kind == MethodKind::Setter
                && method.receiver == Receiver::Exclusive
                && method.output.is_none()
                && method.params.len() == 1
                && method.params[0].name == field
                && method.params[0].ty == ty
                && method.body
                    == Body::Assign { field: String::from(field), value: String::from(field) }
        }
        None => false,
    }
}

fn use_alpha(alpha: &ImplBlock) {
    assert!(hands_back(alpha, "foo", Passing::Borrow, "String"));

    assert!(hands_back(alpha, "bar", Passing::Value, "u32"));

    assert!(hands_back(alpha, "qux", Passing::Value, "i32"));
    assert!(hands_back(alpha, "qux_mut", Passing::BorrowMut, "i32"));
    assert!(sets(alpha, "set_qux", "qux", "i32"));

    assert!(hands_back(alpha, "corge", Passing::Borrow, "Vec < u32 >"));
    assert!(hands_back(alpha, "corge_mut", Passing::BorrowMut, "Vec < u32 >"));

    assert!(method(alpha, "grault").is_none()); // no getter method

    assert!(sets(alpha, "set_corge", "corge", "Vec < u32 >"));

    // the container is immutable, and only `qux` and `corge` ask otherwise
    assert!(method(alpha, "foo_mut").is_none());
    assert!(method(alpha, "set_foo").is_none());
    assert!(method(alpha, "bar_mut").is_none());
    assert!(method(alpha, "set_bar").is_none());
    assert_eq!(alpha.methods.len(), 8);
}

fn use_beta(beta: &ImplBlock) {
    assert!(hands_back(beta, "foo", Passing::Borrow, "String"));
    assert_eq!(method(beta, "foo").map(|method| method.visibility.text.as_str()), Some("pub (self)"));

    assert!(method(beta, "bar").is_none()); // no getter method

    assert_eq!(beta.methods.len(), 1);
}

#[test]
fn test() {
    use_alpha(&derive(
        "
        #[derive(Default, Gusket)]
        #[gusket(immut)]
        struct Alpha {
            #[gusket]
            foo:    String,
            #[gusket(copy)]
            bar:    u32,
            #[gusket(copy, mut)]
            qux:    i32,
            #[gusket(mut)]
            corge:  Vec<u32>,
            grault: Option<u32>,
        }
        ",
    ));
    use_beta(&derive(
        "
        #[derive(Default, Gusket)]
        #[gusket(all)]
        struct Beta {
            #[gusket(immut, vis = pub(self))]
            foo: String,
            #[gusket(skip)]
            bar: u32,
        }
        ",
    ));
}

#[test]
fn the_expansion_of_alpha_compiles_to_the_same_tokens() {
    let alpha = derive(
        "
        #[gusket(immut)]
        struct Alpha {
            #[gusket]
            foo: String,
            #[gusket(copy, mut)]
            qux: i32,
        }
        ",
    );
    let got: TokenStream = alpha.render().parse().expect("the block lexes");
    let want: TokenStream = r#"
        impl Alpha {
            #[must_use = "Getters have no side effect"]
            #[inline(always)]
            fn foo(&self) -> &String { &self.foo }
            #[must_use = "Getters have no side effect"]
            #[inline(always)]
            fn qux(&self) -> i32 { self.qux }
            #[must_use = "Mutable getters have no side effect"]
            #[inline(always)]
            fn qux_mut(&mut self) -> &mut i32 { &mut self.qux }
            #[inline(always)]
            fn set_qux(&mut self, qux: i32) { self.qux = qux; }
        }
    "#
    .parse()
    .expect("the expectation lexes");
    assert_eq!(got.to_string(), want.to_string());
}
