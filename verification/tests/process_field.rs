use gusket::directive::Directive;
use gusket::expand::process_field;
use gusket::location::Location;
use gusket::method::MethodDefinition;
use gusket::policy::InputAttrs;
use gusket::record::FieldDescriptor;
use gusket::token::Token;
use gusket::visibility::Visibility;
use proc_macro2::{TokenStream, TokenTree};
use quote::ToTokens;
use syn::parse::Parser;

fn token_stream_equals(ts1: TokenStream, ts2: TokenStream) -> bool {
    let mut ts1 = ts1.into_iter().fuse();
    let mut ts2 = ts2.into_iter().fuse();

    loop {
        match (ts1.next(), ts2.next()) {
            (Some(tt1), Some(tt2)) => match (tt1, tt2) {
                (TokenTree::Ident(i1), TokenTree::Ident(i2)) => {
                    if i1 != i2 {
                        return false;
                    }
                }
                (TokenTree::Punct(punct1), TokenTree::Punct(punct2)) => {
                    if punct1.as_char() != punct2.as_char() {
                        return false;
                    }
                }
                (TokenTree::Literal(l1), TokenTree::Literal(l2)) => {
                    if l1.to_string() != l2.to_string() {
                        return false;
                    }
                }
                (TokenTree::Group(g1), TokenTree::Group(g2)) => {
                    if !token_stream_equals(g1.stream(), g2.stream()) {
                        return false;
                    }
                }
                _ => return false,
            },
            (None, None) => return true,
            (Some(tt1), None) => {
                if let TokenTree::Punct(punct1) = tt1 {
                    if punct1.as_char() == ',' && ts1.next().is_none() {
                        return true;
                    }
                }
                return false;
            }
            (None, Some(tt2)) => {
                if let TokenTree::Punct(punct2) = tt2 {
                    if punct2.as_char() == ',' && ts2.next().is_none() {
                        return true;
                    }
                }
                return false;
            }
        }
    }
}

fn tokens_of(stream: TokenStream, places: &mut u64) -> Vec<Token> {
    let mut tokens = Vec::new();
    for tree in stream {
        *places += 1;
        let at = Location::new(*places);
        tokens.push(match tree {
            TokenTree::Ident(ident) => Token::ident(&ident.to_string(), at),
            TokenTree::Punct(punct) => Token::punct(&punct.as_char().to_string(), at),
            TokenTree::Literal(literal) => Token::literal(&literal.to_string(), at),
            TokenTree::Group(group) => Token::group(&group.to_string(), at),
        });
    }
    tokens
}

fn marker_of(attr: &syn::Attribute, places: &mut u64) -> Directive {
    *places += 1;
    let at = Location::new(*places);
    if attr.tokens.is_empty() {
        Directive::bare(at)
    } else {
        let args: TokenStream = attr.parse_args().expect("Invalid test input (marker)");
        Directive::with_args(tokens_of(args, places), at)
    }
}

fn field_of(field: &syn::Field, places: &mut u64) -> FieldDescriptor {
    *places += 1;
    let at = Location::new(*places);
    let mut docs = Vec::new();
    let mut directives = Vec::new();
    for attr in &field.attrs {
        if attr.path.is_ident("gusket") {
            directives.push(marker_of(attr, places));
        } else if attr.path.is_ident("doc") {
            docs.push(attr.to_token_stream().to_string());
        }
    }
    FieldDescriptor {
        name: field.ident.as_ref().expect("Struct is named").to_string(),
        ty: field.ty.to_token_stream().to_string(),
        docs,
        directives,
        at,
    }
}

fn test_process_field(vis: &str, input_attrs_ts: &str, field: &str, expect: &str) {
    let mut places = 0u64;
    let vis: syn::Visibility = syn::parse_str(vis).expect("Invalid test input (visibility)");
    let mut input_attrs = InputAttrs::new(&Visibility::new(&vis.to_token_stream().to_string()));

    for attr in syn::Attribute::parse_outer
        .parse_str(input_attrs_ts)
        .expect("Invalid test input (container attributes)")
    {
        input_attrs
            .apply(&marker_of(&attr, &mut places))
            .expect("Invalid test input (container attributes)");
    }

    let field = syn::Field::parse_named.parse_str(field).expect("Invalid test input (field)");
    let field = field_of(&field, &mut places);

    let mut methods: Vec<MethodDefinition> = Vec::new();
    process_field(&field, &input_attrs, &mut methods).expect("Error processing field");

    let mut text = String::new();
    for method in &methods {
        text.push_str(&method.render());
    }
    let methods: TokenStream = text.parse().expect("The methods do not lex");
    let expect: TokenStream = expect.parse().expect("Invalid test input (expectation)");

    if !token_stream_equals(expect.clone(), methods.clone()) {
        panic!("Expected:\n{}\n\nGot:\n{}", expect, methods);
    }
}

#[test]
fn test_default() {
    test_process_field(
        "pub(in some::module)",
        "",
        "
            #[gusket]
            foo: Bar
        ",
        r#"
            #[must_use = "Getters have no side effect"]
            #[inline(always)]
            pub(in some::module) fn foo(&self) -> &Bar {
                &self.foo
            }

            #[must_use = "Mutable getters have no side effect"]
            #[inline(always)]
            pub(in some::module) fn foo_mut(&mut self) -> &mut Bar {
                &mut self.foo
            }

            #[inline(always)]
            pub(in some::module) fn set_foo(&mut self, foo: Bar) {
                self.foo = foo;
            }
        "#,
    );
}

#[test]
fn test_container_immut() {
    test_process_field(
        "pub(in some::module)",
        "
            #[gusket(immut)]
        ",
        "
            #[gusket]
            foo: Bar
        ",
        r#"
            #[must_use = "Getters have no side effect"]
            #[inline(always)]
            pub(in some::module) fn foo(&self) -> &Bar {
                &self.foo
            }
        "#,
    );
}

#[test]
fn test_field_immut() {
    test_process_field(
        "pub(in some::module)",
        "",
        "
            #[gusket(immut)]
            foo: Bar
        ",
        r#"
            #[must_use = "Getters have no side effect"]
            #[inline(always)]
            pub(in some::module) fn foo(&self) -> &Bar {
                &self.foo
            }
        "#,
    );
}

#[test]
fn test_container_immut_field_mut() {
    test_process_field(
        "pub(in some::module)",
        "
            #[gusket(immut)]
        ",
        "
            #[gusket(mut)]
            foo: Bar
        ",
        r#"
            #[must_use = "Getters have no side effect"]
            #[inline(always)]
            pub(in some::module) fn foo(&self) -> &Bar {
                &self.foo
            }

            #[must_use = "Mutable getters have no side effect"]
            #[inline(always)]
            pub(in some::module) fn foo_mut(&mut self) -> &mut Bar {
                &mut self.foo
            }

            #[inline(always)]
            pub(in some::module) fn set_foo(&mut self, foo: Bar) {
                self.foo = foo;
            }
        "#,
    );
}

#[test]
fn test_default_skip() {
    test_process_field(
        "pub(in some::module)",
        "",
        "
            foo: Bar
        ",
        "",
    );
}

#[test]
fn test_immut_mut_override() {
    test_process_field(
        "pub(in some::module)",
        "
            #[gusket(immut)]
        ",
        "
            #[gusket(mut)]
            foo: Bar
        ",
        r#"
            #[must_use = "Getters have no side effect"]
            #[inline(always)]
            pub(in some::module) fn foo(&self) -> &Bar {
                &self.foo
            }

            #[must_use = "Mutable getters have no side effect"]
            #[inline(always)]
            pub(in some::module) fn foo_mut(&mut self) -> &mut Bar {
                &mut self.foo
            }

            #[inline(always)]
            pub(in some::module) fn set_foo(&mut self, foo: Bar) {
                self.foo = foo;
            }
        "#,
    );
}

#[test]
fn test_doc_copy() {
    test_process_field(
        "pub(in some::module)",
        "",
        "
            /// This is some
            /// multiline documentation.
            #[gusket]
            foo: Bar
        ",
        r#"
            /// This is some
            /// multiline documentation.
            #[must_use = "Getters have no side effect"]
            #[inline(always)]
            pub(in some::module) fn foo(&self) -> &Bar {
                &self.foo
            }

            /// This is some
            /// multiline documentation.
            #[must_use = "Mutable getters have no side effect"]
            #[inline(always)]
            pub(in some::module) fn foo_mut(&mut self) -> &mut Bar {
                &mut self.foo
            }

            /// This is some
            /// multiline documentation.
            #[inline(always)]
            pub(in some::module) fn set_foo(&mut self, foo: Bar) {
                self.foo = foo;
            }
        "#,
    );
}

#[test]
fn test_container_all() {
    test_process_field(
        "pub(in some::module)",
        "
            #[gusket(all)]
        ",
        "
            foo: Bar
        ",
        r#"
            #[must_use = "Getters have no side effect"]
            #[inline(always)]
            pub(in some::module) fn foo(&self) -> &Bar {
                &self.foo
            }

            #[must_use = "Mutable getters have no side effect"]
            #[inline(always)]
            pub(in some::module) fn foo_mut(&mut self) -> &mut Bar {
                &mut self.foo
            }

            #[inline(always)]
            pub(in some::module) fn set_foo(&mut self, foo: Bar) {
                self.foo = foo;
            }
        "#,
    );
}

#[test]
fn test_container_all_skip() {
    test_process_field(
        "pub(in some::module)",
        "
            #[gusket(all)]
        ",
        "
            #[gusket(skip)]
            foo: Bar
        ",
        "",
    );
}

#[test]
fn test_container_vis_override() {
    test_process_field(
        "pub(in some::module)",
        "
            #[gusket(vis = pub(in something::different))]
        ",
        "
            #[gusket]
            foo: Bar
        ",
        r#"
            #[must_use = "Getters have no side effect"]
            #[inline(always)]
            pub(in something::different) fn foo(&self) -> &Bar {
                &self.foo
            }

            #[must_use = "Mutable getters have no side effect"]
            #[inline(always)]
            pub(in something::different) fn foo_mut(&mut self) -> &mut Bar {
                &mut self.foo
            }

            #[inline(always)]
            pub(in something::different) fn set_foo(&mut self, foo: Bar) {
                self.foo = foo;
            }
        "#,
    );
}

#[test]
fn test_container_vis_override_field_vis_override() {
    test_process_field(
        "pub(in some::module)",
        "
            #[gusket(vis = pub(in something::different))]
        ",
        "
            #[gusket(vis = pub(in yet::another::path))]
            foo: Bar
        ",
        r#"
            #[must_use = "Getters have no side effect"]
            #[inline(always)]
            pub(in yet::another::path) fn foo(&self) -> &Bar {
                &self.foo
            }

            #[must_use = "Mutable getters have no side effect"]
            #[inline(always)]
            pub(in yet::another::path) fn foo_mut(&mut self) -> &mut Bar {
                &mut self.foo
            }

            #[inline(always)]
            pub(in yet::another::path) fn set_foo(&mut self, foo: Bar) {
                self.foo = foo;
            }
        "#,
    );
}

#[test]
fn test_copy() {
    test_process_field(
        "pub(in some::module)",
        "",
        "
            #[gusket(copy)]
            foo: Bar
        ",
        r#"
            #[must_use = "Getters have no side effect"]
            #[inline(always)]
            pub(in some::module) fn foo(&self) -> Bar {
                self.foo
            }

            #[must_use = "Mutable getters have no side effect"]
            #[inline(always)]
            pub(in some::module) fn foo_mut(&mut self) -> &mut Bar {
                &mut self.foo
            }

            #[inline(always)]
            pub(in some::module) fn set_foo(&mut self, foo: Bar) {
                self.foo = foo;
            }
        "#,
    );
}
