use gusket::directive::Directive;
use gusket::error::{DeriveError, Shape};
use gusket::expand::{gusket, gusket_impl, Expansion};
use gusket::location::Location;
use gusket::record::{FieldDescriptor, GenericParam, RecordBody, RecordDescriptor};
use gusket::token::Token;
use gusket::visibility::Visibility;
use quote::ToTokens;

fn at(id: u64) -> Location {
    Location::new(id)
}

fn marker(list: &[&str]) -> Directive {
    let mut tokens = Vec::new();
    for (index, word) in list.iter().enumerate() {
        let place = at(100 + index as u64);
        tokens.push(match *word {
            "," | "=" => Token::punct(word, place),
            word if word.starts_with('(') => Token::group(word, place),
            word => Token::ident(word, place),
        });
    }
    Directive::with_args(tokens, at(99))
}

fn holder() -> RecordDescriptor {
    RecordDescriptor {
        name: String::from("Holder"),
        generics: vec![
            GenericParam { decl: String::from("'a"), usage: String::from("'a") },
            GenericParam { decl: String::from("T: Clone + 'a"), usage: String::from("T") },
            GenericParam { decl: String::from("const N: usize"), usage: String::from("N") },
        ],
        bounds: Some(String::from("where T: Default")),
        vis: Visibility::new("pub"),
        directives: vec![marker(&["vis", "=", "pub", "(crate)"])],
        body: RecordBody::Named(vec![
            FieldDescriptor {
                name: String::from("items"),
                ty: String::from("[&'a T; N]"),
                docs: vec![
                    String::from("#[doc = \" The items.\"]"),
                    String::from("#[doc(alias = \"elements\")]"),
                ],
                directives: vec![Directive::bare(at(1))],
                at: at(2),
            },
            FieldDescriptor {
                name: String::from("count"),
                ty: String::from("usize"),
                docs: vec![],
                directives: vec![marker(&["copy", ",", "immut", ",", "vis", "=", "pub"])],
                at: at(3),
            },
            FieldDescriptor {
                name: String::from("hidden"),
                ty: String::from("Option<T>"),
                docs: vec![],
                directives: vec![],
                at: at(4),
            },
            FieldDescriptor {
                name: String::from("r#type"),
                ty: String::from("u8"),
                docs: vec![],
                directives: vec![marker(&["vis", "="])],
                at: at(5),
            },
        ]),
    }
}

fn methods_of(item: &syn::ItemImpl) -> Vec<&syn::ImplItemMethod> {
    let mut methods = Vec::new();
    for item in &item.items {
        match item {
            syn::ImplItem::Method(method) => methods.push(method),
            _ => panic!("something else than a method"),
        }
    }
    methods
}

fn text_of<T: ToTokens>(tokens: &T) -> String {
    tokens.to_token_stream().to_string()
}

#[test]
fn the_block_is_an_implementation_of_the_record() {
    let block = gusket_impl(&holder()).expect("a block");
    let item: syn::ItemImpl = syn::parse_str(&block.render()).expect("an impl item");

    assert!(item.trait_.is_none());
    assert_eq!(text_of(&item.self_ty), "Holder < 'a , T , N >");
    assert_eq!(text_of(&item.generics.params), "'a , T : Clone + 'a , const N : usize");
    assert_eq!(
        item.generics.where_clause.as_ref().map(text_of),
        Some(String::from("where T : Default"))
    );

    let methods = methods_of(&item);
    let signatures: Vec<String> = methods
        .iter()
        .map(|method| format!("{} {}", text_of(&method.vis), text_of(&method.sig)))
        .collect();
    assert_eq!(
        signatures,
        vec![
            "pub (crate) fn items (& self) -> & [& 'a T ; N]",
            "pub (crate) fn items_mut (& mut self) -> & mut [& 'a T ; N]",
            "pub (crate) fn set_items (& mut self , items : [& 'a T ; N])",
            "pub fn count (& self) -> usize",
            " fn r#type (& self) -> & u8",
            " fn type_mut (& mut self) -> & mut u8",
            " fn set_type (& mut self , r#type : u8)",
        ]
    );
    let bodies: Vec<String> = methods.iter().map(|method| text_of(&method.block)).collect();
    assert_eq!(
        bodies,
        vec![
            "{ & self . items }",
            "{ & mut self . items }",
            "{ self . items = items ; }",
            "{ self . count }",
            "{ & self . r#type }",
            "{ & mut self . r#type }",
            "{ self . r#type = r#type ; }",
        ]
    );
}

#[test]
fn every_method_carries_the_documentation_and_its_attributes() {
    let block = gusket_impl(&holder()).expect("a block");
    let item: syn::ItemImpl = syn::parse_str(&block.render()).expect("an impl item");
    let attrs: Vec<Vec<String>> = methods_of(&item)
        .iter()
        .map(|method| method.attrs.iter().map(text_of).collect())
        .collect();
    let doc = "# [doc = \" The items.\"]";
    let alias = "# [doc (alias = \"elements\")]";
    let getter = "# [must_use = \"Getters have no side effect\"]";
    let mut_getter = "# [must_use = \"Mutable getters have no side effect\"]";
    let inline = "# [inline (always)]";
    assert_eq!(
        attrs,
        vec![
            vec![doc, alias, getter, inline],
            vec![doc, alias, mut_getter, inline],
            vec![doc, alias, inline],
            vec![getter, inline],
            vec![getter, inline],
            vec![mut_getter, inline],
            vec![inline],
        ]
    );
}

#[test]
fn each_method_alone_is_a_method() {
    let block = gusket_impl(&holder()).expect("a block");
    assert_eq!(block.methods.len(), 7);
    let mut whole = String::new();
    for method in &block.methods {
        let text = method.render();
        let parsed: syn::ImplItemMethod = syn::parse_str(&text).expect("a method");
        assert_eq!(parsed.sig.ident.to_string(), method.name);
        whole.push_str(&text);
    }
    assert_eq!(block.render(), format!("{} {{\n{}}}\n", block.render_head(), whole));
}

#[test]
fn the_compile_error_is_a_macro_invocation() {
    let mut input = holder();
    input.body = RecordBody::Positional(at(8));
    let expansion = gusket(&input);
    let error = DeriveError::UnsupportedShape { shape: Shape::Positional, at: at(8) };
    assert_eq!(expansion, Expansion::CompileError(error));
    let item: syn::ItemMacro = syn::parse_str(&expansion.render()).expect("a macro invocation");
    assert!(item.mac.path.is_ident("compile_error"));
    assert_eq!(text_of(&item.mac.tokens), "\"Tuple structs are not supported\"");

    input.body = RecordBody::Named(vec![]);
    input.directives = vec![marker(&["every"])];
    let expansion = gusket(&input);
    assert_eq!(
        expansion,
        Expansion::CompileError(DeriveError::UnsupportedDirective { at: at(100) })
    );
    assert_eq!(expansion.render(), "compile_error! { \"Unsupported attribute\" }\n");
}

#[test]
fn the_expansion_of_a_block_is_the_block() {
    let input = holder();
    let block = gusket_impl(&input).expect("a block");
    assert_eq!(gusket(&input).render(), block.render());
    assert_eq!(gusket(&input), Expansion::Accessors(block));
}
