use qualify_derive::decl::{tolerates_unused, Attr, Decl, ParseError};
use qualify_derive::rewrite::{fix, module_name, passthru_attr, rewrite};
use qualify_derive::tokens::{Delim, Tok};

fn id(s: &str) -> Tok {
    Tok::Ident(s.to_string())
}

fn p(c: char) -> Tok {
    Tok::Punct(c, false)
}

fn open(d: Delim) -> Tok {
    Tok::Open(d)
}

fn close(d: Delim) -> Tok {
    Tok::Close(d)
}

fn render(ts: &[Tok]) -> String {
    let mut out = String::new();
    for t in ts {
        match t {
            Tok::Ident(s) | Tok::Literal(s) => {
                out.push_str(s);
                out.push(' ');
            }
            Tok::Punct(c, joint) => {
                out.push(*c);
                if !joint {
                    out.push(' ');
                }
            }
            Tok::Open(d) => out.push_str(match d {
                Delim::Paren => "( ",
                Delim::Brace => "{ ",
                Delim::Bracket => "[ ",
                Delim::Invisible => "",
            }),
            Tok::Close(d) => out.push_str(match d {
                Delim::Paren => ") ",
                Delim::Brace => "} ",
                Delim::Bracket => "] ",
                Delim::Invisible => "",
            }),
        }
    }
    out.trim_end().to_string()
}

fn foo_body() -> Vec<Tok> {
    vec![
        id("struct"),
        id("Foo"),
        open(Delim::Brace),
        id("x"),
        p(':'),
        id("i32"),
        close(Delim::Brace),
    ]
}

fn foo(vis: Vec<Tok>, attrs: Vec<Attr>) -> Decl {
    Decl { attrs, vis, ident: "Foo".to_string(), body: foo_body() }
}

fn allow(words: Vec<Tok>) -> Attr {
    let mut args = vec![open(Delim::Paren)];
    args.extend(words);
    args.push(close(Delim::Paren));
    Attr { path: vec![id("allow")], args }
}

fn debug() -> Vec<Tok> {
    vec![id("Debug")]
}

#[test]
fn end_to_end_private_struct() {
    let out = rewrite(&vec![], &foo(vec![], vec![]), &debug(), &vec![], None);
    assert_eq!(
        render(&out),
        "# [ allow ( non_snake_case ) ] mod __qualify_derive_Foo { use super :: * ; \
         # [ derive ( Debug ) ] pub ( super ) struct Foo { x : i32 } } \
         use __qualify_derive_Foo :: Foo ;"
    );
}

#[test]
fn public_visibility_on_reexport() {
    let out = rewrite(&vec![], &foo(vec![id("pub")], vec![]), &debug(), &vec![], None);
    let s = render(&out);
    assert!(s.ends_with("} pub use __qualify_derive_Foo :: Foo ;"));
    assert!(s.contains("pub ( super ) struct Foo"));
}

#[test]
fn scoped_visibility_on_reexport() {
    let vis = vec![id("pub"), open(Delim::Paren), id("crate"), close(Delim::Paren)];
    let out = rewrite(&vec![], &foo(vis, vec![]), &debug(), &vec![], None);
    let s = render(&out);
    assert!(s.ends_with("} pub ( crate ) use __qualify_derive_Foo :: Foo ;"));
    assert!(s.contains("pub ( super ) struct Foo"));
    assert!(!s.contains("pub ( crate ) struct"));
}

#[test]
fn attributes_and_body_kept() {
    let doc = Attr {
        path: vec![id("doc")],
        args: vec![p('='), Tok::Literal("\"a color\"".to_string())],
    };
    let body = vec![
        id("enum"),
        id("Color"),
        open(Delim::Brace),
        id("Red"),
        p(','),
        id("Blue"),
        open(Delim::Paren),
        id("u8"),
        close(Delim::Paren),
        close(Delim::Brace),
    ];
    let d = Decl { attrs: vec![doc], vis: vec![], ident: "Color".to_string(), body };
    let out = rewrite(&vec![], &d, &vec![id("Clone")], &vec![], None);
    assert_eq!(
        render(&out),
        "# [ allow ( non_snake_case ) ] mod __qualify_derive_Color { use super :: * ; \
         # [ derive ( Clone ) ] # [ doc = \"a color\" ] pub ( super ) enum Color { Red , Blue ( u8 ) } } \
         use __qualify_derive_Color :: Color ;"
    );
}

#[test]
fn imports_each_tolerate_unused() {
    let imports = vec![
        vec![id("std"), Tok::Punct(':', true), p(':'), id("fmt")],
        vec![id("crate"), Tok::Punct(':', true), p(':'), id("Helper")],
    ];
    let out = rewrite(&vec![], &foo(vec![], vec![]), &debug(), &imports, None);
    assert!(render(&out).contains(
        "{ use super :: * ; # [ allow ( unused_imports ) ] use std :: fmt ; \
         # [ allow ( unused_imports ) ] use crate :: Helper ; # [ derive ( Debug ) ]"
    ));
}

#[test]
fn target_list_derived() {
    let target = vec![id("Debug"), p(','), id("Clone")];
    let out = rewrite(&vec![], &foo(vec![], vec![]), &target, &vec![], None);
    assert!(render(&out).contains("# [ derive ( Debug , Clone ) ] pub ( super ) struct Foo"));
}

#[test]
fn module_name_deterministic() {
    let a = module_name(&"Foo".to_string());
    let b = module_name(&"Foo".to_string());
    assert_eq!(a, "__qualify_derive_Foo");
    assert_eq!(a, b);
}

#[test]
fn module_names_distinct() {
    assert_ne!(module_name(&"Foo".to_string()), module_name(&"Bar".to_string()));
    assert_ne!(module_name(&"Foo".to_string()), module_name(&"Foo2".to_string()));
}

#[test]
fn module_name_drops_raw_marker() {
    assert_eq!(module_name(&"r#type".to_string()), "__qualify_derive_type");
    let d = Decl {
        attrs: vec![],
        vis: vec![],
        ident: "r#type".to_string(),
        body: vec![id("struct"), id("r#type"), p(';')],
    };
    let out = rewrite(&vec![], &d, &debug(), &vec![], None);
    assert!(render(&out).ends_with("use __qualify_derive_type :: r#type ;"));
}

#[test]
fn passthru_with_empty_attr_is_absent() {
    assert_eq!(passthru_attr(Some(vec![id("serde")]), &vec![]), None);
    let out = rewrite(&vec![], &foo(vec![], vec![]), &debug(), &vec![], Some(vec![id("serde")]));
    assert!(!render(&out).contains("serde"));
}

#[test]
fn passthru_with_attr_is_forwarded() {
    let attr = vec![id("rename_all"), p('='), Tok::Literal("\"camelCase\"".to_string())];
    let r = passthru_attr(Some(vec![id("serde")]), &attr).unwrap();
    assert_eq!(render(&r), "# [ serde ( rename_all = \"camelCase\" ) ]");
    let out = rewrite(&attr, &foo(vec![], vec![]), &debug(), &vec![], Some(vec![id("serde")]));
    assert!(render(&out).contains(
        "# [ derive ( Debug ) ] # [ serde ( rename_all = \"camelCase\" ) ] pub ( super ) struct Foo"
    ));
}

#[test]
fn passthru_without_name_ignores_attr() {
    let attr = vec![id("anything")];
    assert_eq!(passthru_attr(None, &attr), None);
    let with = rewrite(&attr, &foo(vec![], vec![]), &debug(), &vec![], None);
    let without = rewrite(&vec![], &foo(vec![], vec![]), &debug(), &vec![], None);
    assert_eq!(with, without);
}

#[test]
fn allow_unused_tolerates() {
    assert!(tolerates_unused(&vec![allow(vec![id("unused")])]));
}

#[test]
fn allow_unused_imports_tolerates() {
    assert!(tolerates_unused(&vec![allow(vec![id("unused_imports")])]));
}

#[test]
fn allow_dead_code_tolerates() {
    let attrs = vec![allow(vec![id("non_camel_case_types"), p(','), id("dead_code")])];
    assert!(tolerates_unused(&attrs));
    let out = rewrite(&vec![], &foo(vec![], attrs), &debug(), &vec![], None);
    assert!(render(&out).ends_with("} # [ allow ( unused_imports ) ] use __qualify_derive_Foo :: Foo ;"));
}

#[test]
fn allow_other_lint_does_not_tolerate() {
    let attrs = vec![allow(vec![id("non_camel_case_types")])];
    assert!(!tolerates_unused(&attrs));
    let out = rewrite(&vec![], &foo(vec![], attrs), &debug(), &vec![], None);
    assert!(render(&out).ends_with("} use __qualify_derive_Foo :: Foo ;"));
}

#[test]
fn other_attribute_does_not_tolerate() {
    let warn = Attr {
        path: vec![id("warn")],
        args: vec![open(Delim::Paren), id("dead_code"), close(Delim::Paren)],
    };
    assert!(!tolerates_unused(&vec![warn]));
    assert!(!tolerates_unused(&vec![]));
}

#[test]
fn nested_lint_name_does_not_tolerate() {
    let args = vec![
        open(Delim::Paren),
        id("clippy"),
        open(Delim::Paren),
        id("unused"),
        close(Delim::Paren),
        close(Delim::Paren),
    ];
    assert!(!tolerates_unused(&vec![Attr { path: vec![id("allow")], args }]));
}

#[test]
fn tolerance_found_among_several_attributes() {
    let doc = Attr { path: vec![id("doc")], args: vec![p('='), Tok::Literal("\"x\"".to_string())] };
    assert!(tolerates_unused(&vec![doc, allow(vec![id("unused")])]));
}

#[test]
fn parse_failure_passes_through() {
    let e = ParseError { message: "expected `struct`, `enum` or `union`".to_string() };
    let r = fix(&vec![id("x")], Err(e.clone()), &debug(), &vec![], Some(vec![id("serde")]));
    assert_eq!(r, Err(e));
}

#[test]
fn parsed_item_rewritten() {
    let r = fix(&vec![], Ok(foo(vec![], vec![])), &debug(), &vec![], None).unwrap();
    assert_eq!(r, rewrite(&vec![], &foo(vec![], vec![]), &debug(), &vec![], None));
    assert!(render(&r).starts_with("# [ allow ( non_snake_case ) ] mod __qualify_derive_Foo {"));
}

#[test]
fn copied_token_keeps_value() {
    let t = Tok::Literal("42u8".to_string());
    assert_eq!(t.copied(), t);
    assert!(id("allow").is_ident("allow"));
    assert!(!id("allow").is_ident("allo"));
    assert!(!p('a').is_ident("a"));
}
