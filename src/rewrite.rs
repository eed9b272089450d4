use vstd::prelude::*;
use vstd::string::*;

use crate::decl::{attrs_toks, push_attrs, tolerant, tolerates_unused, Decl, ParseError};
use crate::tokens::{
    attribute, grouped, ident, path_sep, punct, push_all, push_ident, push_path_sep, push_punct,
    push_tok, toks, Delim, Tok, TokV,
};

verus! {

/// The prefix of every generated module's name.
pub open spec fn module_prefix() -> Seq<char> {
    "__qualify_derive_"@
}

/// An identifier as its name reads without the raw marker `r#`.
pub open spec fn unraw(s: Seq<char>) -> Seq<char> {
    if s.len() >= 2 && s[0] == 'r' && s[1] == '#' {
        s.skip(2)
    } else {
        s
    }
}

/// The name of the module generated for the declaration named `s`.
pub open spec fn mod_name(s: Seq<char>) -> Seq<char> {
    module_prefix() + unraw(s)
}

/// The attribute `#[allow(lint)]`.
pub open spec fn allow_attr(lint: Seq<char>) -> Seq<TokV> {
    attribute(seq![ident("allow"@)] + grouped(Delim::Paren, seq![ident(lint)]))
}

/// The statement `use path;`.
pub open spec fn use_stmt(path: Seq<TokV>) -> Seq<TokV> {
    seq![ident("use"@)] + path + seq![punct(';')]
}

/// For each import path, `#[allow(unused_imports)] use path;`.
pub open spec fn import_stmts(imports: Seq<Vec<Tok>>) -> Seq<TokV>
    decreases imports.len(),
{
    if imports.len() == 0 {
        Seq::empty()
    } else {
        import_stmts(imports.drop_last()) + allow_attr("unused_imports"@) + use_stmt(
            toks(imports.last()@),
        )
    }
}

/// The attribute `#[derive(target)]`.
pub open spec fn derive_attr(target: Seq<TokV>) -> Seq<TokV> {
    attribute(seq![ident("derive"@)] + grouped(Delim::Paren, target))
}

/// The forwarded attribute `#[name(attr)]`, when a name is given and `attr`
/// is not empty.
pub open spec fn passthru_spec(name: Option<Seq<TokV>>, attr: Seq<TokV>) -> Option<Seq<TokV>> {
    match name {
        Some(n) => if attr.len() > 0 {
            Some(attribute(n + grouped(Delim::Paren, attr)))
        } else {
            None
        },
        None => None,
    }
}

/// The visibility `pub(super)`.
pub open spec fn parent_vis() -> Seq<TokV> {
    seq![ident("pub"@)] + grouped(Delim::Paren, seq![ident("super"@)])
}

/// The declaration inside the generated module: its attributes, `pub(super)`
/// and its body.
pub open spec fn inner_decl(d: Decl) -> Seq<TokV> {
    attrs_toks(d.attrs@) + parent_vis() + toks(d.body@)
}

/// `use super::*;`
pub open spec fn use_parent() -> Seq<TokV> {
    use_stmt(seq![ident("super"@)] + path_sep() + seq![punct('*')])
}

/// The generated module.
pub open spec fn module_toks(
    d: Decl,
    target: Seq<TokV>,
    imports: Seq<Vec<Tok>>,
    passthru: Option<Seq<TokV>>,
) -> Seq<TokV> {
    allow_attr("non_snake_case"@) + seq![ident("mod"@), ident(mod_name(d.ident@))] + grouped(
        Delim::Brace,
        use_parent() + import_stmts(imports) + derive_attr(target) + match passthru {
            Some(p) => p,
            None => Seq::empty(),
        } + inner_decl(d),
    )
}

/// The statement that brings the declaration out of the generated module,
/// with the declaration's own visibility.
pub open spec fn reexport_toks(d: Decl) -> Seq<TokV> {
    toks(d.vis@) + use_stmt(
        seq![ident(mod_name(d.ident@))] + path_sep() + seq![ident(d.ident@)],
    )
}

/// The whole output for the declaration `d`.
pub open spec fn rewritten(
    attr: Seq<TokV>,
    d: Decl,
    target: Seq<TokV>,
    imports: Seq<Vec<Tok>>,
    passthru_name: Option<Seq<TokV>>,
) -> Seq<TokV> {
    module_toks(d, target, imports, passthru_spec(passthru_name, attr)) + (if tolerant(d.attrs@) {
        allow_attr("unused_imports"@)
    } else {
        Seq::empty()
    }) + reexport_toks(d)
}

/// The value of an optional token sequence.
pub open spec fn opt_toks(o: Option<Vec<Tok>>) -> Option<Seq<TokV>> {
    match o {
        Some(v) => Some(toks(v@)),
        None => None,
    }
}

/// The name of the module generated for the declaration named `ident`: a
/// fixed prefix followed by the name without its raw marker `r#`.
pub fn module_name(ident: &String) -> (r: String)
    ensures
        r@ == mod_name(ident@),
{
    let s = ident.as_str();
    let n = s.unicode_len();
    let name = if n >= 2 && s.get_char(0) == 'r' && s.get_char(1) == '#' {
        s.substring_char(2, n)
    } else {
        s
    };
    let prefix = String::from_str("__qualify_derive_");
    prefix.concat(name)
}

/// The attribute forwarded onto the re-derived declaration: `#[name(attr)]`
/// when a name is given and `attr` is not empty, and nothing otherwise.
pub fn passthru_attr(name: Option<Vec<Tok>>, attr: &Vec<Tok>) -> (r: Option<Vec<Tok>>)
    ensures
        opt_toks(r) == passthru_spec(opt_toks(name), toks(attr@)),
        r is Some <==> (name is Some && attr.len() > 0),
{
    match name {
        Some(n) => {
            if attr.len() == 0 {
                None
            } else {
                let mut out: Vec<Tok> = Vec::new();
                push_punct(&mut out, '#');
                push_tok(&mut out, Tok::Open(Delim::Bracket));
                push_all(&mut out, &n);
                push_tok(&mut out, Tok::Open(Delim::Paren));
                push_all(&mut out, attr);
                push_tok(&mut out, Tok::Close(Delim::Paren));
                push_tok(&mut out, Tok::Close(Delim::Bracket));
                assert(toks(out@) =~= attribute(toks(n@) + grouped(Delim::Paren, toks(attr@))));
                Some(out)
            }
        },
        None => None,
    }
}

/// Appends `#[allow(lint)]`.
fn push_allow(out: &mut Vec<Tok>, lint: &str)
    ensures
        toks(final(out)@) == toks(old(out)@) + allow_attr(lint@),
{
    let ghost start = toks(out@);
    push_punct(out, '#');
    push_tok(out, Tok::Open(Delim::Bracket));
    push_ident(out, "allow");
    push_tok(out, Tok::Open(Delim::Paren));
    push_ident(out, lint);
    push_tok(out, Tok::Close(Delim::Paren));
    push_tok(out, Tok::Close(Delim::Bracket));
    assert(toks(out@) =~= start + allow_attr(lint@));
}

/// Appends, for each import path, `#[allow(unused_imports)] use path;`.
fn push_imports(out: &mut Vec<Tok>, imports: &Vec<Vec<Tok>>)
    ensures
        toks(final(out)@) == toks(old(out)@) + import_stmts(imports@),
{
    let ghost start = toks(out@);
    let mut i: usize = 0;
    while i < imports.len()
        invariant
            i <= imports.len(),
            toks(out@) == start + import_stmts(imports@.take(i as int)),
        decreases imports.len() - i,
    {
        let ghost before = toks(out@);
        push_allow(out, "unused_imports");
        push_ident(out, "use");
        push_all(out, &imports[i]);
        push_punct(out, ';');
        assert(toks(out@) =~= before + allow_attr("unused_imports"@) + use_stmt(
            toks(imports@[i as int]@),
        ));
        i = i + 1;
        assert(imports@.take(i as int).drop_last() =~= imports@.take(i - 1));
    }
    assert(imports@.take(i as int) =~= imports@);
}

/// Appends `#[derive(target)]`.
fn push_derive(out: &mut Vec<Tok>, target: &Vec<Tok>)
    ensures
        toks(final(out)@) == toks(old(out)@) + derive_attr(toks(target@)),
{
    let ghost start = toks(out@);
    push_punct(out, '#');
    push_tok(out, Tok::Open(Delim::Bracket));
    push_ident(out, "derive");
    push_tok(out, Tok::Open(Delim::Paren));
    push_all(out, target);
    push_tok(out, Tok::Close(Delim::Paren));
    push_tok(out, Tok::Close(Delim::Bracket));
    assert(toks(out@) =~= start + derive_attr(toks(target@)));
}

/// Appends the declaration as it stands inside the generated module.
fn push_inner_decl(out: &mut Vec<Tok>, d: &Decl)
    ensures
        toks(final(out)@) == toks(old(out)@) + inner_decl(*d),
{
    let ghost start = toks(out@);
    push_attrs(out, &d.attrs);
    push_ident(out, "pub");
    push_tok(out, Tok::Open(Delim::Paren));
    push_ident(out, "super");
    push_tok(out, Tok::Close(Delim::Paren));
    push_all(out, &d.body);
    assert(toks(out@) =~= start + inner_decl(*d));
}

/// Appends `use super::*;`.
fn push_use_parent(out: &mut Vec<Tok>)
    ensures
        toks(final(out)@) == toks(old(out)@) + use_parent(),
{
    let ghost start = toks(out@);
    push_ident(out, "use");
    push_ident(out, "super");
    push_path_sep(out);
    push_punct(out, '*');
    push_punct(out, ';');
    assert(toks(out@) =~= start + use_parent());
}

/// Appends the generated module named `name`.
fn push_module(
    out: &mut Vec<Tok>,
    name: &String,
    d: &Decl,
    target: &Vec<Tok>,
    imports: &Vec<Vec<Tok>>,
    extra: &Option<Vec<Tok>>,
)
    requires
        name@ == mod_name(d.ident@),
    ensures
        toks(final(out)@) == toks(old(out)@) + module_toks(
            *d,
            toks(target@),
            imports@,
            opt_toks(*extra),
        ),
{
    let ghost start = toks(out@);
    push_allow(out, "non_snake_case");
    push_ident(out, "mod");
    push_tok(out, Tok::Ident(name.clone()));
    push_tok(out, Tok::Open(Delim::Brace));
    let ghost open = toks(out@);
    push_use_parent(out);
    push_imports(out, imports);
    push_derive(out, target);
    let ghost before_extra = toks(out@);
    let ghost inner = match opt_toks(*extra) {
        Some(p) => p,
        None => Seq::<TokV>::empty(),
    };
    match extra {
        Some(p) => push_all(out, p),
        None => {
            assert(toks(out@) =~= before_extra + inner);
        },
    }
    push_inner_decl(out, d);
    let ghost contents = use_parent() + import_stmts(imports@) + derive_attr(toks(target@)) + inner
        + inner_decl(*d);
    assert(toks(out@) =~= open + contents);
    push_tok(out, Tok::Close(Delim::Brace));
    assert(toks(out@) =~= start + module_toks(*d, toks(target@), imports@, opt_toks(*extra)));
}

/// Appends the `use` that brings `d` out of the module named `name`.
fn push_reexport(out: &mut Vec<Tok>, name: String, d: &Decl)
    requires
        name@ == mod_name(d.ident@),
    ensures
        toks(final(out)@) == toks(old(out)@) + reexport_toks(*d),
{
    let ghost start = toks(out@);
    push_all(out, &d.vis);
    push_ident(out, "use");
    push_tok(out, Tok::Ident(name));
    push_path_sep(out);
    push_tok(out, Tok::Ident(d.ident.clone()));
    push_punct(out, ';');
    assert(toks(out@) =~= start + reexport_toks(*d));
}

/// Rewrites the declaration `d`: a private module, named after `d`, that
/// imports the enclosing scope and each of `imports` and holds `d` again with
/// `#[derive(target)]`, the forwarded attribute and the visibility
/// `pub(super)`; then a `use` of `d` out of that module with `d`'s own
/// visibility, under `#[allow(unused_imports)]` where `d` tolerates unused
/// code.
pub fn rewrite(
    attr: &Vec<Tok>,
    d: &Decl,
    target: &Vec<Tok>,
    imports: &Vec<Vec<Tok>>,
    passthru: Option<Vec<Tok>>,
) -> (r: Vec<Tok>)
    ensures
        toks(r@) == rewritten(toks(attr@), *d, toks(target@), imports@, opt_toks(passthru)),
{
    let tolerant_decl = tolerates_unused(&d.attrs);
    let name = module_name(&d.ident);
    let extra = passthru_attr(passthru, attr);
    let mut out: Vec<Tok> = Vec::new();
    push_module(&mut out, &name, d, target, imports, &extra);
    let ghost module = toks(out@);
    if tolerant_decl {
        push_allow(&mut out, "unused_imports");
    } else {
        assert(toks(out@) =~= module + Seq::<TokV>::empty());
    }
    push_reexport(&mut out, name, d);
    assert(toks(out@) =~= rewritten(
        toks(attr@),
        *d,
        toks(target@),
        imports@,
        opt_toks(passthru),
    ));
    out
}

/// Rewrites the parsed declaration `item` as `rewrite` does; where the item
/// could not be parsed, hands back its error and nothing else.
pub fn fix(
    attr: &Vec<Tok>,
    item: Result<Decl, ParseError>,
    target: &Vec<Tok>,
    imports: &Vec<Vec<Tok>>,
    passthru: Option<Vec<Tok>>,
) -> (r: Result<Vec<Tok>, ParseError>)
    ensures
        match item {
            Ok(d) => r is Ok && toks(r->Ok_0@) == rewritten(
                toks(attr@),
                d,
                toks(target@),
                imports@,
                opt_toks(passthru),
            ),
            Err(e) => r == Err::<Vec<Tok>, ParseError>(e),
        },
{
    match item {
        Ok(d) => Ok(rewrite(attr, &d, target, imports, passthru)),
        Err(e) => Err(e),
    }
}

} // verus!
