use vstd::prelude::*;
use vstd::string::*;

use crate::tokens::{attribute, depth, ident, push_all, push_punct, push_tok, toks, Delim, Tok, TokV};

verus! {

/// An outer attribute `#[path args]` of a declaration.
#[derive(Debug, Clone, PartialEq, Eq)]
pub struct Attr {
    /// The attribute's path, as `allow` or `serde::rename`.
    pub path: Vec<Tok>,
    /// What follows the path inside the brackets, as `(dead_code)`.
    pub args: Vec<Tok>,
}

/// A data-type declaration (struct, enum or union), split into the parts that
/// the rewrite reads.
#[derive(Debug, Clone, PartialEq, Eq)]
pub struct Decl {
    /// The outer attributes, in order.
    pub attrs: Vec<Attr>,
    /// The visibility qualifier; empty for a private declaration.
    pub vis: Vec<Tok>,
    /// The declared name, as it is written (`r#` included, if any).
    pub ident: String,
    /// Everything after the visibility: keyword, name, generics and body.
    pub body: Vec<Tok>,
}

/// The input could not be read as a data-type declaration.
#[derive(Debug, Clone, PartialEq, Eq)]
pub struct ParseError {
    pub message: String,
}

/// The tokens of one attribute.
pub open spec fn attr_toks(a: Attr) -> Seq<TokV> {
    attribute(toks(a.path@) + toks(a.args@))
}

/// The tokens of a list of attributes, one after the other.
pub open spec fn attrs_toks(s: Seq<Attr>) -> Seq<TokV>
    decreases s.len(),
{
    if s.len() == 0 {
        Seq::empty()
    } else {
        attrs_toks(s.drop_last()) + attr_toks(s.last())
    }
}

/// A lint name whose `allow` also tolerates unused imports.
pub open spec fn is_lint_word(s: Seq<char>) -> bool {
    s == "unused"@ || s == "unused_imports"@ || s == "dead_code"@
}

/// `args` holds, directly inside one of its top-level groups, an identifier
/// that is a tolerated lint name.
pub open spec fn names_lint(args: Seq<TokV>) -> bool {
    exists|i: int| 0 <= i < args.len() && #[trigger] lint_at(args, i)
}

/// The token at `i` is a tolerated lint name directly inside a top-level group.
pub open spec fn lint_at(args: Seq<TokV>, i: int) -> bool {
    depth(args.take(i)) == 1 && match args[i] {
        TokV::Ident(s) => is_lint_word(s),
        _ => false,
    }
}

/// The attribute is an `allow` that names a tolerated lint.
pub open spec fn tolerant_attr(a: Attr) -> bool {
    toks(a.path@) == seq![ident("allow"@)] && names_lint(toks(a.args@))
}

/// One of the attributes is an `allow` that names a tolerated lint.
pub open spec fn tolerant(attrs: Seq<Attr>) -> bool {
    exists|i: int| #![trigger attrs[i]] 0 <= i < attrs.len() && tolerant_attr(attrs[i])
}

/// Appends the tokens of `attrs`.
pub fn push_attrs(out: &mut Vec<Tok>, attrs: &Vec<Attr>)
    ensures
        toks(final(out)@) == toks(old(out)@) + attrs_toks(attrs@),
{
    let ghost start = toks(out@);
    let mut i: usize = 0;
    while i < attrs.len()
        invariant
            i <= attrs.len(),
            toks(out@) == start + attrs_toks(attrs@.take(i as int)),
        decreases attrs.len() - i,
    {
        let a = &attrs[i];
        let ghost before = toks(out@);
        push_punct(out, '#');
        push_tok(out, Tok::Open(Delim::Bracket));
        push_all(out, &a.path);
        push_all(out, &a.args);
        push_tok(out, Tok::Close(Delim::Bracket));
        assert(toks(out@) =~= before + attr_toks(*a));
        i = i + 1;
        assert(attrs@.take(i as int).drop_last() =~= attrs@.take(i - 1));
    }
    assert(attrs@.take(i as int) =~= attrs@);
}

/// Whether `args` names, directly inside one of its top-level groups, one of
/// the lints `unused`, `unused_imports` or `dead_code`.
pub fn names_tolerated_lint(args: &Vec<Tok>) -> (r: bool)
    ensures
        r == names_lint(toks(args@)),
{
    let ghost a = toks(args@);
    let mut opens: usize = 0;
    let mut closes: usize = 0;
    let mut i: usize = 0;
    while i < args.len()
        invariant
            i <= args.len(),
            a == toks(args@),
            opens + closes <= i,
            depth(a.take(i as int)) == opens - closes,
            forall|j: int| 0 <= j < i ==> !#[trigger] lint_at(a, j),
        decreases args.len() - i,
    {
        let t = &args[i];
        assert(a[i as int] == t@);
        let hit = opens == closes + 1 && (t.is_ident("unused") || t.is_ident("unused_imports")
            || t.is_ident("dead_code"));
        assert(hit == lint_at(a, i as int));
        if hit {
            return true;
        }
        assert(a.take(i + 1).drop_last() =~= a.take(i as int));
        match t {
            Tok::Open(_) => {
                opens = opens + 1;
            },
            Tok::Close(_) => {
                closes = closes + 1;
            },
            _ => {},
        }
        i = i + 1;
    }
    false
}

/// Whether one of `attrs` is an `allow` naming `unused`, `unused_imports` or
/// `dead_code`: such a declaration also tolerates unused imports.
pub fn tolerates_unused(attrs: &Vec<Attr>) -> (r: bool)
    ensures
        r == tolerant(attrs@),
{
    let mut i: usize = 0;
    while i < attrs.len()
        invariant
            i <= attrs.len(),
            forall|j: int| #![trigger attrs@[j]] 0 <= j < i ==> !tolerant_attr(attrs@[j]),
        decreases attrs.len() - i,
    {
        let a = &attrs[i];
        let is_allow = a.path.len() == 1 && a.path[0].is_ident("allow");
        assert(is_allow == (toks(a.path@) == seq![ident("allow"@)])) by {
            if a.path.len() == 1 {
                assert(toks(a.path@) =~= seq![a.path@[0]@]);
                if toks(a.path@) == seq![ident("allow"@)] {
                    assert(toks(a.path@)[0] == ident("allow"@));
                }
            } else {
                assert(toks(a.path@).len() != 1);
            }
        }
        if is_allow && names_tolerated_lint(&a.args) {
            return true;
        }
        i = i + 1;
    }
    false
}

} // verus!
