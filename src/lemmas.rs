use vstd::prelude::*;

use crate::decl::{attrs_toks, is_lint_word, lint_at, names_lint, tolerant, tolerant_attr, Attr, Decl};
use crate::rewrite::{
    allow_attr, mod_name, module_prefix, module_toks, parent_vis, passthru_spec, reexport_toks, rewritten,
    unraw, use_stmt,
};
use crate::tokens::{depth, grouped, ident, path_sep, toks, Delim, Tok, TokV};

verus! {

/// The `use` that ends the output carries exactly the declaration's own
/// visibility, while the copy inside the generated module carries
/// `pub(super)`, whatever that visibility is.
pub proof fn lemma_visibility_kept(
    attr: Seq<TokV>,
    d: Decl,
    target: Seq<TokV>,
    imports: Seq<Vec<Tok>>,
    passthru_name: Option<Seq<TokV>>,
)
    ensures
        ({
            let out = rewritten(attr, d, target, imports, passthru_name);
            let tail = toks(d.vis@) + use_stmt(
                seq![ident(mod_name(d.ident@))] + path_sep() + seq![ident(d.ident@)],
            );
            let inner = attrs_toks(d.attrs@) + parent_vis() + toks(d.body@);
            &&& out.len() >= tail.len()
            &&& out.subrange(out.len() - tail.len(), out.len() as int) == tail
            &&& exists|k: int|
                0 <= k && k + inner.len() <= out.len() && #[trigger] out.subrange(
                    k,
                    k + inner.len(),
                ) == inner
        }),
{
    let out = rewritten(attr, d, target, imports, passthru_name);
    let tail = reexport_toks(d);
    assert(out.subrange(out.len() - tail.len(), out.len() as int) =~= tail);
    lemma_declaration_kept(attr, d, target, imports, passthru_name);
}

/// The generated module opens the output, and holds the declaration's
/// attributes and body (name, generics, fields or variants) unchanged.
pub proof fn lemma_declaration_kept(
    attr: Seq<TokV>,
    d: Decl,
    target: Seq<TokV>,
    imports: Seq<Vec<Tok>>,
    passthru_name: Option<Seq<TokV>>,
)
    ensures
        ({
            let out = rewritten(attr, d, target, imports, passthru_name);
            let m = module_toks(d, target, imports, passthru_spec(passthru_name, attr));
            let inner = attrs_toks(d.attrs@) + parent_vis() + toks(d.body@);
            &&& m.len() <= out.len()
            &&& out.subrange(0, m.len() as int) == m
            &&& exists|k: int|
                0 <= k && k + inner.len() <= out.len() && #[trigger] out.subrange(
                    k,
                    k + inner.len(),
                ) == inner
        }),
{
    let out = rewritten(attr, d, target, imports, passthru_name);
    let m = module_toks(d, target, imports, passthru_spec(passthru_name, attr));
    let inner = attrs_toks(d.attrs@) + parent_vis() + toks(d.body@);
    assert(out.subrange(0, m.len() as int) =~= m);
    let k = m.len() - 1 - inner.len();
    assert(m.subrange(k, k + inner.len()) =~= inner);
    assert(out.subrange(k, k + inner.len()) =~= inner);
    assert(toks(d.body@).len() == d.body@.len());
}

/// Declarations whose names differ (raw marker `r#` aside) get differently
/// named modules.
pub proof fn lemma_module_names_differ(a: Seq<char>, b: Seq<char>)
    requires
        unraw(a) != unraw(b),
    ensures
        mod_name(a) != mod_name(b),
{
    let p = module_prefix();
    if mod_name(a) == mod_name(b) {
        assert(mod_name(a).skip(p.len() as int) =~= unraw(a));
        assert(mod_name(b).skip(p.len() as int) =~= unraw(b));
    }
}

/// No attribute is forwarded without a name, whatever the attribute input,
/// nor with a name and an empty attribute input.
pub proof fn lemma_passthru_gated(
    attr: Seq<TokV>,
    other: Seq<TokV>,
    d: Decl,
    target: Seq<TokV>,
    imports: Seq<Vec<Tok>>,
    name: Seq<TokV>,
)
    ensures
        rewritten(attr, d, target, imports, None) == rewritten(other, d, target, imports, None),
        rewritten(Seq::empty(), d, target, imports, Some(name)) == rewritten(
            attr,
            d,
            target,
            imports,
            None,
        ),
        attr.len() > 0 ==> passthru_spec(Some(name), attr) == Some(
            seq![TokV::Punct('#', false)] + grouped(
                Delim::Bracket,
                name + grouped(Delim::Paren, attr),
            ),
        ),
{
}

/// An attribute `#[allow(w)]` tolerates unused imports exactly when `w` is
/// `unused`, `unused_imports` or `dead_code`.
pub proof fn lemma_allow_gating(a: Attr, w: Seq<char>)
    requires
        toks(a.path@) == seq![ident("allow"@)],
        toks(a.args@) == grouped(Delim::Paren, seq![ident(w)]),
    ensures
        tolerant_attr(a) == is_lint_word(w),
{
    let s = toks(a.args@);
    assert(s.len() == 3);
    assert(s[0] == TokV::Open(Delim::Paren));
    assert(s[1] == ident(w));
    assert(s[2] == TokV::Close(Delim::Paren));
    assert(s.take(0) =~= Seq::<TokV>::empty());
    assert(s.take(1).drop_last() =~= s.take(0));
    assert(s.take(1).last() == s[0]);
    assert(depth(s.take(0)) == 0);
    assert(depth(s.take(1)) == 1);
    if is_lint_word(w) {
        assert(lint_at(s, 1));
    } else {
        assert forall|i: int| 0 <= i < s.len() implies !#[trigger] lint_at(s, i) by {
            if i == 0 {
                assert(!(s[0] is Ident));
            } else if i == 2 {
                assert(!(s[2] is Ident));
            }
        }
        assert(!names_lint(s));
    }
}

/// A declaration whose one attribute is `#[allow(w)]` has its `use` out of
/// the generated module preceded by `#[allow(unused_imports)]` exactly when
/// `w` is `unused`, `unused_imports` or `dead_code`.
pub proof fn lemma_reexport_tolerance(
    attr: Seq<TokV>,
    a: Attr,
    w: Seq<char>,
    d: Decl,
    target: Seq<TokV>,
    imports: Seq<Vec<Tok>>,
    passthru_name: Option<Seq<TokV>>,
)
    requires
        d.attrs@ == seq![a],
        toks(a.path@) == seq![ident("allow"@)],
        toks(a.args@) == grouped(Delim::Paren, seq![ident(w)]),
    ensures
        rewritten(attr, d, target, imports, passthru_name) == module_toks(
            d,
            target,
            imports,
            passthru_spec(passthru_name, attr),
        ) + (if is_lint_word(w) {
            allow_attr("unused_imports"@)
        } else {
            Seq::empty()
        }) + reexport_toks(d),
{
    lemma_allow_gating(a, w);
    assert(d.attrs@[0] == a);
    assert(tolerant(d.attrs@) == tolerant_attr(a));
}

} // verus!
