use vstd::prelude::*;
use vstd::string::*;

verus! {

/// The delimiter of a token group.
#[derive(Debug, Clone, Copy, PartialEq, Eq)]
pub enum Delim {
    Paren,
    Brace,
    Bracket,
    Invisible,
}

/// One token of a flattened token stream.  A group is written as an
/// `Open` marker, its contents, and the matching `Close` marker.
#[derive(Debug, Clone, PartialEq, Eq)]
pub enum Tok {
    Ident(String),
    /// A punctuation character; the flag is set when it is joined to the
    /// next punctuation character (as the first `:` of `::`).
    Punct(char, bool),
    Literal(String),
    Open(Delim),
    Close(Delim),
}

/// The mathematical value of a token: its text as a sequence of characters.
pub ghost enum TokV {
    Ident(Seq<char>),
    Punct(char, bool),
    Literal(Seq<char>),
    Open(Delim),
    Close(Delim),
}

impl View for Tok {
    type V = TokV;

    open spec fn view(&self) -> TokV {
        match self {
            Tok::Ident(s) => TokV::Ident(s@),
            Tok::Punct(c, j) => TokV::Punct(*c, *j),
            Tok::Literal(s) => TokV::Literal(s@),
            Tok::Open(d) => TokV::Open(*d),
            Tok::Close(d) => TokV::Close(*d),
        }
    }
}

/// The value of a sequence of tokens.
pub open spec fn toks(v: Seq<Tok>) -> Seq<TokV> {
    v.map_values(|t: Tok| t@)
}

/// How much a token changes the nesting depth.
pub open spec fn depth_step(t: TokV) -> int {
    match t {
        TokV::Open(_) => 1,
        TokV::Close(_) => -1,
        _ => 0,
    }
}

/// The nesting depth after the tokens `t`.
pub open spec fn depth(t: Seq<TokV>) -> int
    decreases t.len(),
{
    if t.len() == 0 {
        0
    } else {
        depth(t.drop_last()) + depth_step(t.last())
    }
}

/// An identifier token.
pub open spec fn ident(s: Seq<char>) -> TokV {
    TokV::Ident(s)
}

/// A punctuation character that stands alone.
pub open spec fn punct(c: char) -> TokV {
    TokV::Punct(c, false)
}

/// The path separator `::`.
pub open spec fn path_sep() -> Seq<TokV> {
    seq![TokV::Punct(':', true), TokV::Punct(':', false)]
}

/// A group with delimiter `d` around `inner`.
pub open spec fn grouped(d: Delim, inner: Seq<TokV>) -> Seq<TokV> {
    seq![TokV::Open(d)] + inner + seq![TokV::Close(d)]
}

/// The outer attribute `#[inner]`.
pub open spec fn attribute(inner: Seq<TokV>) -> Seq<TokV> {
    seq![punct('#')] + grouped(Delim::Bracket, inner)
}

impl Tok {
    /// A copy of the token with the same value.
    pub fn copied(&self) -> (r: Tok)
        ensures
            r@ == self@,
    {
        match self {
            Tok::Ident(s) => Tok::Ident(s.clone()),
            Tok::Punct(c, j) => Tok::Punct(*c, *j),
            Tok::Literal(s) => Tok::Literal(s.clone()),
            Tok::Open(d) => Tok::Open(*d),
            Tok::Close(d) => Tok::Close(*d),
        }
    }

    /// Whether the token is the identifier `w`.
    pub fn is_ident(&self, w: &str) -> (r: bool)
        ensures
            r == (self@ == ident(w@)),
    {
        match self {
            Tok::Ident(s) => {
                let t = String::from_str(w);
                *s == t
            },
            _ => false,
        }
    }
}

/// Appends one token.
pub fn push_tok(out: &mut Vec<Tok>, t: Tok)
    ensures
        toks(final(out)@) == toks(old(out)@) + seq![t@],
{
    out.push(t);
    assert(toks(final(out)@) =~= toks(old(out)@) + seq![t@]);
}

/// Appends the identifier `w`.
pub fn push_ident(out: &mut Vec<Tok>, w: &str)
    ensures
        toks(final(out)@) == toks(old(out)@) + seq![ident(w@)],
{
    push_tok(out, Tok::Ident(String::from_str(w)));
}

/// Appends a lone punctuation character.
pub fn push_punct(out: &mut Vec<Tok>, c: char)
    ensures
        toks(final(out)@) == toks(old(out)@) + seq![punct(c)],
{
    push_tok(out, Tok::Punct(c, false));
}

/// Appends the path separator `::`.
pub fn push_path_sep(out: &mut Vec<Tok>)
    ensures
        toks(final(out)@) == toks(old(out)@) + path_sep(),
{
    push_tok(out, Tok::Punct(':', true));
    push_tok(out, Tok::Punct(':', false));
    assert(toks(final(out)@) =~= toks(old(out)@) + path_sep());
}

/// Appends a copy of every token of `src`.
pub fn push_all(out: &mut Vec<Tok>, src: &Vec<Tok>)
    ensures
        toks(final(out)@) == toks(old(out)@) + toks(src@),
{
    let ghost start = toks(out@);
    let mut i: usize = 0;
    while i < src.len()
        invariant
            i <= src.len(),
            toks(out@) == start + toks(src@.take(i as int)),
        decreases src.len() - i,
    {
        let t = src[i].copied();
        push_tok(out, t);
        i = i + 1;
        assert(toks(src@.take(i as int)) =~= toks(src@.take(i - 1)) + seq![src@[i - 1]@]);
    }
    assert(src@.take(i as int) =~= src@);
}

} // verus!
