//! The token table from which the lexer's keyword and punctuation tables are
//! generated.

use vstd::prelude::*;
use vstd::string::StrSliceExecFns;

verus! {

/// A keyword of the language.
#[derive(Debug)]
pub struct Keyword {
    /// The name of the token's variant.
    pub variant: String,
    /// The documentation of the token.
    pub doc: String,
    /// The keyword as written in source.
    pub keyword: String,
}

/// A punctuation of the language.
#[derive(Debug)]
pub struct Punct {
    /// The name of the token's variant.
    pub variant: String,
    /// The documentation of the token.
    pub doc: String,
    /// The punctuation as written in source.
    pub punct: String,
}

/// An entry of the token table.
#[derive(Debug)]
pub enum Token {
    Keyword(Keyword),
    Punct(Punct),
}

impl Token {
    /// The documentation of the token.
    pub open spec fn spec_doc(&self) -> String {
        match self {
            Token::Keyword(k) => k.doc,
            Token::Punct(p) => p.doc,
        }
    }

    /// The name of the token's variant.
    pub open spec fn spec_variant(&self) -> String {
        match self {
            Token::Keyword(k) => k.variant,
            Token::Punct(p) => p.variant,
        }
    }

    /// The documentation of the token.
    pub fn doc(&self) -> (doc: &String)
        ensures
            *doc == self.spec_doc(),
    {
        match self {
            Token::Keyword(k) => &k.doc,
            Token::Punct(p) => &p.doc,
        }
    }

    /// The name of the token's variant.
    pub fn variant(&self) -> (variant: &String)
        ensures
            *variant == self.spec_variant(),
    {
        match self {
            Token::Keyword(k) => &k.variant,
            Token::Punct(p) => &p.variant,
        }
    }
}

/// The keywords of a token table, in table order.
pub open spec fn spec_keywords(tokens: Seq<Token>) -> Seq<Keyword>
    decreases tokens.len(),
{
    if tokens.len() == 0 {
        Seq::empty()
    } else {
        let rest = spec_keywords(tokens.drop_last());
        match tokens.last() {
            Token::Keyword(k) => rest.push(k),
            Token::Punct(_) => rest,
        }
    }
}

/// The punctuations of a token table, in table order.
pub open spec fn spec_punctuations(tokens: Seq<Token>) -> Seq<Punct>
    decreases tokens.len(),
{
    if tokens.len() == 0 {
        Seq::empty()
    } else {
        let rest = spec_punctuations(tokens.drop_last());
        match tokens.last() {
            Token::Punct(p) => rest.push(p),
            Token::Keyword(_) => rest,
        }
    }
}

/// The keywords of a token table, in table order.
pub fn keywords(tokens: &Vec<Token>) -> (keywords: Vec<&Keyword>)
    ensures
        keywords@.map_values(|k: &Keyword| *k) == spec_keywords(tokens@),
{
    let mut keywords: Vec<&Keyword> = Vec::new();
    let mut i: usize = 0;
    while i < tokens.len()
        invariant
            i <= tokens@.len(),
            keywords@.map_values(|k: &Keyword| *k) == spec_keywords(tokens@.take(i as int)),
        decreases tokens@.len() - i,
    {
        let ghost before = keywords@;
        assert(tokens@.take(i + 1).drop_last() =~= tokens@.take(i as int));
        match &tokens[i] {
            Token::Keyword(k) => {
                keywords.push(k);
                assert(keywords@.map_values(|k: &Keyword| *k) =~= before.map_values(
                    |k: &Keyword| *k,
                ).push(*k));
            },
            Token::Punct(_) => {},
        }
        i = i + 1;
    }
    assert(tokens@.take(tokens@.len() as int) =~= tokens@);
    keywords
}

/// The punctuations of a token table, in table order.
pub fn punctuations(tokens: &Vec<Token>) -> (punctuations: Vec<&Punct>)
    ensures
        punctuations@.map_values(|p: &Punct| *p) == spec_punctuations(tokens@),
{
    let mut punctuations: Vec<&Punct> = Vec::new();
    let mut i: usize = 0;
    while i < tokens.len()
        invariant
            i <= tokens@.len(),
            punctuations@.map_values(|p: &Punct| *p) == spec_punctuations(tokens@.take(i as int)),
        decreases tokens@.len() - i,
    {
        let ghost before = punctuations@;
        assert(tokens@.take(i + 1).drop_last() =~= tokens@.take(i as int));
        match &tokens[i] {
            Token::Punct(p) => {
                punctuations.push(p);
                assert(punctuations@.map_values(|p: &Punct| *p) =~= before.map_values(
                    |p: &Punct| *p,
                ).push(*p));
            },
            Token::Keyword(_) => {},
        }
        i = i + 1;
    }
    assert(tokens@.take(tokens@.len() as int) =~= tokens@);
    punctuations
}

/// Every entry of a token table is a keyword or a punctuation, never both:
/// the two lists together are as long as the table.
pub proof fn lemma_keywords_and_punctuations_partition(tokens: Seq<Token>)
    ensures
        spec_keywords(tokens).len() + spec_punctuations(tokens).len() == tokens.len(),
    decreases tokens.len(),
{
    if tokens.len() > 0 {
        lemma_keywords_and_punctuations_partition(tokens.drop_last());
    }
}

/// The characters of a punctuation padded with `'\0'` to three: the pattern
/// against which the lexer matches its buffer.
pub open spec fn spec_punct_buffer(punct: Seq<char>) -> Seq<char> {
    punct + Seq::new((3 - punct.len()) as nat, |i: int| '\0')
}

/// The characters of `punct` padded with `'\0'` to three. A punctuation is at
/// most three characters long.
pub fn buf_match(punct: &str) -> (chars: Vec<char>)
    requires
        punct@.len() <= 3,
    ensures
        chars@ == spec_punct_buffer(punct@),
        chars@.len() == 3,
{
    let len = punct.unicode_len();
    let mut chars: Vec<char> = Vec::new();
    let mut i: usize = 0;
    while i < len
        invariant
            len == punct@.len(),
            len <= 3,
            i <= len,
            chars@ == punct@.take(i as int),
        decreases len - i,
    {
        chars.push(punct.get_char(i));
        assert(punct@.take(i + 1) =~= punct@.take(i as int).push(punct@[i as int]));
        i = i + 1;
    }
    let extra = 3 - len;
    let mut j: usize = 0;
    while j < extra
        invariant
            len == punct@.len(),
            extra == 3 - len,
            j <= extra,
            chars@ == punct@ + Seq::new(j as nat, |k: int| '\0'),
        decreases extra - j,
    {
        chars.push('\0');
        assert(punct@ + Seq::new((j + 1) as nat, |k: int| '\0') =~= (punct@ + Seq::new(
            j as nat,
            |k: int| '\0',
        )).push('\0'));
        j = j + 1;
    }
    assert(punct@.take(len as int) =~= punct@);
    chars
}

} // verus!
