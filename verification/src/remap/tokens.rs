//! Tokens of the remap language.
//!
//! The tokenizer turns a description into identifiers and punctuation, each
//! carrying the character position it starts at.

use vstd::prelude::*;
use vstd::string::StrSliceExecFns;

use crate::errors::{CompileError, CompileErrorKind};

verus! {

/// What one token is.
#[derive(Debug, PartialEq, Eq)]
pub enum TokenKind {
    Ident(String),
    Comma,
    Colon,
    Arrow,
    LBrace,
    RBrace,
    LBracket,
    RBracket,
    LParen,
    RParen,
}

/// One token, at the character position it starts at.
#[derive(Debug, PartialEq, Eq)]
pub struct Token {
    pub kind: TokenKind,
    pub pos: usize,
}

/// The mathematical shape of a token kind.
pub enum TokenKindModel {
    Ident(Seq<char>),
    Comma,
    Colon,
    Arrow,
    LBrace,
    RBrace,
    LBracket,
    RBracket,
    LParen,
    RParen,
}

/// The mathematical shape of a token.
pub struct TokenModel {
    pub kind: TokenKindModel,
    pub pos: int,
}

impl View for TokenKind {
    type V = TokenKindModel;

    open spec fn view(&self) -> TokenKindModel {
        match self {
            TokenKind::Ident(s) => TokenKindModel::Ident(s@),
            TokenKind::Comma => TokenKindModel::Comma,
            TokenKind::Colon => TokenKindModel::Colon,
            TokenKind::Arrow => TokenKindModel::Arrow,
            TokenKind::LBrace => TokenKindModel::LBrace,
            TokenKind::RBrace => TokenKindModel::RBrace,
            TokenKind::LBracket => TokenKindModel::LBracket,
            TokenKind::RBracket => TokenKindModel::RBracket,
            TokenKind::LParen => TokenKindModel::LParen,
            TokenKind::RParen => TokenKindModel::RParen,
        }
    }
}

impl View for Token {
    type V = TokenModel;

    open spec fn view(&self) -> TokenModel {
        TokenModel { kind: self.kind@, pos: self.pos as int }
    }
}

/// The tokens of a token vector, in order.
pub open spec fn spec_token_models(ts: Seq<Token>) -> Seq<TokenModel> {
    ts.map_values(|t: Token| t@)
}

/// A character that may stand in an identifier: a letter, a digit, or an
/// underscore.
pub open spec fn spec_is_ident_char(c: char) -> bool {
    ('a' <= c && c <= 'z') || ('A' <= c && c <= 'Z') || ('0' <= c && c <= '9') || c == '_'
}

/// A character the tokenizer skips.
pub open spec fn spec_is_space(c: char) -> bool {
    c == ' ' || c == '\t' || c == '\n' || c == '\r'
}

/// Where the identifier starting at `i` ends: the first position at or after
/// `i` holding no identifier character.
pub open spec fn spec_ident_end(s: Seq<char>, i: int) -> int
    decreases s.len() - i when 0 <= i <= s.len()
{
    if i < s.len() && spec_is_ident_char(s[i]) {
        spec_ident_end(s, i + 1)
    } else {
        i
    }
}

/// The end of an identifier lies between its start and the end of the text.
pub proof fn lemma_ident_end_bounds(s: Seq<char>, i: int)
    requires
        0 <= i <= s.len(),
    ensures
        i <= spec_ident_end(s, i) <= s.len(),
    decreases s.len() - i,
{
    if i < s.len() && spec_is_ident_char(s[i]) {
        lemma_ident_end_bounds(s, i + 1);
    }
}

/// The tokens of the text from position `i` on, or the position of the first
/// character no token starts with.
pub open spec fn spec_tokenize_from(s: Seq<char>, i: int) -> Result<Seq<TokenModel>, int>
    decreases s.len() - i when 0 <= i <= s.len()
{
    if i >= s.len() {
        Ok(Seq::empty())
    } else if spec_is_space(s[i]) {
        spec_tokenize_from(s, i + 1)
    } else if spec_is_ident_char(s[i]) {
        let j = spec_ident_end_clipped(s, i);
        match spec_tokenize_from(s, j) {
            Ok(rest) => Ok(
                seq![TokenModel { kind: TokenKindModel::Ident(s.subrange(i, j)), pos: i }] + rest,
            ),
            Err(p) => Err(p),
        }
    } else if s[i] == '-' && i + 1 < s.len() && s[i + 1] == '>' {
        spec_tok_cons(TokenKindModel::Arrow, i, spec_tokenize_from(s, i + 2))
    } else if s[i] == ',' {
        spec_tok_cons(TokenKindModel::Comma, i, spec_tokenize_from(s, i + 1))
    } else if s[i] == ':' {
        spec_tok_cons(TokenKindModel::Colon, i, spec_tokenize_from(s, i + 1))
    } else if s[i] == '{' {
        spec_tok_cons(TokenKindModel::LBrace, i, spec_tokenize_from(s, i + 1))
    } else if s[i] == '}' {
        spec_tok_cons(TokenKindModel::RBrace, i, spec_tokenize_from(s, i + 1))
    } else if s[i] == '[' {
        spec_tok_cons(TokenKindModel::LBracket, i, spec_tokenize_from(s, i + 1))
    } else if s[i] == ']' {
        spec_tok_cons(TokenKindModel::RBracket, i, spec_tokenize_from(s, i + 1))
    } else if s[i] == '(' {
        spec_tok_cons(TokenKindModel::LParen, i, spec_tokenize_from(s, i + 1))
    } else if s[i] == ')' {
        spec_tok_cons(TokenKindModel::RParen, i, spec_tokenize_from(s, i + 1))
    } else {
        Err(i)
    }
}

/// The end of the identifier at `i`, clipped so that the tokenizer's measure
/// is seen to shrink.
pub open spec fn spec_ident_end_clipped(s: Seq<char>, i: int) -> int {
    let j = spec_ident_end(s, i + 1);
    if i + 1 <= j <= s.len() {
        j
    } else {
        i + 1
    }
}

/// One token followed by the rest.
pub open spec fn spec_tok_cons(k: TokenKindModel, pos: int, rest: Result<Seq<TokenModel>, int>) -> Result<
    Seq<TokenModel>,
    int,
> {
    match rest {
        Ok(ts) => Ok(seq![TokenModel { kind: k, pos: pos }] + ts),
        Err(p) => Err(p),
    }
}

/// The tokens of a whole description, or the position of the first character
/// no token starts with.
pub open spec fn spec_tokenize(s: Seq<char>) -> Result<Seq<TokenModel>, int> {
    spec_tokenize_from(s, 0)
}

fn is_ident_char(c: char) -> (r: bool)
    ensures
        r == spec_is_ident_char(c),
{
    ('a' <= c && c <= 'z') || ('A' <= c && c <= 'Z') || ('0' <= c && c <= '9') || c == '_'
}

fn is_space(c: char) -> (r: bool)
    ensures
        r == spec_is_space(c),
{
    c == ' ' || c == '\t' || c == '\n' || c == '\r'
}

/// Prepends the remaining answer to the tokens already read.
spec fn spec_tok_concat(pre: Seq<TokenModel>, r: Result<Seq<TokenModel>, int>) -> Result<
    Seq<TokenModel>,
    int,
> {
    match r {
        Ok(ts) => Ok(pre + ts),
        Err(p) => Err(p),
    }
}

/// Splits a description into tokens; a character no token starts with is
/// reported at its position.
pub fn tokenize(s: &str) -> (r: Result<Vec<Token>, CompileError>)
    ensures
        match r {
            Ok(v) => spec_tokenize(s@) == Ok::<_, int>(spec_token_models(v@)),
            Err(e) => spec_tokenize(s@) == Err::<Seq<TokenModel>, _>(e.pos as int)
                && e.kind == CompileErrorKind::UnexpectedToken,
        },
{
    let n = s.unicode_len();
    let mut out: Vec<Token> = Vec::new();
    let mut i: usize = 0;
    proof {
        assert(spec_token_models(out@) =~= Seq::<TokenModel>::empty());
        assert(spec_tokenize(s@) == spec_tok_concat(
            spec_token_models(out@),
            spec_tokenize_from(s@, 0),
        )) by {
            match spec_tokenize_from(s@, 0) {
                Ok(ts) => {
                    assert(Seq::<TokenModel>::empty() + ts =~= ts);
                },
                Err(_) => {},
            }
        }
    }
    while i < n
        invariant
            i <= n,
            n == s@.len(),
            spec_tokenize(s@) == spec_tok_concat(
                spec_token_models(out@),
                spec_tokenize_from(s@, i as int),
            ),
        decreases n - i,
    {
        let c = s.get_char(i);
        if is_space(c) {
            i = i + 1;
        } else if is_ident_char(c) {
            let start = i;
            let mut j: usize = i + 1;
            proof {
                lemma_ident_end_bounds(s@, j as int);
            }
            while j < n && is_ident_char(s.get_char(j))
                invariant
                    i < j <= n,
                    n == s@.len(),
                    spec_ident_end(s@, i as int + 1) == spec_ident_end(s@, j as int),
                decreases n - j,
            {
                j = j + 1;
            }
            proof {
                assert(spec_ident_end(s@, j as int) == j as int);
                assert(spec_ident_end_clipped(s@, i as int) == j as int);
            }
            let text = s.substring_char(start, j).to_owned();
            let ghost pre = out@;
            let tok = Token { kind: TokenKind::Ident(text), pos: start };
            let ghost tm = tok@;
            out.push(tok);
            proof {
                assert(spec_tokenize_from(s@, i as int) == spec_tok_cons_general(
                    tm,
                    spec_tokenize_from(s@, j as int),
                )) by {
                    match spec_tokenize_from(s@, j as int) {
                        Ok(rest) => {},
                        Err(_) => {},
                    }
                }
                lemma_concat_shift(pre, tok, spec_tokenize_from(s@, j as int));
            }
            i = j;
        } else {
            let kind: Option<TokenKind> = if c == '-' && i + 1 < n && s.get_char(i + 1) == '>' {
                Some(TokenKind::Arrow)
            } else if c == ',' {
                Some(TokenKind::Comma)
            } else if c == ':' {
                Some(TokenKind::Colon)
            } else if c == '{' {
                Some(TokenKind::LBrace)
            } else if c == '}' {
                Some(TokenKind::RBrace)
            } else if c == '[' {
                Some(TokenKind::LBracket)
            } else if c == ']' {
                Some(TokenKind::RBracket)
            } else if c == '(' {
                Some(TokenKind::LParen)
            } else if c == ')' {
                Some(TokenKind::RParen)
            } else {
                None
            };
            match kind {
                Some(k) => {
                    let wide: usize = if c == '-' {
                        2
                    } else {
                        1
                    };
                    let ghost pre = out@;
                    let tok = Token { kind: k, pos: i };
                    let ghost tm = tok@;
                    out.push(tok);
                    proof {
                        assert(spec_tokenize_from(s@, i as int) == spec_tok_cons_general(
                            tm,
                            spec_tokenize_from(s@, i as int + wide as int),
                        ));
                        lemma_concat_shift(pre, tok, spec_tokenize_from(s@, i as int + wide as int));
                    }
                    i = i + wide;
                },
                None => {
                    return Err(CompileError { pos: i, kind: CompileErrorKind::UnexpectedToken });
                },
            }
        }
    }
    proof {
        match spec_tokenize_from(s@, n as int) {
            Ok(ts) => {
                assert(ts =~= Seq::<TokenModel>::empty());
                assert(spec_token_models(out@) + ts =~= spec_token_models(out@));
            },
            Err(_) => {},
        }
    }
    Ok(out)
}

/// After one more token is read, the tokens-so-far plus the rest still make
/// the whole answer.
proof fn lemma_concat_shift(pre: Seq<Token>, tok: Token, rest: Result<Seq<TokenModel>, int>)
    ensures
        spec_tok_concat(spec_token_models(pre), spec_tok_cons_general(tok@, rest))
            == spec_tok_concat(spec_token_models(pre.push(tok)), rest),
{
    match rest {
        Ok(ts) => {
            assert(spec_token_models(pre) + (seq![tok@] + ts) =~= spec_token_models(pre.push(tok))
                + ts);
        },
        Err(_) => {},
    }
}

/// One token model followed by the rest.
pub open spec fn spec_tok_cons_general(tm: TokenModel, rest: Result<Seq<TokenModel>, int>) -> Result<
    Seq<TokenModel>,
    int,
> {
    match rest {
        Ok(ts) => Ok(seq![tm] + ts),
        Err(p) => Err(p),
    }
}

} // verus!
