//! The parser of the remap language.
//!
//! A recursive-descent parser over the token stream.  Every parsing function
//! is mirrored by a specification function over token models, so the shape
//! of an accepted description, and the position every rejection is anchored
//! at, are pinned down exactly.

use vstd::prelude::*;

use crate::errors::{CompileError, CompileErrorKind};
use crate::remap::tokens::{
    spec_token_models, spec_tokenize, tokenize, Token, TokenKind, TokenModel,
};
use crate::strings::spec_canonical_key_name;

verus! {

/// An identifier with the character position it starts at.
#[derive(Debug, Eq)]
pub struct Ident {
    pub text: String,
    pub pos: usize,
}

/// The mathematical shape of an identifier.
pub struct IdentModel {
    pub text: Seq<char>,
    pub pos: int,
}

impl View for Ident {
    type V = IdentModel;

    open spec fn view(&self) -> IdentModel {
        IdentModel { text: self.text@, pos: self.pos as int }
    }
}

impl PartialEq for Ident {
    /// Two identifiers are the same when they spell the same name; where
    /// they stand does not matter.
    fn eq(&self, other: &Ident) -> (r: bool) {
        self.text == other.text
    }
}

impl vstd::std_specs::cmp::PartialEqSpecImpl for Ident {
    open spec fn obeys_eq_spec() -> bool {
        true
    }

    open spec fn eq_spec(&self, other: &Ident) -> bool {
        self.text@ == other.text@
    }
}

impl Clone for Ident {
    fn clone(&self) -> (r: Self)
        ensures
            r == *self,
    {
        Ident { text: self.text.clone(), pos: self.pos }
    }
}

impl Ident {
    /// An identifier at a position.
    pub fn new(text: String, pos: usize) -> (r: Ident)
        ensures
            r.text == text,
            r.pos == pos,
    {
        Ident { text, pos }
    }

    /// The identifier's spelling.
    pub fn to_string(&self) -> (r: String)
        ensures
            r@ == self.text@,
    {
        self.text.clone()
    }
}

/// A key name as written, to the left or right of an arrow.
#[derive(Debug, PartialEq, Eq)]
pub struct Key(pub Ident);

impl Key {
    /// The canonical name of the key: `F` and `KC_F` both spell `KC_F`.
    pub fn to_string(&self) -> (r: String)
        ensures
            r@ == spec_canonical_key_name(self.0.text@),
    {
        crate::strings::canonical_key_name(self.0.text.as_str())
    }
}

/// A key function's name as written.
#[derive(Debug, PartialEq, Eq)]
pub struct KeyFunctionName(pub Ident);

impl KeyFunctionName {
    /// The name's spelling.
    pub fn to_string(&self) -> (r: String)
        ensures
            r@ == self.0.text@,
    {
        self.0.to_string()
    }
}

/// A bare-name argument of a key function.
#[derive(Debug, PartialEq, Eq)]
pub struct StringParameter(pub Ident);

impl StringParameter {
    /// The argument's spelling.
    pub fn to_string(&self) -> (r: String)
        ensures
            r@ == self.0.text@,
    {
        self.0.to_string()
    }
}

/// One argument of a key function.
#[derive(Debug, PartialEq, Eq)]
pub enum KeyFunctionParameter {
    StringParameter(StringParameter),
}

impl KeyFunctionParameter {
    /// The argument's spelling.
    pub fn to_string(&self) -> (r: String)
        ensures
            r@ == self@.text,
    {
        match self {
            KeyFunctionParameter::StringParameter(p) => p.to_string(),
        }
    }

    /// The character position the argument starts at.
    pub fn pos(&self) -> (r: usize)
        ensures
            r as int == self@.pos,
    {
        match self {
            KeyFunctionParameter::StringParameter(p) => p.0.pos,
        }
    }
}

impl View for KeyFunctionParameter {
    type V = IdentModel;

    open spec fn view(&self) -> IdentModel {
        match self {
            KeyFunctionParameter::StringParameter(p) => p.0@,
        }
    }
}

/// The arguments of a key function, in order.
#[derive(Debug, PartialEq, Eq)]
pub struct KeyFunctionParameters(pub Vec<KeyFunctionParameter>);

impl View for KeyFunctionParameters {
    type V = Seq<IdentModel>;

    open spec fn view(&self) -> Seq<IdentModel> {
        self.0@.map_values(|p: KeyFunctionParameter| p@)
    }
}

/// A key function with its arguments, such as `TT(Navigation, F)`.
#[derive(Debug, PartialEq, Eq)]
pub struct KeyFunction {
    pub name: KeyFunctionName,
    pub params: KeyFunctionParameters,
}

/// The mathematical shape of a key function.
pub struct FnModel {
    pub name: IdentModel,
    pub params: Seq<IdentModel>,
}

impl View for KeyFunction {
    type V = FnModel;

    open spec fn view(&self) -> FnModel {
        FnModel { name: self.name.0@, params: self.params@ }
    }
}

/// The right-hand side of a map: a bare key or a key function.
#[derive(Debug, PartialEq, Eq)]
pub enum ControlCode {
    Key(Key),
    Function(KeyFunction),
}

/// The mathematical shape of a right-hand side.
pub enum CcModel {
    Key(IdentModel),
    Function(FnModel),
}

impl View for ControlCode {
    type V = CcModel;

    open spec fn view(&self) -> CcModel {
        match self {
            ControlCode::Key(k) => CcModel::Key(k.0@),
            ControlCode::Function(f) => CcModel::Function(f@),
        }
    }
}

/// One `key -> target` map.
#[derive(Debug, PartialEq, Eq)]
pub struct KeyMaps {
    pub lhs: Key,
    pub rhs: ControlCode,
}

/// The mathematical shape of one map.
pub struct KeyMapsModel {
    pub lhs: IdentModel,
    pub rhs: CcModel,
}

impl View for KeyMaps {
    type V = KeyMapsModel;

    open spec fn view(&self) -> KeyMapsModel {
        KeyMapsModel { lhs: self.lhs.0@, rhs: self.rhs@ }
    }
}

/// The braced body of a layer: its maps in order.
#[derive(Debug, PartialEq, Eq)]
pub struct LayerBody {
    pub maps: Vec<KeyMaps>,
}

impl View for LayerBody {
    type V = Seq<KeyMapsModel>;

    open spec fn view(&self) -> Seq<KeyMapsModel> {
        self.maps@.map_values(|m: KeyMaps| m@)
    }
}

/// The bracketed options of a layer.
#[derive(Debug, PartialEq, Eq)]
pub struct LayerOpts {
    pub opts: Vec<Ident>,
}

impl View for LayerOpts {
    type V = Seq<IdentModel>;

    open spec fn view(&self) -> Seq<IdentModel> {
        self.opts@.map_values(|o: Ident| o@)
    }
}

/// One declared layer: name, options, body.
#[derive(Debug, PartialEq, Eq)]
pub struct Layer {
    pub name: Ident,
    pub opts: Option<LayerOpts>,
    pub body: LayerBody,
}

/// The mathematical shape of a declared layer.
pub struct LayerAstModel {
    pub name: IdentModel,
    pub opts: Option<Seq<IdentModel>>,
    pub maps: Seq<KeyMapsModel>,
}

impl View for Layer {
    type V = LayerAstModel;

    open spec fn view(&self) -> LayerAstModel {
        LayerAstModel {
            name: self.name@,
            opts: match self.opts {
                Some(o) => Some(o@),
                None => None,
            },
            maps: self.body@,
        }
    }
}

/// A whole parsed description.
#[derive(Debug, PartialEq, Eq)]
pub struct Ast {
    pub layers: Vec<Layer>,
}

/// The mathematical shape of a description.
pub struct AstModel {
    pub layers: Seq<LayerAstModel>,
}

impl View for Ast {
    type V = AstModel;

    open spec fn view(&self) -> AstModel {
        AstModel { layers: self.layers@.map_values(|l: Layer| l@) }
    }
}

/// The right-hand side of a map: an identifier, optionally applied to
/// parenthesized arguments.
pub open spec fn spec_parse_cc(ts: Seq<TokenModel>, p: int, end: int) -> Result<
    (CcModel, int),
    (int, CompileErrorKind),
> {
    if p >= ts.len() {
        Err((end, CompileErrorKind::UnexpectedEnd))
    } else if !(ts[p].kind is Ident) {
        Err((ts[p].pos, CompileErrorKind::ExpectedIdent))
    } else {
        let name = IdentModel { text: ts[p].kind->Ident_0, pos: ts[p].pos };
        if p + 1 < ts.len() && ts[p + 1].kind is LParen {
            match spec_parse_params(ts, p + 2, end) {
                Ok(pr) => Ok((CcModel::Function(FnModel { name, params: pr.0 }), pr.1)),
                Err(e) => Err(e),
            }
        } else {
            Ok((CcModel::Key(name), p + 1))
        }
    }
}

/// Arguments up to and through the closing parenthesis: identifiers
/// separated by commas, a trailing comma allowed.
pub open spec fn spec_parse_params(ts: Seq<TokenModel>, p: int, end: int) -> Result<
    (Seq<IdentModel>, int),
    (int, CompileErrorKind),
>
    decreases ts.len() - p when 0 <= p
{
    if p >= ts.len() {
        Err((end, CompileErrorKind::UnexpectedEnd))
    } else if ts[p].kind is RParen {
        Ok((Seq::empty(), p + 1))
    } else if !(ts[p].kind is Ident) {
        Err((ts[p].pos, CompileErrorKind::ExpectedIdent))
    } else {
        let id = IdentModel { text: ts[p].kind->Ident_0, pos: ts[p].pos };
        if p + 1 >= ts.len() {
            Err((end, CompileErrorKind::UnexpectedEnd))
        } else if ts[p + 1].kind is Comma {
            match spec_parse_params(ts, p + 2, end) {
                Ok(pr) => Ok((seq![id] + pr.0, pr.1)),
                Err(e) => Err(e),
            }
        } else if ts[p + 1].kind is RParen {
            Ok((seq![id], p + 2))
        } else {
            Err((ts[p + 1].pos, CompileErrorKind::UnexpectedToken))
        }
    }
}

/// One `key -> target` map.
pub open spec fn spec_parse_keymap(ts: Seq<TokenModel>, p: int, end: int) -> Result<
    (KeyMapsModel, int),
    (int, CompileErrorKind),
> {
    if p >= ts.len() {
        Err((end, CompileErrorKind::UnexpectedEnd))
    } else if !(ts[p].kind is Ident) {
        Err((ts[p].pos, CompileErrorKind::ExpectedIdent))
    } else {
        let lhs = IdentModel { text: ts[p].kind->Ident_0, pos: ts[p].pos };
        if p + 1 >= ts.len() {
            Err((end, CompileErrorKind::UnexpectedEnd))
        } else if !(ts[p + 1].kind is Arrow) {
            Err((ts[p + 1].pos, CompileErrorKind::ExpectedArrow))
        } else {
            match spec_parse_cc(ts, p + 2, end) {
                Ok(pr) => Ok((KeyMapsModel { lhs, rhs: pr.0 }, pr.1)),
                Err(e) => Err(e),
            }
        }
    }
}

/// Maps up to the closing brace, separated by commas, a trailing comma
/// allowed; the closing brace is left for the caller.
pub open spec fn spec_parse_keymaps(ts: Seq<TokenModel>, p: int, end: int) -> Result<
    (Seq<KeyMapsModel>, int),
    (int, CompileErrorKind),
>
    decreases ts.len() - p when 0 <= p
{
    if p >= ts.len() {
        Err((end, CompileErrorKind::UnexpectedEnd))
    } else if ts[p].kind is RBrace {
        Ok((Seq::empty(), p))
    } else {
        match spec_parse_keymap(ts, p, end) {
            Err(e) => Err(e),
            Ok(pr) => {
                let p2 = pr.1;
                if p2 <= p {
                    Err((end, CompileErrorKind::UnexpectedEnd))
                } else if p2 >= ts.len() {
                    Err((end, CompileErrorKind::UnexpectedEnd))
                } else if ts[p2].kind is Comma {
                    match spec_parse_keymaps(ts, p2 + 1, end) {
                        Ok(rr) => Ok((seq![pr.0] + rr.0, rr.1)),
                        Err(e) => Err(e),
                    }
                } else if ts[p2].kind is RBrace {
                    Ok((seq![pr.0], p2))
                } else {
                    Err((ts[p2].pos, CompileErrorKind::UnexpectedToken))
                }
            },
        }
    }
}

/// A braced layer body.
pub open spec fn spec_parse_layer_body(ts: Seq<TokenModel>, p: int, end: int) -> Result<
    (Seq<KeyMapsModel>, int),
    (int, CompileErrorKind),
> {
    if p >= ts.len() {
        Err((end, CompileErrorKind::UnexpectedEnd))
    } else if !(ts[p].kind is LBrace) {
        Err((ts[p].pos, CompileErrorKind::ExpectedLayerBody))
    } else {
        match spec_parse_keymaps(ts, p + 1, end) {
            Err(e) => Err(e),
            Ok(pr) => {
                if pr.1 < ts.len() && ts[pr.1].kind is RBrace {
                    Ok((pr.0, pr.1 + 1))
                } else {
                    Err((end, CompileErrorKind::UnexpectedEnd))
                }
            },
        }
    }
}

/// Options up to and through the closing bracket: identifiers separated by
/// commas, a trailing comma allowed.
pub open spec fn spec_parse_opts(ts: Seq<TokenModel>, p: int, end: int) -> Result<
    (Seq<IdentModel>, int),
    (int, CompileErrorKind),
>
    decreases ts.len() - p when 0 <= p
{
    if p >= ts.len() {
        Err((end, CompileErrorKind::UnexpectedEnd))
    } else if ts[p].kind is RBracket {
        Ok((Seq::empty(), p + 1))
    } else if !(ts[p].kind is Ident) {
        Err((ts[p].pos, CompileErrorKind::ExpectedIdent))
    } else {
        let id = IdentModel { text: ts[p].kind->Ident_0, pos: ts[p].pos };
        if p + 1 >= ts.len() {
            Err((end, CompileErrorKind::UnexpectedEnd))
        } else if ts[p + 1].kind is Comma {
            match spec_parse_opts(ts, p + 2, end) {
                Ok(pr) => Ok((seq![id] + pr.0, pr.1)),
                Err(e) => Err(e),
            }
        } else if ts[p + 1].kind is RBracket {
            Ok((seq![id], p + 2))
        } else {
            Err((ts[p + 1].pos, CompileErrorKind::UnexpectedToken))
        }
    }
}

/// One layer: a name, optional bracketed options, a colon, a braced body.
pub open spec fn spec_parse_layer(ts: Seq<TokenModel>, p: int, end: int) -> Result<
    (LayerAstModel, int),
    (int, CompileErrorKind),
> {
    if p >= ts.len() {
        Err((end, CompileErrorKind::UnexpectedEnd))
    } else if !(ts[p].kind is Ident) {
        Err((ts[p].pos, CompileErrorKind::ExpectedIdent))
    } else {
        let name = IdentModel { text: ts[p].kind->Ident_0, pos: ts[p].pos };
        let after_opts: Result<(Option<Seq<IdentModel>>, int), (int, CompileErrorKind)> = if p + 1
            < ts.len() && ts[p + 1].kind is LBracket {
            match spec_parse_opts(ts, p + 2, end) {
                Ok(pr) => Ok((Some(pr.0), pr.1)),
                Err(e) => Err(e),
            }
        } else {
            Ok((None, p + 1))
        };
        match after_opts {
            Err(e) => Err(e),
            Ok(op) => {
                let p1 = op.1;
                if p1 >= ts.len() {
                    Err((end, CompileErrorKind::UnexpectedEnd))
                } else if !(ts[p1].kind is Colon) {
                    Err((ts[p1].pos, CompileErrorKind::ExpectedColon))
                } else {
                    match spec_parse_layer_body(ts, p1 + 1, end) {
                        Err(e) => Err(e),
                        Ok(pr) => Ok(
                            (LayerAstModel { name, opts: op.0, maps: pr.0 }, pr.1),
                        ),
                    }
                }
            },
        }
    }
}

/// Layers up to the end of the description, separated by commas, a trailing
/// comma allowed.
pub open spec fn spec_parse_layers(ts: Seq<TokenModel>, p: int, end: int) -> Result<
    (Seq<LayerAstModel>, int),
    (int, CompileErrorKind),
>
    decreases ts.len() - p when 0 <= p
{
    if p >= ts.len() {
        Ok((Seq::empty(), p))
    } else {
        match spec_parse_layer(ts, p, end) {
            Err(e) => Err(e),
            Ok(pr) => {
                let p2 = pr.1;
                if p2 <= p {
                    Err((end, CompileErrorKind::UnexpectedEnd))
                } else if p2 >= ts.len() {
                    Ok((seq![pr.0], p2))
                } else if ts[p2].kind is Comma {
                    match spec_parse_layers(ts, p2 + 1, end) {
                        Ok(rr) => Ok((seq![pr.0] + rr.0, rr.1)),
                        Err(e) => Err(e),
                    }
                } else {
                    Err((ts[p2].pos, CompileErrorKind::UnexpectedToken))
                }
            },
        }
    }
}

/// A whole description as tokens.
pub open spec fn spec_parse_ast(ts: Seq<TokenModel>, end: int) -> Result<
    AstModel,
    (int, CompileErrorKind),
> {
    match spec_parse_layers(ts, 0, end) {
        Ok(pr) => Ok(AstModel { layers: pr.0 }),
        Err(e) => Err(e),
    }
}

/// A whole description as text.
pub open spec fn spec_parse(s: Seq<char>) -> Result<AstModel, (int, CompileErrorKind)> {
    match spec_tokenize(s) {
        Err(p) => Err((p, CompileErrorKind::UnexpectedToken)),
        Ok(ts) => spec_parse_ast(ts, s.len() as int),
    }
}


/// Reads the identifier token at `p`, with its position.
fn take_ident(ts: &Vec<Token>, p: usize) -> (r: Option<Ident>)
    requires
        p < ts@.len(),
    ensures
        match r {
            Some(id) => spec_token_models(ts@)[p as int].kind is Ident && id@ == (IdentModel {
                text: spec_token_models(ts@)[p as int].kind->Ident_0,
                pos: spec_token_models(ts@)[p as int].pos,
            }),
            None => !(spec_token_models(ts@)[p as int].kind is Ident),
        },
{
    match &ts[p].kind {
        TokenKind::Ident(text) => Some(Ident { text: text.clone(), pos: ts[p].pos }),
        _ => None,
    }
}

/// Parses a right-hand side at `p`.
pub fn parse_cc(ts: &Vec<Token>, p: usize, end: usize) -> (r: Result<
    (ControlCode, usize),
    CompileError,
>)
    ensures
        match r {
            Ok(pr) => spec_parse_cc(spec_token_models(ts@), p as int, end as int) == Ok::<
                _,
                (int, CompileErrorKind),
            >((pr.0@, pr.1 as int)),
            Err(e) => spec_parse_cc(spec_token_models(ts@), p as int, end as int) == Err::<
                (CcModel, int),
                _,
            >((e.pos as int, e.kind)),
        },
{
    if p >= ts.len() {
        return Err(CompileError { pos: end, kind: CompileErrorKind::UnexpectedEnd });
    }
    let name = match take_ident(ts, p) {
        Some(id) => id,
        None => {
            return Err(CompileError { pos: ts[p].pos, kind: CompileErrorKind::ExpectedIdent });
        },
    };
    let has_parens = p + 1 < ts.len() && matches!(ts[p + 1].kind, TokenKind::LParen);
    if has_parens {
        match parse_params(ts, p + 2, end) {
            Ok((params, p2)) => Ok(
                (
                    ControlCode::Function(
                        KeyFunction { name: KeyFunctionName(name), params: KeyFunctionParameters(params) },
                    ),
                    p2,
                ),
            ),
            Err(e) => Err(e),
        }
    } else {
        Ok((ControlCode::Key(Key(name)), p + 1))
    }
}

/// Parses arguments at `p`, up to and through the closing parenthesis.
pub fn parse_params(ts: &Vec<Token>, p: usize, end: usize) -> (r: Result<
    (Vec<KeyFunctionParameter>, usize),
    CompileError,
>)
    ensures
        match r {
            Ok(pr) => spec_parse_params(spec_token_models(ts@), p as int, end as int) == Ok::<
                _,
                (int, CompileErrorKind),
            >((pr.0@.map_values(|q: KeyFunctionParameter| q@), pr.1 as int)),
            Err(e) => spec_parse_params(spec_token_models(ts@), p as int, end as int) == Err::<
                (Seq<IdentModel>, int),
                _,
            >((e.pos as int, e.kind)),
        },
    decreases ts@.len() - p,
{
    if p >= ts.len() {
        return Err(CompileError { pos: end, kind: CompileErrorKind::UnexpectedEnd });
    }
    if matches!(ts[p].kind, TokenKind::RParen) {
        let v: Vec<KeyFunctionParameter> = Vec::new();
        proof {
            assert(v@.map_values(|q: KeyFunctionParameter| q@) =~= Seq::<IdentModel>::empty());
        }
        return Ok((v, p + 1));
    }
    let id = match take_ident(ts, p) {
        Some(id) => id,
        None => {
            return Err(CompileError { pos: ts[p].pos, kind: CompileErrorKind::ExpectedIdent });
        },
    };
    let first = KeyFunctionParameter::StringParameter(StringParameter(id));
    let ghost first_m = first@;
    if p + 1 >= ts.len() {
        return Err(CompileError { pos: end, kind: CompileErrorKind::UnexpectedEnd });
    }
    if matches!(ts[p + 1].kind, TokenKind::Comma) {
        match parse_params(ts, p + 2, end) {
            Ok((rest, p2)) => {
                let mut rest = rest;
                let ghost rest_m = rest@;
                let mut v: Vec<KeyFunctionParameter> = Vec::new();
                v.push(first);
                v.append(&mut rest);
                proof {
                    assert(v@.map_values(|q: KeyFunctionParameter| q@) =~= seq![first_m]
                        + rest_m.map_values(|q: KeyFunctionParameter| q@));
                }
                Ok((v, p2))
            },
            Err(e) => Err(e),
        }
    } else if matches!(ts[p + 1].kind, TokenKind::RParen) {
        let mut v: Vec<KeyFunctionParameter> = Vec::new();
        v.push(first);
        proof {
            assert(v@.map_values(|q: KeyFunctionParameter| q@) =~= seq![first_m]);
        }
        Ok((v, p + 2))
    } else {
        Err(CompileError { pos: ts[p + 1].pos, kind: CompileErrorKind::UnexpectedToken })
    }
}

/// Parses one `key -> target` map at `p`.
pub fn parse_keymap(ts: &Vec<Token>, p: usize, end: usize) -> (r: Result<
    (KeyMaps, usize),
    CompileError,
>)
    ensures
        match r {
            Ok(pr) => spec_parse_keymap(spec_token_models(ts@), p as int, end as int) == Ok::<
                _,
                (int, CompileErrorKind),
            >((pr.0@, pr.1 as int)),
            Err(e) => spec_parse_keymap(spec_token_models(ts@), p as int, end as int) == Err::<
                (KeyMapsModel, int),
                _,
            >((e.pos as int, e.kind)),
        },
{
    if p >= ts.len() {
        return Err(CompileError { pos: end, kind: CompileErrorKind::UnexpectedEnd });
    }
    let lhs = match take_ident(ts, p) {
        Some(id) => id,
        None => {
            return Err(CompileError { pos: ts[p].pos, kind: CompileErrorKind::ExpectedIdent });
        },
    };
    if p + 1 >= ts.len() {
        return Err(CompileError { pos: end, kind: CompileErrorKind::UnexpectedEnd });
    }
    if !matches!(ts[p + 1].kind, TokenKind::Arrow) {
        return Err(CompileError { pos: ts[p + 1].pos, kind: CompileErrorKind::ExpectedArrow });
    }
    match parse_cc(ts, p + 2, end) {
        Ok((rhs, p2)) => Ok((KeyMaps { lhs: Key(lhs), rhs }, p2)),
        Err(e) => Err(e),
    }
}

/// Parses maps at `p` up to the closing brace, which is left unread.
pub fn parse_keymaps(ts: &Vec<Token>, p: usize, end: usize) -> (r: Result<
    (Vec<KeyMaps>, usize),
    CompileError,
>)
    ensures
        match r {
            Ok(pr) => spec_parse_keymaps(spec_token_models(ts@), p as int, end as int) == Ok::<
                _,
                (int, CompileErrorKind),
            >((pr.0@.map_values(|m: KeyMaps| m@), pr.1 as int)),
            Err(e) => spec_parse_keymaps(spec_token_models(ts@), p as int, end as int) == Err::<
                (Seq<KeyMapsModel>, int),
                _,
            >((e.pos as int, e.kind)),
        },
    decreases ts@.len() - p,
{
    if p >= ts.len() {
        return Err(CompileError { pos: end, kind: CompileErrorKind::UnexpectedEnd });
    }
    if matches!(ts[p].kind, TokenKind::RBrace) {
        let v: Vec<KeyMaps> = Vec::new();
        proof {
            assert(v@.map_values(|m: KeyMaps| m@) =~= Seq::<KeyMapsModel>::empty());
        }
        return Ok((v, p));
    }
    match parse_keymap(ts, p, end) {
        Err(e) => Err(e),
        Ok((km, p2)) => {
            let ghost km_m = km@;
            if p2 <= p {
                return Err(CompileError { pos: end, kind: CompileErrorKind::UnexpectedEnd });
            }
            if p2 >= ts.len() {
                return Err(CompileError { pos: end, kind: CompileErrorKind::UnexpectedEnd });
            }
            if matches!(ts[p2].kind, TokenKind::Comma) {
                match parse_keymaps(ts, p2 + 1, end) {
                    Ok((rest, p3)) => {
                        let mut rest = rest;
                        let ghost rest_m = rest@;
                        let mut v: Vec<KeyMaps> = Vec::new();
                        v.push(km);
                        v.append(&mut rest);
                        proof {
                            assert(v@.map_values(|m: KeyMaps| m@) =~= seq![km_m]
                                + rest_m.map_values(|m: KeyMaps| m@));
                        }
                        Ok((v, p3))
                    },
                    Err(e) => Err(e),
                }
            } else if matches!(ts[p2].kind, TokenKind::RBrace) {
                let mut v: Vec<KeyMaps> = Vec::new();
                v.push(km);
                proof {
                    assert(v@.map_values(|m: KeyMaps| m@) =~= seq![km_m]);
                }
                Ok((v, p2))
            } else {
                Err(CompileError { pos: ts[p2].pos, kind: CompileErrorKind::UnexpectedToken })
            }
        },
    }
}

/// Parses a braced layer body at `p`.
pub fn parse_layer_body(ts: &Vec<Token>, p: usize, end: usize) -> (r: Result<
    (LayerBody, usize),
    CompileError,
>)
    ensures
        match r {
            Ok(pr) => spec_parse_layer_body(spec_token_models(ts@), p as int, end as int) == Ok::<
                _,
                (int, CompileErrorKind),
            >((pr.0@, pr.1 as int)),
            Err(e) => spec_parse_layer_body(spec_token_models(ts@), p as int, end as int) == Err::<
                (Seq<KeyMapsModel>, int),
                _,
            >((e.pos as int, e.kind)),
        },
{
    if p >= ts.len() {
        return Err(CompileError { pos: end, kind: CompileErrorKind::UnexpectedEnd });
    }
    if !matches!(ts[p].kind, TokenKind::LBrace) {
        return Err(CompileError { pos: ts[p].pos, kind: CompileErrorKind::ExpectedLayerBody });
    }
    match parse_keymaps(ts, p + 1, end) {
        Err(e) => Err(e),
        Ok((maps, p2)) => {
            if p2 < ts.len() && matches!(ts[p2].kind, TokenKind::RBrace) {
                Ok((LayerBody { maps }, p2 + 1))
            } else {
                Err(CompileError { pos: end, kind: CompileErrorKind::UnexpectedEnd })
            }
        },
    }
}

/// Parses options at `p`, up to and through the closing bracket.
pub fn parse_opts(ts: &Vec<Token>, p: usize, end: usize) -> (r: Result<
    (Vec<Ident>, usize),
    CompileError,
>)
    ensures
        match r {
            Ok(pr) => spec_parse_opts(spec_token_models(ts@), p as int, end as int) == Ok::<
                _,
                (int, CompileErrorKind),
            >((pr.0@.map_values(|o: Ident| o@), pr.1 as int)),
            Err(e) => spec_parse_opts(spec_token_models(ts@), p as int, end as int) == Err::<
                (Seq<IdentModel>, int),
                _,
            >((e.pos as int, e.kind)),
        },
    decreases ts@.len() - p,
{
    if p >= ts.len() {
        return Err(CompileError { pos: end, kind: CompileErrorKind::UnexpectedEnd });
    }
    if matches!(ts[p].kind, TokenKind::RBracket) {
        let v: Vec<Ident> = Vec::new();
        proof {
            assert(v@.map_values(|o: Ident| o@) =~= Seq::<IdentModel>::empty());
        }
        return Ok((v, p + 1));
    }
    let id = match take_ident(ts, p) {
        Some(id) => id,
        None => {
            return Err(CompileError { pos: ts[p].pos, kind: CompileErrorKind::ExpectedIdent });
        },
    };
    let ghost id_m = id@;
    if p + 1 >= ts.len() {
        return Err(CompileError { pos: end, kind: CompileErrorKind::UnexpectedEnd });
    }
    if matches!(ts[p + 1].kind, TokenKind::Comma) {
        match parse_opts(ts, p + 2, end) {
            Ok((rest, p2)) => {
                let mut rest = rest;
                let ghost rest_m = rest@;
                let mut v: Vec<Ident> = Vec::new();
                v.push(id);
                v.append(&mut rest);
                proof {
                    assert(v@.map_values(|o: Ident| o@) =~= seq![id_m] + rest_m.map_values(
                        |o: Ident| o@,
                    ));
                }
                Ok((v, p2))
            },
            Err(e) => Err(e),
        }
    } else if matches!(ts[p + 1].kind, TokenKind::RBracket) {
        let mut v: Vec<Ident> = Vec::new();
        v.push(id);
        proof {
            assert(v@.map_values(|o: Ident| o@) =~= seq![id_m]);
        }
        Ok((v, p + 2))
    } else {
        Err(CompileError { pos: ts[p + 1].pos, kind: CompileErrorKind::UnexpectedToken })
    }
}

/// Parses one layer at `p`.
pub fn parse_layer(ts: &Vec<Token>, p: usize, end: usize) -> (r: Result<
    (Layer, usize),
    CompileError,
>)
    ensures
        match r {
            Ok(pr) => spec_parse_layer(spec_token_models(ts@), p as int, end as int) == Ok::<
                _,
                (int, CompileErrorKind),
            >((pr.0@, pr.1 as int)),
            Err(e) => spec_parse_layer(spec_token_models(ts@), p as int, end as int) == Err::<
                (LayerAstModel, int),
                _,
            >((e.pos as int, e.kind)),
        },
{
    if p >= ts.len() {
        return Err(CompileError { pos: end, kind: CompileErrorKind::UnexpectedEnd });
    }
    let name = match take_ident(ts, p) {
        Some(id) => id,
        None => {
            return Err(CompileError { pos: ts[p].pos, kind: CompileErrorKind::ExpectedIdent });
        },
    };
    let has_opts = p + 1 < ts.len() && matches!(ts[p + 1].kind, TokenKind::LBracket);
    let (opts, p1): (Option<LayerOpts>, usize) = if has_opts {
        match parse_opts(ts, p + 2, end) {
            Ok((o, p2)) => (Some(LayerOpts { opts: o }), p2),
            Err(e) => {
                return Err(e);
            },
        }
    } else {
        (None, p + 1)
    };
    if p1 >= ts.len() {
        return Err(CompileError { pos: end, kind: CompileErrorKind::UnexpectedEnd });
    }
    if !matches!(ts[p1].kind, TokenKind::Colon) {
        return Err(CompileError { pos: ts[p1].pos, kind: CompileErrorKind::ExpectedColon });
    }
    match parse_layer_body(ts, p1 + 1, end) {
        Err(e) => Err(e),
        Ok((body, p2)) => Ok((Layer { name, opts, body }, p2)),
    }
}

/// Parses layers at `p` up to the end of the description.
pub fn parse_layers(ts: &Vec<Token>, p: usize, end: usize) -> (r: Result<
    (Vec<Layer>, usize),
    CompileError,
>)
    ensures
        match r {
            Ok(pr) => spec_parse_layers(spec_token_models(ts@), p as int, end as int) == Ok::<
                _,
                (int, CompileErrorKind),
            >((pr.0@.map_values(|l: Layer| l@), pr.1 as int)),
            Err(e) => spec_parse_layers(spec_token_models(ts@), p as int, end as int) == Err::<
                (Seq<LayerAstModel>, int),
                _,
            >((e.pos as int, e.kind)),
        },
    decreases ts@.len() - p,
{
    if p >= ts.len() {
        let v: Vec<Layer> = Vec::new();
        proof {
            assert(v@.map_values(|l: Layer| l@) =~= Seq::<LayerAstModel>::empty());
        }
        return Ok((v, p));
    }
    match parse_layer(ts, p, end) {
        Err(e) => Err(e),
        Ok((layer, p2)) => {
            let ghost layer_m = layer@;
            if p2 <= p {
                return Err(CompileError { pos: end, kind: CompileErrorKind::UnexpectedEnd });
            }
            if p2 >= ts.len() {
                let mut v: Vec<Layer> = Vec::new();
                v.push(layer);
                proof {
                    assert(v@.map_values(|l: Layer| l@) =~= seq![layer_m]);
                }
                return Ok((v, p2));
            }
            if matches!(ts[p2].kind, TokenKind::Comma) {
                match parse_layers(ts, p2 + 1, end) {
                    Ok((rest, p3)) => {
                        let mut rest = rest;
                        let ghost rest_m = rest@;
                        let mut v: Vec<Layer> = Vec::new();
                        v.push(layer);
                        v.append(&mut rest);
                        proof {
                            assert(v@.map_values(|l: Layer| l@) =~= seq![layer_m]
                                + rest_m.map_values(|l: Layer| l@));
                        }
                        Ok((v, p3))
                    },
                    Err(e) => Err(e),
                }
            } else {
                Err(CompileError { pos: ts[p2].pos, kind: CompileErrorKind::UnexpectedToken })
            }
        },
    }
}

/// Parses a whole description.
pub fn parse(src: &str) -> (r: Result<Ast, CompileError>)
    ensures
        match r {
            Ok(ast) => spec_parse(src@) == Ok::<_, (int, CompileErrorKind)>(ast@),
            Err(e) => spec_parse(src@) == Err::<AstModel, _>((e.pos as int, e.kind)),
        },
{
    let n = vstd::string::StrSliceExecFns::unicode_len(src);
    let ts = match tokenize(src) {
        Ok(ts) => ts,
        Err(e) => {
            return Err(e);
        },
    };
    match parse_layers(&ts, 0, n) {
        Err(e) => Err(e),
        Ok((layers, _)) => Ok(Ast { layers }),
    }
}


/// The position after an optional trailing comma.
pub open spec fn spec_skip_comma(ts: Seq<TokenModel>, p: int) -> int {
    if 0 <= p < ts.len() && ts[p].kind is Comma {
        p + 1
    } else {
        p
    }
}

/// A right-hand side standing alone: the whole text, a trailing comma
/// allowed.
pub open spec fn spec_parse_cc_str(s: Seq<char>) -> Result<CcModel, (int, CompileErrorKind)> {
    match spec_tokenize(s) {
        Err(p) => Err((p, CompileErrorKind::UnexpectedToken)),
        Ok(ts) => match spec_parse_cc(ts, 0, s.len() as int) {
            Err(e) => Err(e),
            Ok(pr) => {
                let p2 = spec_skip_comma(ts, pr.1);
                if p2 >= ts.len() {
                    Ok(pr.0)
                } else {
                    Err((ts[p2].pos, CompileErrorKind::UnexpectedToken))
                }
            },
        },
    }
}

/// One map standing alone: the whole text, a trailing comma allowed.
pub open spec fn spec_parse_keymap_str(s: Seq<char>) -> Result<
    KeyMapsModel,
    (int, CompileErrorKind),
> {
    match spec_tokenize(s) {
        Err(p) => Err((p, CompileErrorKind::UnexpectedToken)),
        Ok(ts) => match spec_parse_keymap(ts, 0, s.len() as int) {
            Err(e) => Err(e),
            Ok(pr) => {
                let p2 = spec_skip_comma(ts, pr.1);
                if p2 >= ts.len() {
                    Ok(pr.0)
                } else {
                    Err((ts[p2].pos, CompileErrorKind::UnexpectedToken))
                }
            },
        },
    }
}

/// A braced body standing alone: the whole text, a trailing comma allowed.
pub open spec fn spec_parse_layer_body_str(s: Seq<char>) -> Result<
    Seq<KeyMapsModel>,
    (int, CompileErrorKind),
> {
    match spec_tokenize(s) {
        Err(p) => Err((p, CompileErrorKind::UnexpectedToken)),
        Ok(ts) => match spec_parse_layer_body(ts, 0, s.len() as int) {
            Err(e) => Err(e),
            Ok(pr) => {
                let p2 = spec_skip_comma(ts, pr.1);
                if p2 >= ts.len() {
                    Ok(pr.0)
                } else {
                    Err((ts[p2].pos, CompileErrorKind::UnexpectedToken))
                }
            },
        },
    }
}

/// Consumes an optional trailing comma and demands the end of the input.
fn finish_at(ts: &Vec<Token>, p: usize) -> (r: Result<(), CompileError>)
    ensures
        match r {
            Ok(_) => spec_skip_comma(spec_token_models(ts@), p as int) >= ts@.len(),
            Err(e) => {
                let p2 = spec_skip_comma(spec_token_models(ts@), p as int);
                &&& p2 < ts@.len()
                &&& e.pos as int == spec_token_models(ts@)[p2].pos
                &&& e.kind == CompileErrorKind::UnexpectedToken
            },
        },
{
    let mut p2 = p;
    if p < ts.len() && matches!(ts[p].kind, TokenKind::Comma) {
        p2 = p + 1;
    }
    if p2 >= ts.len() {
        Ok(())
    } else {
        Err(CompileError { pos: ts[p2].pos, kind: CompileErrorKind::UnexpectedToken })
    }
}

impl ControlCode {
    /// Parses a right-hand side standing alone.
    pub fn parse_str(src: &str) -> (r: Result<ControlCode, CompileError>)
        ensures
            match r {
                Ok(cc) => spec_parse_cc_str(src@) == Ok::<_, (int, CompileErrorKind)>(cc@),
                Err(e) => spec_parse_cc_str(src@) == Err::<CcModel, _>((e.pos as int, e.kind)),
            },
    {
        let n = vstd::string::StrSliceExecFns::unicode_len(src);
        let ts = match tokenize(src) {
            Ok(ts) => ts,
            Err(e) => {
                return Err(e);
            },
        };
        match parse_cc(&ts, 0, n) {
            Err(e) => Err(e),
            Ok((cc, p)) => match finish_at(&ts, p) {
                Ok(_) => Ok(cc),
                Err(e) => Err(e),
            },
        }
    }
}

impl KeyMaps {
    /// Parses one map standing alone.
    pub fn parse_str(src: &str) -> (r: Result<KeyMaps, CompileError>)
        ensures
            match r {
                Ok(km) => spec_parse_keymap_str(src@) == Ok::<_, (int, CompileErrorKind)>(km@),
                Err(e) => spec_parse_keymap_str(src@) == Err::<KeyMapsModel, _>(
                    (e.pos as int, e.kind),
                ),
            },
    {
        let n = vstd::string::StrSliceExecFns::unicode_len(src);
        let ts = match tokenize(src) {
            Ok(ts) => ts,
            Err(e) => {
                return Err(e);
            },
        };
        match parse_keymap(&ts, 0, n) {
            Err(e) => Err(e),
            Ok((km, p)) => match finish_at(&ts, p) {
                Ok(_) => Ok(km),
                Err(e) => Err(e),
            },
        }
    }
}

impl LayerBody {
    /// Parses a braced body standing alone.
    pub fn parse_str(src: &str) -> (r: Result<LayerBody, CompileError>)
        ensures
            match r {
                Ok(b) => spec_parse_layer_body_str(src@) == Ok::<_, (int, CompileErrorKind)>(b@),
                Err(e) => spec_parse_layer_body_str(src@) == Err::<Seq<KeyMapsModel>, _>(
                    (e.pos as int, e.kind),
                ),
            },
    {
        let n = vstd::string::StrSliceExecFns::unicode_len(src);
        let ts = match tokenize(src) {
            Ok(ts) => ts,
            Err(e) => {
                return Err(e);
            },
        };
        match parse_layer_body(&ts, 0, n) {
            Err(e) => Err(e),
            Ok((b, p)) => match finish_at(&ts, p) {
                Ok(_) => Ok(LayerBody { maps: b.maps }, ),
                Err(e) => Err(e),
            },
        }
    }
}

} // verus!


