//! Error types of the library.
//!
//! Runtime errors cross the Source/Sink boundary; compile errors come out of
//! the remap-language compiler and carry the character position of the token
//! they are about.

use vstd::prelude::*;
use vstd::string::StringExecFns;
use vstd::string::StrSliceExecFns;

verus! {

/// A runtime failure at the device boundary.
#[derive(Clone, Copy, Debug, PartialEq, Eq)]
pub enum Error {
    /// A device read or write failed.
    IO,
    /// The device reports no supported keys.
    NoSupportedKeys,
    /// The device delivered nothing.
    NoEvents,
    /// A clock conversion failed.
    Time,
    /// The source delivered a code outside the known enumeration.
    UnrecognizedEvent,
    /// A layer table failed validation while a composer was being built.
    LayerValidation,
}

/// What went wrong while compiling a remap description.
#[derive(Clone, Debug, PartialEq, Eq)]
pub enum CompileErrorKind {
    /// An identifier was expected and something else stood there.
    ExpectedIdent,
    /// `->` was expected between a key and its target.
    ExpectedArrow,
    /// `:` was expected after a layer's name and options.
    ExpectedColon,
    /// `{` was expected to open a layer's body.
    ExpectedLayerBody,
    /// A token no rule accepts.
    UnexpectedToken,
    /// The description ended in the middle of a form.
    UnexpectedEnd,
    /// A name that is not a key function; the valid ones are `TT`,
    /// `TapToggle` and `Exit`.
    InvalidKeyFunction,
    /// A name that is not a key code.
    InvalidKeyCode,
    /// A layer option other than `Active`.
    InvalidLayerOption,
    /// `Exit` or a fully applied `TT` was given one argument too many.
    UnexpectedArgument,
    /// `TT` was written without its layer argument.
    MissingLayerRefArgument,
    /// `TT` was written without its tap-key argument.
    MissingKeyCodeArgument,
    /// A `TT` names a layer the description never declares; the declared
    /// names are carried along.
    DanglingLayerRef { known_layers: Vec<String> },
    /// The finished layer table failed validation.
    LayerValidation,
}

/// A compile error, anchored at the character position of the offending
/// token.
#[derive(Clone, Debug, PartialEq, Eq)]
pub struct CompileError {
    pub pos: usize,
    pub kind: CompileErrorKind,
}

/// Comma-joins a list of names.
pub open spec fn spec_joined_names(names: Seq<Seq<char>>) -> Seq<char>
    decreases names.len(),
{
    if names.len() == 0 {
        Seq::empty()
    } else if names.len() == 1 {
        names[0]
    } else {
        spec_joined_names(names.drop_last()) + ", "@ + names.last()
    }
}

/// The wording of each compile error.
pub open spec fn spec_kind_message(k: CompileErrorKind) -> Seq<char> {
    match k {
        CompileErrorKind::ExpectedIdent => "expected identifier"@,
        CompileErrorKind::ExpectedArrow => "expected arrow"@,
        CompileErrorKind::ExpectedColon => "expected colon after layer name"@,
        CompileErrorKind::ExpectedLayerBody => "expected layer body"@,
        CompileErrorKind::UnexpectedToken => "unexpected token"@,
        CompileErrorKind::UnexpectedEnd => "unexpected end of remap description"@,
        CompileErrorKind::InvalidKeyFunction => "invalid key function; valid key functions include: TT, TapToggle, Exit"@,
        CompileErrorKind::InvalidKeyCode => "invalid key code"@,
        CompileErrorKind::InvalidLayerOption => "invalid layer option; valid layer options include: Active"@,
        CompileErrorKind::UnexpectedArgument => "unexpected argument"@,
        CompileErrorKind::MissingLayerRefArgument => "missing layer ref argument"@,
        CompileErrorKind::MissingKeyCodeArgument => "missing key code argument"@,
        CompileErrorKind::DanglingLayerRef { known_layers } => "layer reference does not exist; existing layers include: "@
            + spec_joined_names(known_layers@.map_values(|s: String| s@)),
        CompileErrorKind::LayerValidation => "layer validation error"@,
    }
}

impl CompileError {
    /// What went wrong, in words; a dangling layer reference lists the
    /// declared layer names.
    pub fn message(&self) -> (r: String)
        ensures
            r@ == spec_kind_message(self.kind),
    {
        match &self.kind {
            CompileErrorKind::ExpectedIdent => "expected identifier".to_owned(),
            CompileErrorKind::ExpectedArrow => "expected arrow".to_owned(),
            CompileErrorKind::ExpectedColon => "expected colon after layer name".to_owned(),
            CompileErrorKind::ExpectedLayerBody => "expected layer body".to_owned(),
            CompileErrorKind::UnexpectedToken => "unexpected token".to_owned(),
            CompileErrorKind::UnexpectedEnd => "unexpected end of remap description".to_owned(),
            CompileErrorKind::InvalidKeyFunction => "invalid key function; valid key functions include: TT, TapToggle, Exit".to_owned(),
            CompileErrorKind::InvalidKeyCode => "invalid key code".to_owned(),
            CompileErrorKind::InvalidLayerOption => "invalid layer option; valid layer options include: Active".to_owned(),
            CompileErrorKind::UnexpectedArgument => "unexpected argument".to_owned(),
            CompileErrorKind::MissingLayerRefArgument => "missing layer ref argument".to_owned(),
            CompileErrorKind::MissingKeyCodeArgument => "missing key code argument".to_owned(),
            CompileErrorKind::DanglingLayerRef { known_layers } => {
                let mut r = "layer reference does not exist; existing layers include: ".to_owned();
                let ghost prefix = r@;
                let ghost names = known_layers@.map_values(|s: String| s@);
                let n = known_layers.len();
                let mut i: usize = 0;
                while i < n
                    invariant
                        i <= n,
                        n == known_layers@.len(),
                        names == known_layers@.map_values(|s: String| s@),
                        names.len() == n,
                        r@ == prefix + spec_joined_names(names.take(i as int)),
                    decreases n - i,
                {
                    if i > 0 {
                        r.append(", ");
                    }
                    r.append(known_layers[i].as_str());
                    proof {
                        assert(names.take(i as int + 1).drop_last() =~= names.take(i as int));
                        assert(names.take(i as int + 1).last() == names[i as int]);
                        if i == 0 {
                            assert(spec_joined_names(names.take(1)) == names[0]);
                            assert(r@ =~= prefix + spec_joined_names(names.take(1)));
                        } else {
                            assert(r@ =~= prefix + ((spec_joined_names(names.take(i as int)) + ", "@)
                                + names[i as int]));
                            assert(prefix + ((spec_joined_names(names.take(i as int)) + ", "@)
                                + names[i as int]) =~= prefix + spec_joined_names(
                                names.take(i as int + 1),
                            ));
                        }
                    }
                    i = i + 1;
                }
                proof {
                    assert(names.take(n as int) =~= names);
                }
                r
            },
            CompileErrorKind::LayerValidation => "layer validation error".to_owned(),
        }
    }

}

} // verus!
