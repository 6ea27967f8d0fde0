//! Reading a dotted version such as `3.11.0`.

use vstd::prelude::*;
use vstd::string::*;
use crate::error::DistributeError;
use crate::text::{
    joined, lemma_join_split, lemma_split_join, lemma_split_pieces_clean, pieces, split,
};

verus! {

/// A version in three tokens. The tokens are kept as they were written:
/// they need not be numbers.
#[derive(Clone, Debug, PartialEq, Eq)]
pub struct SemanticVersioning {
    pub major: String,
    pub minor: String,
    pub patch: String,
}

impl SemanticVersioning {
    /// Each token is non-empty and free of dots.
    pub open spec fn well_formed(&self) -> bool {
        &&& self.major@.len() > 0 && !self.major@.contains('.')
        &&& self.minor@.len() > 0 && !self.minor@.contains('.')
        &&& self.patch@.len() > 0 && !self.patch@.contains('.')
    }

    /// The version written out again: major, minor and patch with dots between.
    pub open spec fn dotted(&self) -> Seq<char> {
        self.major@ + seq!['.'] + self.minor@ + seq!['.'] + self.patch@
    }
}

/// Whether `s` consists of exactly three non-empty tokens separated by dots.
pub open spec fn is_version(s: Seq<char>) -> bool {
    let tokens = pieces(s, '.');
    &&& tokens.len() == 3
    &&& tokens[0].len() > 0
    &&& tokens[1].len() > 0
    &&& tokens[2].len() > 0
}

/// Splits `ver` at its dots into major, minor and patch. Anything but three
/// non-empty tokens is refused; what the tokens hold is not looked at.
pub fn make_semantic_versioning(ver: &String) -> (parsed: Result<
    SemanticVersioning,
    DistributeError,
>)
    ensures
        parsed is Ok <==> is_version(ver@),
        parsed is Err ==> parsed == Err::<SemanticVersioning, DistributeError>(
            DistributeError::InvalidVersionFormat,
        ),
        pieces(ver@, '.').len() != 3 ==> parsed is Err,
        parsed is Ok ==> {
            let v = parsed->Ok_0;
            &&& v.major@ == pieces(ver@, '.')[0]
            &&& v.minor@ == pieces(ver@, '.')[1]
            &&& v.patch@ == pieces(ver@, '.')[2]
            &&& v.well_formed()
            &&& v.dotted() == ver@
        },
{
    let mut tokens = split(ver.as_str(), '.');
    if tokens.len() != 3 {
        return Err(DistributeError::InvalidVersionFormat);
    }
    let patch = tokens.pop().unwrap();
    let minor = tokens.pop().unwrap();
    let major = tokens.pop().unwrap();
    if major.as_str().is_empty() || minor.as_str().is_empty() || patch.as_str().is_empty() {
        return Err(DistributeError::InvalidVersionFormat);
    }
    proof {
        lemma_split_pieces_clean(ver@, '.');
        lemma_join_split(ver@, '.');
        reveal_with_fuel(joined, 3);
    }
    Ok(SemanticVersioning { major, minor, patch })
}

/// Three non-empty tokens without dots, written with dots between them, are a
/// version, and splitting that text gives the three tokens back unchanged.
pub proof fn lemma_version_round_trip(major: Seq<char>, minor: Seq<char>, patch: Seq<char>)
    requires
        major.len() > 0 && !major.contains('.'),
        minor.len() > 0 && !minor.contains('.'),
        patch.len() > 0 && !patch.contains('.'),
    ensures
        pieces(major + seq!['.'] + minor + seq!['.'] + patch, '.') == seq![major, minor, patch],
        is_version(major + seq!['.'] + minor + seq!['.'] + patch),
{
    let tokens = seq![major, minor, patch];
    reveal_with_fuel(joined, 3);
    lemma_split_join(tokens, '.');
}

} // verus!
