//! What the `native` attribute is told, and the names that it gives to
//! what it makes.
//!
//! The attribute takes a list of arguments, `name = "..."` and `raw`, each
//! followed by a comma or by nothing. The tokens reach this module as
//! plain values.
use vstd::prelude::*;
use vstd::string::StringExecFns;

verus! {

/// The prefix of the name of the function that the server calls for a
/// native.
pub const NATIVE_PREFIX: &'static str = "__samp_native_";

/// The prefix of the name of the function that registers a native.
pub const REG_PREFIX: &'static str = "__samp_reg_";

/// The name `ident` with `prefix` before it.
pub fn prepend(ident: &str, prefix: &str) -> (name: String)
    ensures
        name@ == prefix@ + ident@,
{
    String::from_str(prefix).concat(ident)
}

/// A token of the argument list of the attribute.
#[derive(Debug, Clone, PartialEq, Eq)]
pub enum ArgToken {
    /// An identifier.
    Ident(String),
    /// The sign `=`.
    Equals,
    /// A string literal, by its value.
    Literal(String),
    /// A comma.
    Comma,
    /// Any other token.
    Other,
}

/// What the attribute was told: the name of the native in scripts, and
/// whether the method reads its arguments itself.
#[derive(Debug, Clone, PartialEq, Eq)]
pub struct NativeName {
    pub name: String,
    pub raw: bool,
}

/// Why an argument list was refused. Each error holds the place of the
/// token that it is about, which is the length of the list where the list
/// ended too early.
#[derive(Debug, Clone, Copy, PartialEq, Eq, Structural)]
pub enum NativeArgError {
    /// An argument has to begin with an identifier.
    ExpectedIdent(usize),
    /// `name` has to be followed by `=`.
    ExpectedEquals(usize),
    /// `name =` has to be followed by a string literal.
    ExpectedLiteral(usize),
    /// The argument is neither `name` nor `raw`.
    UnexpectedArgument(usize),
}

impl NativeArgError {
    /// The text that describes the error to a person.
    pub open spec fn spec_message(self) -> Seq<char> {
        match self {
            NativeArgError::ExpectedIdent(_) => "expected identifier"@,
            NativeArgError::ExpectedEquals(_) => "expected `=`"@,
            NativeArgError::ExpectedLiteral(_) => "expected string literal"@,
            NativeArgError::UnexpectedArgument(_) => "Unexpected argument name. Currently supports only \"name\" and \"raw\"."@,
        }
    }

    /// The description of the error.
    pub fn message(&self) -> (text: String)
        ensures
            text@ == self.spec_message(),
    {
        let text: &str = match self {
            NativeArgError::ExpectedIdent(_) => "expected identifier",
            NativeArgError::ExpectedEquals(_) => "expected `=`",
            NativeArgError::ExpectedLiteral(_) => "expected string literal",
            NativeArgError::UnexpectedArgument(_) => "Unexpected argument name. Currently supports only \"name\" and \"raw\".",
        };
        text.to_owned()
    }

    /// The place of the token that the error is about.
    pub fn position(&self) -> (at: usize)
        ensures
            at == match *self {
                NativeArgError::ExpectedIdent(at) => at,
                NativeArgError::ExpectedEquals(at) => at,
                NativeArgError::ExpectedLiteral(at) => at,
                NativeArgError::UnexpectedArgument(at) => at,
            },
    {
        match self {
            NativeArgError::ExpectedIdent(at) => *at,
            NativeArgError::ExpectedEquals(at) => *at,
            NativeArgError::ExpectedLiteral(at) => *at,
            NativeArgError::UnexpectedArgument(at) => *at,
        }
    }
}

/// The place behind a comma at `pos`, if there is one there, else `pos`.
pub open spec fn skip_comma(tokens: Seq<ArgToken>, pos: int) -> int {
    if pos < tokens.len() && tokens[pos] == ArgToken::Comma {
        pos + 1
    } else {
        pos
    }
}

/// What the arguments from `pos` on come to, where those before `pos`
/// gave `name` and `raw`: the arguments are read one after the other, a
/// later `name` takes the place of an earlier one, and the first argument
/// that is not as it should be ends the reading with its error.
pub open spec fn parse_from(tokens: Seq<ArgToken>, pos: int, name: Seq<char>, raw: bool) -> Result<
    (Seq<char>, bool),
    NativeArgError,
>
    decreases tokens.len() - pos,
{
    if pos < 0 || pos >= tokens.len() {
        Ok((name, raw))
    } else {
        match tokens[pos] {
            ArgToken::Ident(ident) => {
                if ident@ == "name"@ {
                    if pos + 1 >= tokens.len() || tokens[pos + 1] != ArgToken::Equals {
                        Err(NativeArgError::ExpectedEquals((pos + 1) as usize))
                    } else if pos + 2 >= tokens.len() {
                        Err(NativeArgError::ExpectedLiteral((pos + 2) as usize))
                    } else {
                        match tokens[pos + 2] {
                            ArgToken::Literal(value) => parse_from(
                                tokens,
                                skip_comma(tokens, pos + 3),
                                value@,
                                raw,
                            ),
                            _ => Err(NativeArgError::ExpectedLiteral((pos + 2) as usize)),
                        }
                    }
                } else if ident@ == "raw"@ {
                    parse_from(tokens, skip_comma(tokens, pos + 1), name, true)
                } else {
                    Err(NativeArgError::UnexpectedArgument(pos as usize))
                }
            },
            _ => Err(NativeArgError::ExpectedIdent(pos as usize)),
        }
    }
}

/// What the argument list `tokens` tells the attribute. Without a `name`
/// the name is empty, and without `raw` the method is handed its
/// arguments decoded.
pub open spec fn parse_spec(tokens: Seq<ArgToken>) -> Result<(Seq<char>, bool), NativeArgError> {
    parse_from(tokens, 0, Seq::empty(), false)
}

/// Whether `token` is a comma.
fn is_comma(token: &ArgToken) -> (comma: bool)
    ensures
        comma == (*token == ArgToken::Comma),
{
    match token {
        ArgToken::Comma => true,
        _ => false,
    }
}

/// Whether `token` is the sign `=`.
fn is_equals(token: &ArgToken) -> (equals: bool)
    ensures
        equals == (*token == ArgToken::Equals),
{
    match token {
        ArgToken::Equals => true,
        _ => false,
    }
}

impl NativeName {
    /// Reads the argument list of the attribute.
    pub fn parse(tokens: &[ArgToken]) -> (result: Result<NativeName, NativeArgError>)
        ensures
            match parse_spec(tokens@) {
                Ok((name, raw)) => result is Ok && result->Ok_0.name@ == name && result->Ok_0.raw
                    == raw,
                Err(error) => result == Err::<NativeName, NativeArgError>(error),
            },
    {
        let mut name: String = String::new();
        let mut raw: bool = false;
        let mut pos: usize = 0;
        let name_word: String = String::from_str("name");
        let raw_word: String = String::from_str("raw");
        while pos < tokens.len()
            invariant
                pos <= tokens@.len(),
                name_word@ == "name"@,
                raw_word@ == "raw"@,
                parse_spec(tokens@) == parse_from(tokens@, pos as int, name@, raw),
            decreases tokens@.len() - pos,
        {
            match &tokens[pos] {
                ArgToken::Ident(ident) => {
                    if *ident == name_word {
                        if pos + 1 >= tokens.len() || !is_equals(&tokens[pos + 1]) {
                            return Err(NativeArgError::ExpectedEquals(pos + 1));
                        }
                        if pos + 2 >= tokens.len() {
                            return Err(NativeArgError::ExpectedLiteral(pos + 2));
                        }
                        match &tokens[pos + 2] {
                            ArgToken::Literal(value) => {
                                name = value.clone();
                            },
                            _ => {
                                return Err(NativeArgError::ExpectedLiteral(pos + 2));
                            },
                        }
                        pos = pos + 3;
                    } else if *ident == raw_word {
                        raw = true;
                        pos = pos + 1;
                    } else {
                        return Err(NativeArgError::UnexpectedArgument(pos));
                    }
                },
                _ => {
                    return Err(NativeArgError::ExpectedIdent(pos));
                },
            }
            if pos < tokens.len() && is_comma(&tokens[pos]) {
                pos = pos + 1;
            }
        }
        Ok(NativeName { name, raw })
    }
}

} // verus!
