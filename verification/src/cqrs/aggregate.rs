//! Aggregates: the state that commands are decided against and that domain
//! events are applied to, and the error a command is refused with.
use vstd::prelude::*;
use vstd::std_specs::cmp::PartialEqSpec;

verus! {

/// A state rebuilt from domain events, starting from its default value.
pub trait Aggregate: Default {}

/// Why a command was refused.
#[derive(Debug)]
pub enum Error {
    /// The command breaks a rule of the domain (such as spending more than
    /// is there).
    UserError(String),
    /// Something outside the domain failed.
    TechnicalError(String),
}

/// The text `format!("{:?}", s)` gives for a string: the string in double
/// quotes, with quotes, backslashes and control characters escaped.
pub uninterp spec fn debug_quoted(s: Seq<char>) -> Seq<char>;

/// Calls `<str as core::fmt::Debug>::fmt` through `format!("{:?}", s)`. The
/// result is named `debug_quoted` of the string's characters; the escaping
/// rules themselves are left unstated.
#[verifier::external_body]
fn quote_debug(s: &str) -> (r: String)
    ensures
        r@ == debug_quoted(s@),
{
    format!("{:?}", s)
}

/// The name of a variant as its `Debug` form writes it.
pub open spec fn variant_name(e: Error) -> Seq<char> {
    match e {
        Error::UserError(_) => "UserError"@,
        Error::TechnicalError(_) => "TechnicalError"@,
    }
}

/// The message that an error carries.
pub open spec fn message_of(e: Error) -> Seq<char> {
    match e {
        Error::UserError(m) => m@,
        Error::TechnicalError(m) => m@,
    }
}

impl Error {
    /// The error as text, in its `Debug` form: the variant's name, then the
    /// quoted message in parentheses, such as `UserError("insufficient funds")`.
    pub fn to_string(&self) -> (s: String)
        ensures
            s@ == variant_name(*self) + "("@ + debug_quoted(message_of(*self)) + ")"@,
    {
        let (name, message) = match self {
            Error::UserError(m) => ("UserError", m),
            Error::TechnicalError(m) => ("TechnicalError", m),
        };
        let mut s = String::from_str(name);
        s.append("(");
        let quoted = quote_debug(message.as_str());
        s.append(quoted.as_str());
        s.append(")");
        proof {
            reveal_strlit("UserError");
            reveal_strlit("TechnicalError");
            reveal_strlit("(");
            reveal_strlit(")");
        }
        s
    }
}

impl PartialEq for Error {
    fn eq(&self, other: &Error) -> (r: bool) {
        match (self, other) {
            (Error::UserError(a), Error::UserError(b)) => *a == *b,
            (Error::TechnicalError(a), Error::TechnicalError(b)) => *a == *b,
            _ => false,
        }
    }
}

impl vstd::std_specs::cmp::PartialEqSpecImpl for Error {
    open spec fn obeys_eq_spec() -> bool {
        true
    }

    open spec fn eq_spec(&self, other: &Error) -> bool {
        match (*self, *other) {
            (Error::UserError(a), Error::UserError(b)) => a@ == b@,
            (Error::TechnicalError(a), Error::TechnicalError(b)) => a@ == b@,
            _ => false,
        }
    }
}

/// Two errors are equal by `==` exactly when they are the same variant and
/// carry the same message; so `==` is reflexive, symmetric and transitive.
pub proof fn law_error_equality(a: Error, b: Error, c: Error)
    ensures
        a.eq_spec(&b) <==> (variant_name(a) == variant_name(b) && message_of(a) == message_of(b)),
        a.eq_spec(&a),
        a.eq_spec(&b) ==> b.eq_spec(&a),
        a.eq_spec(&b) && b.eq_spec(&c) ==> a.eq_spec(&c),
{
    reveal_strlit("UserError");
    reveal_strlit("TechnicalError");
    assert("UserError"@ != "TechnicalError"@) by {
        assert("UserError"@.len() != "TechnicalError"@.len());
    }
}

} // verus!
