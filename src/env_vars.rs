//! Environment variable access helpers.

use vstd::prelude::*;

verus! {

/// Why a variable could not be read as text.
#[derive(Debug, PartialEq, Eq, Clone)]
pub enum VarError {
    /// No variable of that name is set.
    NotPresent,
    /// The variable is set, but its value is not valid Unicode. Holds an
    /// escaped depiction of the raw value, for display.
    NotUnicode(String),
}

/// A failure kind as a value: absence, or a malformed value with its depiction.
pub ghost enum Cause {
    Absent,
    Malformed(Seq<char>),
}

impl View for VarError {
    type V = Cause;

    open spec fn view(&self) -> Cause {
        match self {
            VarError::NotPresent => Cause::Absent,
            VarError::NotUnicode(raw) => Cause::Malformed(raw@),
        }
    }
}

/// The text that describes a failure kind.
pub open spec fn cause_text(c: Cause) -> Seq<char> {
    match c {
        Cause::Absent => "environment variable not found"@,
        Cause::Malformed(raw) => "environment variable was not valid unicode: "@ + raw,
    }
}

impl VarError {
    /// Renders the cause as text.
    pub fn to_string(&self) -> (r: String)
        ensures
            r@ == cause_text(self@),
    {
        match self {
            VarError::NotPresent => "environment variable not found".to_owned(),
            VarError::NotUnicode(raw) => {
                let mut s = "environment variable was not valid unicode: ".to_owned();
                s.append(raw.as_str());
                s
            },
        }
    }
}

/// A failed lookup, with the name of the variable that was asked for.
#[derive(Debug, PartialEq, Eq, Clone)]
pub struct EnvVarError {
    name: String,
    error: VarError,
}

/// A failed lookup as a value.
pub ghost struct Failure {
    pub name: Seq<char>,
    pub cause: Cause,
}

impl View for EnvVarError {
    type V = Failure;

    closed spec fn view(&self) -> Failure {
        Failure { name: self.name@, cause: self.error@ }
    }
}

/// The rendered text of a failed lookup: `<name>: <cause>`.
pub open spec fn message(f: Failure) -> Seq<char> {
    f.name + ": "@ + cause_text(f.cause)
}

impl EnvVarError {
    /// A failure of the lookup of `name` for the given cause.
    pub fn new(name: String, error: VarError) -> (r: Self)
        ensures
            r@ == (Failure { name: name@, cause: error@ }),
    {
        EnvVarError { name, error }
    }

    /// The name of the variable that was asked for.
    pub fn name(&self) -> (r: &str)
        ensures
            r@ == self@.name,
    {
        self.name.as_str()
    }

    /// Why the lookup failed.
    pub fn error(&self) -> (r: &VarError)
        ensures
            r@ == self@.cause,
    {
        &self.error
    }

    /// Renders the failure as `<name>: <cause>`.
    pub fn to_string(&self) -> (r: String)
        ensures
            r@ == message(self@),
    {
        let mut s = self.name.clone();
        s.append(": ");
        let cause = self.error.to_string();
        s.append(cause.as_str());
        s
    }
}

/// What the environment holds for one name, as a value: the text, or why
/// there is none.
pub open spec fn entry(read: Result<String, VarError>) -> Result<Seq<char>, Cause> {
    match read {
        Ok(v) => Ok(v@),
        Err(e) => Err(e@),
    }
}

/// A lookup's result as a value.
pub open spec fn outcome(r: Result<String, EnvVarError>) -> Result<Seq<char>, Failure> {
    match r {
        Ok(v) => Ok(v@),
        Err(e) => Err(e@),
    }
}

/// Looking up `name` where the environment holds `e`: the text as it is, or
/// the failure under the name asked for.
pub open spec fn lookup(name: Seq<char>, e: Result<Seq<char>, Cause>) -> Result<Seq<char>, Failure> {
    match e {
        Ok(v) => Ok(v),
        Err(c) => Err(Failure { name, cause: c }),
    }
}

/// Looking up `name` with a fallback: `default` where the variable is absent
/// or empty; a malformed value still fails.
pub open spec fn lookup_with_default(
    name: Seq<char>,
    default: Seq<char>,
    e: Result<Seq<char>, Cause>,
) -> Result<Seq<char>, Failure> {
    match e {
        Ok(v) => if v.len() == 0 { Ok(default) } else { Ok(v) },
        Err(Cause::Absent) => Ok(default),
        Err(c) => Err(Failure { name, cause: c }),
    }
}

/// Reads the named variable, given `read`, what the environment gave for it.
pub fn var(name: &str, read: Result<String, VarError>) -> (r: Result<String, EnvVarError>)
    ensures
        outcome(r) == lookup(name@, entry(read)),
{
    match read {
        Ok(value) => Ok(value),
        Err(err) => Err(EnvVarError::new(name.to_owned(), err)),
    }
}

/// Reads the named variable, given `read`, what the environment gave for it,
/// or returns `default` where it is absent or empty.
pub fn var_default(name: &str, default: &str, read: Result<String, VarError>) -> (r: Result<
    String,
    EnvVarError,
>)
    ensures
        outcome(r) == lookup_with_default(name@, default@, entry(read)),
{
    match var(name, read) {
        Err(EnvVarError { name: _, error: VarError::NotPresent }) => Ok(default.to_owned()),
        Ok(value) => {
            if value.as_str().is_empty() {
                Ok(default.to_owned())
            } else {
                Ok(value)
            }
        },
        otherwise => otherwise,
    }
}

/// An absent variable fails as absent, under the name asked for, and reads
/// `<name>: environment variable not found`.
pub proof fn lemma_absent_fails(name: Seq<char>)
    ensures
        lookup(name, Err(Cause::Absent)) == Err::<Seq<char>, Failure>(
            Failure { name, cause: Cause::Absent },
        ),
        message(Failure { name, cause: Cause::Absent }) == name + ": "@
            + "environment variable not found"@,
{
}

/// A variable whose value is not valid Unicode fails as malformed, under the
/// name asked for, and its text ends with the depiction of the raw value.
pub proof fn lemma_malformed_fails(name: Seq<char>, raw: Seq<char>)
    ensures
        lookup(name, Err(Cause::Malformed(raw))) == Err::<Seq<char>, Failure>(
            Failure { name, cause: Cause::Malformed(raw) },
        ),
        ({
            let m = message(Failure { name, cause: Cause::Malformed(raw) });
            m.len() >= raw.len() && m.subrange(m.len() - raw.len(), m.len() as int) == raw
        }),
{
    let m = message(Failure { name, cause: Cause::Malformed(raw) });
    assert(m.subrange(m.len() - raw.len(), m.len() as int) =~= raw);
}

/// A variable set to valid text, empty or not, reads as exactly that text.
pub proof fn lemma_text_is_returned(name: Seq<char>, v: Seq<char>)
    ensures
        lookup(name, Ok(v)) == Ok::<Seq<char>, Failure>(v),
{
}

/// With a fallback, an absent variable gives exactly the default.
pub proof fn lemma_default_when_absent(name: Seq<char>, default: Seq<char>)
    ensures
        lookup_with_default(name, default, Err(Cause::Absent)) == Ok::<Seq<char>, Failure>(
            default,
        ),
{
}

/// With a fallback, a variable set to the empty string gives exactly the default.
pub proof fn lemma_default_when_empty(name: Seq<char>, default: Seq<char>)
    ensures
        lookup_with_default(name, default, Ok(Seq::empty())) == Ok::<Seq<char>, Failure>(
            default,
        ),
{
}

/// With a fallback, a variable set to non-empty text gives exactly that text,
/// whatever the default.
pub proof fn lemma_value_over_default(name: Seq<char>, default: Seq<char>, v: Seq<char>)
    requires
        v.len() > 0,
    ensures
        lookup_with_default(name, default, Ok(v)) == Ok::<Seq<char>, Failure>(v),
{
}

/// Both lookups depend on the name, the default and what the environment
/// holds alone: two reads of an unchanged environment give identical results.
pub proof fn lemma_same_state_same_result(
    name: Seq<char>,
    default: Seq<char>,
    first: Result<String, VarError>,
    second: Result<String, VarError>,
)
    requires
        entry(first) == entry(second),
    ensures
        lookup(name, entry(first)) == lookup(name, entry(second)),
        lookup_with_default(name, default, entry(first)) == lookup_with_default(
            name,
            default,
            entry(second),
        ),
{
}

} // verus!
