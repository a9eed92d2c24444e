use crate::repositories::{CreateTodo, UpdateTodo};
use vstd::prelude::*;
use vstd::string::StringExecFns;

verus! {

/// The fewest characters a todo's text may have.
pub const TEXT_MIN_CHARS: u64 = 1;

/// The most characters a todo's text may have.
pub const TEXT_MAX_CHARS: u64 = 100;

/// The status of a request that is malformed or breaks a field constraint.
pub const BAD_REQUEST: u16 = 400;

/// A todo's text is between 1 and 100 characters long.
pub open spec fn text_length_ok(text: Seq<char>) -> bool {
    TEXT_MIN_CHARS <= text.len() <= TEXT_MAX_CHARS
}

/// Relies on validator's `ValidateLength` for `str`: it counts the characters of `s` and
/// tells whether that count lies within both bounds.
#[verifier::external_body]
fn length_within(s: &str, min: u64, max: u64) -> (r: bool)
    ensures
        r == (min <= s@.len() && s@.len() <= max),
{
    validator::ValidateLength::<u64>::validate_length(s, Some(min), Some(max), None)
}

/// One violated field constraint.
#[derive(Debug, Clone, PartialEq, Eq)]
pub struct FieldError {
    pub field: String,
    pub message: String,
}

/// A violation as a pair of field name and message.
pub type Violation = (Seq<char>, Seq<char>);

pub open spec fn violation_of(e: FieldError) -> Violation {
    (e.field@, e.message@)
}

pub open spec fn violations_of(v: Seq<FieldError>) -> Seq<Violation> {
    v.map_values(|e: FieldError| violation_of(e))
}

/// The one violation that a text of the wrong length gives.
pub open spec fn text_length_violation() -> Violation {
    ("text"@, "invalid text length"@)
}

/// A payload whose fields carry constraints.
pub trait Validate: Sized {
    /// The constraints this value breaks, in order; empty when it is valid.
    spec fn violations(&self) -> Seq<Violation>;

    /// Lists the constraints this value breaks.
    fn validate(&self) -> (r: Vec<FieldError>)
        ensures
            violations_of(r@) == self.violations(),
    ;
}

fn text_length_errors(text: &str) -> (r: Vec<FieldError>)
    ensures
        violations_of(r@) == (if text_length_ok(text@) {
            Seq::<Violation>::empty()
        } else {
            seq![text_length_violation()]
        }),
{
    let mut errors: Vec<FieldError> = Vec::new();
    if !length_within(text, TEXT_MIN_CHARS, TEXT_MAX_CHARS) {
        errors.push(
            FieldError {
                field: String::from_str("text"),
                message: String::from_str("invalid text length"),
            },
        );
    }
    assert(violations_of(errors@) =~= (if text_length_ok(text@) {
        Seq::<Violation>::empty()
    } else {
        seq![text_length_violation()]
    }));
    errors
}

impl Validate for CreateTodo {
    open spec fn violations(&self) -> Seq<Violation> {
        if text_length_ok(self.text@) {
            Seq::empty()
        } else {
            seq![text_length_violation()]
        }
    }

    fn validate(&self) -> (r: Vec<FieldError>) {
        text_length_errors(self.text.as_str())
    }
}

impl Validate for UpdateTodo {
    open spec fn violations(&self) -> Seq<Violation> {
        match self.text {
            Some(t) => if text_length_ok(t@) {
                Seq::empty()
            } else {
                seq![text_length_violation()]
            },
            None => Seq::empty(),
        }
    }

    fn validate(&self) -> (r: Vec<FieldError>) {
        match &self.text {
            Some(t) => text_length_errors(t.as_str()),
            None => {
                let errors: Vec<FieldError> = Vec::new();
                assert(violations_of(errors@) =~= Seq::<Violation>::empty());
                errors
            },
        }
    }
}

/// `field: message`.
pub open spec fn violation_text(v: Violation) -> Seq<char> {
    v.0 + ": "@ + v.1
}

/// The violations on one line, separated by `, `.
pub open spec fn joined(vs: Seq<Violation>) -> Seq<char>
    decreases vs.len(),
{
    if vs.len() == 0 {
        Seq::empty()
    } else if vs.len() == 1 {
        violation_text(vs[0])
    } else {
        joined(vs.drop_last()) + ", "@ + violation_text(vs.last())
    }
}

/// The message of a rejection for breaking the constraints `vs`.
pub open spec fn validation_message(vs: Seq<Violation>) -> Seq<char> {
    "Validation error: ["@ + joined(vs) + "]"@
}

/// The message of a rejection for a body that does not decode, given the decoder's words.
pub open spec fn parse_message(detail: Seq<char>) -> Seq<char> {
    "Json parse error: ["@ + detail + "]"@
}

/// Why a request body was turned away: a status and a one-line message.
#[derive(Debug, Clone, PartialEq, Eq)]
pub struct Rejection {
    pub status: u16,
    pub message: String,
}

/// Puts the violations on one line.
pub fn join_violations(errors: &Vec<FieldError>) -> (r: String)
    ensures
        r@ == joined(violations_of(errors@)),
{
    let ghost vs = violations_of(errors@);
    let mut out = String::new();
    let mut i: usize = 0;
    while i < errors.len()
        invariant
            i <= errors@.len(),
            vs == violations_of(errors@),
            out@ == joined(vs.subrange(0, i as int)),
        decreases errors@.len() - i,
    {
        let ghost prefix = vs.subrange(0, i as int);
        let ghost next = vs.subrange(0, i + 1);
        assert(next.drop_last() =~= prefix);
        if i > 0 {
            out.append(", ");
        }
        out.append(errors[i].field.as_str());
        out.append(": ");
        out.append(errors[i].message.as_str());
        i = i + 1;
        assert(out@ =~= joined(next));
    }
    assert(vs.subrange(0, i as int) =~= vs);
    out
}

/// The rejection of a body that does not decode; `detail` is the decoder's description.
pub fn json_parse_rejection(detail: &str) -> (r: Rejection)
    ensures
        r.status == BAD_REQUEST,
        r.message@ == parse_message(detail@),
{
    let mut message = String::from_str("Json parse error: [");
    message.append(detail);
    message.append("]");
    Rejection { status: BAD_REQUEST, message }
}

/// A decoded payload that meets all of its field constraints.
#[derive(Debug)]
pub struct ValidatedJson<T: Validate>(T);

impl<T: Validate> ValidatedJson<T> {
    #[verifier::type_invariant]
    spec fn holds_valid(&self) -> bool {
        self.0.violations().len() == 0
    }

    /// The payload inside.
    pub closed spec fn value(&self) -> T {
        self.0
    }

    /// Accepts `value` when it breaks no constraint, else rejects it with 400 and the
    /// violations on one line.
    pub fn from_value(value: T) -> (r: Result<ValidatedJson<T>, Rejection>)
        ensures
            match r {
                Ok(v) => value.violations().len() == 0 && v.value() == value,
                Err(rejection) => {
                    &&& value.violations().len() > 0
                    &&& rejection.status == BAD_REQUEST
                    &&& rejection.message@ == validation_message(value.violations())
                },
            },
    {
        let errors = value.validate();
        if errors.len() == 0 {
            Ok(ValidatedJson(value))
        } else {
            let mut message = String::from_str("Validation error: [");
            let line = join_violations(&errors);
            message.append(line.as_str());
            message.append("]");
            Err(Rejection { status: BAD_REQUEST, message })
        }
    }

    /// Hands out the payload, which breaks no constraint.
    pub fn into_inner(self) -> (r: T)
        ensures
            r == self.value(),
            r.violations().len() == 0,
    {
        proof {
            use_type_invariant(&self);
        }
        self.0
    }
}

} // verus!
