//! Errors of transaction execution: the user-level `ExecutionError` and the
//! framework-level `TransactionError`, with its textual rendering.
use vstd::prelude::*;
use vstd::string::*;

verus! {

/// Result of the `execute` method of a transaction: success, or an
/// `ExecutionError` carrying a code and an optional description.
pub type ExecutionResult = Result<(), ExecutionError>;

/// Result of unsuccessful transaction execution.
///
/// An execution error consists of an error code and an optional description.
/// The error code affects the blockchain state hash, while the description
/// does not.
#[derive(Debug, PartialEq, Eq, PartialOrd, Ord)]
pub struct ExecutionError {
    /// User-defined error code. Error codes can have different meanings for
    /// different transactions and services.
    pub code: u8,
    /// Optional error description.
    pub description: Option<String>,
}

/// The characters of an optional string.
pub open spec fn opt_chars(d: Option<String>) -> Option<Seq<char>> {
    match d {
        Some(s) => Some(s@),
        None => None,
    }
}

/// The characters of an optional string slice.
pub open spec fn opt_str_chars(d: Option<&str>) -> Option<Seq<char>> {
    match d {
        Some(s) => Some(s@),
        None => None,
    }
}

impl ExecutionError {
    /// Constructs a new `ExecutionError` instance with the given error code.
    pub fn new(code: u8) -> (e: Self)
        ensures
            e.code == code,
            e.description is None,
    {
        ExecutionError { code, description: None }
    }

    /// Constructs a new `ExecutionError` instance with the given error code and
    /// description.
    pub fn with_description(code: u8, description: &str) -> (e: Self)
        ensures
            e.code == code,
            opt_chars(e.description) == Some(description@),
    {
        ExecutionError { code, description: Some(description.to_owned()) }
    }
}

/// Type of transaction error.
#[derive(Debug, Clone, Copy, PartialEq, Eq, Structural, PartialOrd, Ord)]
pub enum TransactionErrorType {
    /// Panic occurred during transaction execution.
    Panic,
    /// User-defined error code. Can have different meanings for different
    /// transactions and services.
    Code(u8),
}

/// The mathematical content of a `TransactionError`: its type and the
/// characters of its description, if any.
pub ghost struct TransactionErrorView {
    pub error_type: TransactionErrorType,
    pub description: Option<Seq<char>>,
}

/// Result of unsuccessful transaction execution encompassing both service and
/// framework-wide error handling: either a panic or a user error code, with an
/// optional description.
///
/// The description is excluded from the hash of a transaction result, and
/// `to_string` renders a simple human-readable description of the error.
#[derive(Debug, PartialEq, Eq, PartialOrd, Ord)]
pub struct TransactionError {
    /// Error type, see `TransactionErrorType` for the details.
    error_type: TransactionErrorType,
    /// Optional error description.
    description: Option<String>,
}

impl View for TransactionError {
    type V = TransactionErrorView;

    closed spec fn view(&self) -> TransactionErrorView {
        TransactionErrorView { error_type: self.error_type, description: opt_chars(self.description) }
    }
}

/// The decimal notation of a natural number, most significant digit first.
pub open spec fn decimal(n: nat) -> Seq<char>
    decreases n,
{
    if n < 10 {
        seq![digit_char(n)]
    } else {
        decimal(n / 10) + seq![digit_char(n % 10)]
    }
}

/// The character of a decimal digit.
pub open spec fn digit_char(d: nat) -> char {
    (d + 48) as char
}

/// The text that `TransactionError::to_string` renders for an error.
pub open spec fn error_text(v: TransactionErrorView) -> Seq<char> {
    let head = match v.error_type {
        TransactionErrorType::Panic => "Panic during execution"@,
        TransactionErrorType::Code(c) => "Error code: "@ + decimal(c as nat),
    };
    match v.description {
        Some(d) => head + " description: "@ + d,
        None => head,
    }
}

/// Appends one character to a string (`String::push`).
#[verifier::external_body]
fn push_char(s: &mut String, c: char)
    ensures
        final(s)@ == old(s)@.push(c),
{
    s.push(c);
}

/// Appends the digit `d` (below 10) to `s`.
fn push_digit(s: &mut String, d: u8)
    requires
        d < 10,
    ensures
        final(s)@ == old(s)@.push(digit_char(d as nat)),
{
    let c = (d + 48) as char;
    push_char(s, c);
}

/// Appends the decimal notation of `n` to `s`.
fn push_decimal(s: &mut String, n: u8)
    ensures
        final(s)@ == old(s)@ + decimal(n as nat),
{
    proof {
        reveal_with_fuel(decimal, 3);
    }
    if n < 10 {
        push_digit(s, n);
    } else if n < 100 {
        push_digit(s, n / 10);
        push_digit(s, n % 10);
        assert(decimal(n as nat) == seq![digit_char((n / 10) as nat), digit_char((n % 10) as nat)]);
    } else {
        push_digit(s, n / 100);
        push_digit(s, (n / 10) % 10);
        push_digit(s, n % 10);
        assert(decimal((n / 10) as nat) == seq![digit_char((n / 100) as nat), digit_char(((n / 10) % 10) as nat)]);
    }
}

impl TransactionError {
    /// Creates a new `TransactionError` instance with the specified error type
    /// and description.
    pub fn new(error_type: TransactionErrorType, description: Option<String>) -> (e: Self)
        ensures
            e@ == (TransactionErrorView { error_type, description: opt_chars(description) }),
    {
        TransactionError { error_type, description }
    }

    /// Creates a new `TransactionError` instance with the specified error code
    /// and description.
    pub fn code(code: u8, description: Option<String>) -> (e: Self)
        ensures
            e@ == (TransactionErrorView {
                error_type: TransactionErrorType::Code(code),
                description: opt_chars(description),
            }),
    {
        Self::new(TransactionErrorType::Code(code), description)
    }

    /// Creates a new `TransactionError` representing panic with the given
    /// description.
    pub fn panic(description: Option<String>) -> (e: Self)
        ensures
            e@ == (TransactionErrorView {
                error_type: TransactionErrorType::Panic,
                description: opt_chars(description),
            }),
    {
        Self::new(TransactionErrorType::Panic, description)
    }

    /// Returns an error type of this `TransactionError` instance. This can be
    /// either a panic or a user-defined error code.
    pub fn error_type(&self) -> (t: TransactionErrorType)
        ensures
            t == self@.error_type,
    {
        self.error_type
    }

    /// Returns an optional error description.
    pub fn description(&self) -> (d: Option<&str>)
        ensures
            opt_str_chars(d) == self@.description,
    {
        match &self.description {
            Some(s) => Some(s.as_str()),
            None => None,
        }
    }

    /// Takes the description out of this error.
    pub(crate) fn into_description(self) -> (d: Option<String>)
        ensures
            opt_chars(d) == self@.description,
    {
        self.description
    }

    /// Renders a simple description of the error: the kind of the error
    /// (a panic, or the error code), followed by the description if there is
    /// one.
    pub fn to_string(&self) -> (s: String)
        ensures
            s@ == error_text(self@),
    {
        let mut s = match self.error_type {
            TransactionErrorType::Panic => "Panic during execution".to_owned(),
            TransactionErrorType::Code(c) => {
                let mut t = "Error code: ".to_owned();
                push_decimal(&mut t, c);
                t
            },
        };
        match &self.description {
            Some(d) => {
                s.append(" description: ");
                s.append(d.as_str());
            },
            None => {},
        }
        s
    }
}

/// A copy of an optional string.
fn clone_opt_string(d: &Option<String>) -> (r: Option<String>)
    ensures
        r == *d,
{
    match d {
        Some(s) => Some(s.clone()),
        None => None,
    }
}

impl Clone for ExecutionError {
    fn clone(&self) -> (r: Self)
        ensures
            r == *self,
    {
        ExecutionError { code: self.code, description: clone_opt_string(&self.description) }
    }
}

impl Clone for TransactionError {
    fn clone(&self) -> (r: Self)
        ensures
            r == *self,
    {
        TransactionError {
            error_type: self.error_type,
            description: clone_opt_string(&self.description),
        }
    }
}

impl From<ExecutionError> for TransactionError {
    /// Turns the code of an execution error into a transaction error of type
    /// `Code`, keeping its description.
    fn from(error: ExecutionError) -> (e: Self) {
        TransactionError {
            error_type: TransactionErrorType::Code(error.code),
            description: error.description,
        }
    }
}

impl vstd::std_specs::convert::FromSpecImpl<ExecutionError> for TransactionError {
    open spec fn obeys_from_spec() -> bool {
        true
    }

    closed spec fn from_spec(error: ExecutionError) -> TransactionError {
        TransactionError {
            error_type: TransactionErrorType::Code(error.code),
            description: error.description,
        }
    }
}

/// Converting an execution error into a transaction error keeps its code, as
/// an error of type `Code`, and its description.
pub proof fn lemma_from_execution_error(error: ExecutionError)
    ensures
        <TransactionError as vstd::std_specs::convert::FromSpec<ExecutionError>>::from_spec(error)@
            == (TransactionErrorView {
            error_type: TransactionErrorType::Code(error.code),
            description: opt_chars(error.description),
        }),
{
}

/// An optional string's characters are absent exactly when the string is, and
/// are then all of the string's characters.
pub proof fn lemma_opt_chars(d: Option<String>, t: Option<&str>)
    ensures
        d is None <==> opt_chars(d) is None,
        d matches Some(s) ==> opt_chars(d) == Some(s@),
        t is None <==> opt_str_chars(t) is None,
        t matches Some(s) ==> opt_str_chars(t) == Some(s@),
{
}

/// The decimal notation of a byte: one, two or three digit characters, most
/// significant first, with no leading zero.
pub proof fn lemma_decimal_u8(n: u8)
    ensures
        n < 10 ==> decimal(n as nat) == seq![(n + 48) as char],
        10 <= n < 100 ==> decimal(n as nat) == seq![(n / 10 + 48) as char, (n % 10 + 48) as char],
        100 <= n ==> decimal(n as nat) == seq![
            (n / 100 + 48) as char,
            ((n / 10) % 10 + 48) as char,
            (n % 10 + 48) as char,
        ],
{
    reveal_with_fuel(decimal, 3);
    if 100 <= n {
        assert(decimal((n / 10) as nat) == seq![digit_char((n / 100) as nat), digit_char(((n / 10) % 10) as nat)]);
    }
}

/// The text of an error: without a description it names the panic, or gives
/// the error code in decimal; with a description `d` it is the text of the
/// same error without one, followed by " description: " and the whole of `d`,
/// whatever the type or code of the error.
pub proof fn lemma_error_text(v: TransactionErrorView)
    ensures
        v.description is None ==> match v.error_type {
            TransactionErrorType::Panic => error_text(v) == "Panic during execution"@,
            TransactionErrorType::Code(c) => error_text(v) == "Error code: "@ + decimal(c as nat),
        },
        v.description matches Some(d) ==> error_text(v) == error_text(
            TransactionErrorView { error_type: v.error_type, description: None },
        ) + " description: "@ + d,
{
}

} // verus!
