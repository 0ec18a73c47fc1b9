//! The error taxonomy: a closed set of failure categories plus a context
//! wrapper that carries either the bare category, a message, or the display
//! text of an underlying cause. Callers branch on the category, never on
//! message text.

use vstd::prelude::*;

verus! {

/// The category of a failure, independent of its message or cause.
#[derive(Debug, PartialEq, Eq)]
pub enum ErrorKind {
    /// A parse or conversion failure of an address or input.
    Conversion,
    Io,
    /// A request-level failure with a numeric status and optional diagnostic
    /// text, "as if from a remote service".
    Http { code: u16, message: Option<String> },
    Network,
    Other,
}

impl ErrorKind {
    /// The category of a simulated backend response with the given status.
    pub fn http_response(code: u16, message: Option<String>) -> (r: Self)
        ensures
            r == (ErrorKind::Http { code, message }),
    {
        ErrorKind::Http { code, message }
    }

    /// The display text of the category alone.
    pub fn text(&self) -> (r: String)
        ensures
            r@ == kind_text(*self),
    {
        match self {
            ErrorKind::Conversion => String::from_str("Conversion"),
            ErrorKind::Io => String::from_str("Io"),
            ErrorKind::Http { code, message: Option::None } => {
                let mut s = String::from_str("HTTP ");
                let digits = u16_text(*code);
                s.append(digits.as_str());
                s
            },
            ErrorKind::Http { code, message: Option::Some(message) } => {
                let mut s = String::from_str("HTTP ");
                let digits = u16_text(*code);
                s.append(digits.as_str());
                s.append(": ");
                s.append(message.as_str());
                s
            },
            ErrorKind::Network => String::from_str("Network"),
            ErrorKind::Other => String::from_str("Other"),
        }
    }
}

impl Clone for ErrorKind {
    fn clone(&self) -> (r: Self)
        ensures
            r == *self,
    {
        match self {
            ErrorKind::Conversion => ErrorKind::Conversion,
            ErrorKind::Io => ErrorKind::Io,
            ErrorKind::Http { code, message: Option::None } => ErrorKind::Http {
                code: *code,
                message: Option::None,
            },
            ErrorKind::Http { code, message: Option::Some(m) } => ErrorKind::Http {
                code: *code,
                message: Option::Some(m.clone()),
            },
            ErrorKind::Network => ErrorKind::Network,
            ErrorKind::Other => ErrorKind::Other,
        }
    }
}

/// The decimal digit characters of `n`, most significant first.
pub open spec fn dec_rep(n: nat) -> Seq<char>
    decreases n,
{
    if n < 10 {
        seq![digit_char(n)]
    } else {
        dec_rep(n / 10).push(digit_char(n % 10))
    }
}

/// The character for a single decimal digit.
pub open spec fn digit_char(d: nat) -> char {
    if d == 0 {
        '0'
    } else if d == 1 {
        '1'
    } else if d == 2 {
        '2'
    } else if d == 3 {
        '3'
    } else if d == 4 {
        '4'
    } else if d == 5 {
        '5'
    } else if d == 6 {
        '6'
    } else if d == 7 {
        '7'
    } else if d == 8 {
        '8'
    } else {
        '9'
    }
}

fn digit_text(d: u16) -> (r: &'static str)
    requires
        d < 10,
    ensures
        r@ == seq![digit_char(d as nat)],
{
    proof {
        reveal_strlit("0");
        reveal_strlit("1");
        reveal_strlit("2");
        reveal_strlit("3");
        reveal_strlit("4");
        reveal_strlit("5");
        reveal_strlit("6");
        reveal_strlit("7");
        reveal_strlit("8");
        reveal_strlit("9");
    }
    let r = match d {
        0 => "0",
        1 => "1",
        2 => "2",
        3 => "3",
        4 => "4",
        5 => "5",
        6 => "6",
        7 => "7",
        8 => "8",
        _ => "9",
    };
    proof {
        assert(r@ =~= seq![digit_char(d as nat)]);
    }
    r
}

/// Renders `n` in decimal.
pub fn u16_text(n: u16) -> (r: String)
    ensures
        r@ == dec_rep(n as nat),
    decreases n,
{
    if n < 10 {
        String::from_str(digit_text(n))
    } else {
        let mut s = u16_text(n / 10);
        s.append(digit_text(n % 10));
        proof {
            assert(s@ =~= dec_rep(n as nat));
        }
        s
    }
}

/// The display text of a category: the name of the category, or for a
/// request-level failure the status code in decimal with the diagnostic
/// text, if any, after it.
pub open spec fn kind_text(k: ErrorKind) -> Seq<char> {
    match k {
        ErrorKind::Conversion => "Conversion"@,
        ErrorKind::Io => "Io"@,
        ErrorKind::Http { code, message: Option::None } => "HTTP "@ + dec_rep(code as nat),
        ErrorKind::Http { code, message: Option::Some(m) } => "HTTP "@ + dec_rep(code as nat)
            + ": "@ + m@,
        ErrorKind::Network => "Network"@,
        ErrorKind::Other => "Other"@,
    }
}

/// How an [`Error`] was constructed: from a bare category, with a message,
/// or wrapping the display text of an underlying cause.
#[derive(Debug)]
enum ErrorContext {
    Simple(ErrorKind),
    Message { kind: ErrorKind, message: String },
    Custom { kind: ErrorKind, cause: String },
}

/// A failure carrying exactly one [`ErrorKind`] and, depending on the
/// construction form, a message or the text of a nested cause.
#[derive(Debug)]
pub struct Error {
    context: ErrorContext,
}

impl Error {
    /// The category, regardless of construction form.
    pub closed spec fn spec_kind(&self) -> ErrorKind {
        match self.context {
            ErrorContext::Simple(kind) => kind,
            ErrorContext::Message { kind, .. } => kind,
            ErrorContext::Custom { kind, .. } => kind,
        }
    }

    /// The display text: the category for the bare form, otherwise the
    /// message or the nested cause's text.
    pub closed spec fn spec_message(&self) -> Seq<char> {
        match self.context {
            ErrorContext::Simple(kind) => kind_text(kind),
            ErrorContext::Message { message, .. } => message@,
            ErrorContext::Custom { cause, .. } => cause@,
        }
    }

    /// The nested cause's display text, present only for the
    /// wraps-a-cause construction form.
    pub closed spec fn spec_cause(&self) -> Option<Seq<char>> {
        match self.context {
            ErrorContext::Custom { cause, .. } => Some(cause@),
            _ => None,
        }
    }

    /// Wraps the display text of an underlying cause together with a
    /// category.
    pub fn new(kind: ErrorKind, cause: String) -> (r: Self)
        ensures
            r.spec_kind() == kind,
            r.spec_message() == cause@,
            r.spec_cause() == Some(cause@),
    {
        Error { context: ErrorContext::Custom { kind, cause } }
    }

    /// Attaches a message to a category; the error has no nested cause.
    pub fn with_message(kind: ErrorKind, message: String) -> (r: Self)
        ensures
            r.spec_kind() == kind,
            r.spec_message() == message@,
            r.spec_cause() is None,
    {
        Error { context: ErrorContext::Message { kind, message } }
    }

    /// The category of this failure.
    pub fn kind(&self) -> (r: &ErrorKind)
        ensures
            *r == self.spec_kind(),
    {
        match &self.context {
            ErrorContext::Simple(kind) => kind,
            ErrorContext::Message { kind, .. } => kind,
            ErrorContext::Custom { kind, .. } => kind,
        }
    }

    /// The display text of this failure.
    pub fn message(&self) -> (r: String)
        ensures
            r@ == self.spec_message(),
    {
        match &self.context {
            ErrorContext::Simple(kind) => kind.text(),
            ErrorContext::Message { message, .. } => message.clone(),
            ErrorContext::Custom { cause, .. } => cause.clone(),
        }
    }

    /// The nested cause's display text, exposed only for the
    /// wraps-a-cause construction form.
    pub fn cause(&self) -> (r: Option<&String>)
        ensures
            match r {
                Some(c) => self.spec_cause() == Some(c@),
                None => self.spec_cause() is None,
            },
    {
        match &self.context {
            ErrorContext::Custom { cause, .. } => Some(cause),
            _ => None,
        }
    }
}

impl From<ErrorKind> for Error {
    fn from(kind: ErrorKind) -> (r: Error) {
        Error { context: ErrorContext::Simple(kind) }
    }
}

impl vstd::std_specs::convert::FromSpecImpl<ErrorKind> for Error {
    open spec fn obeys_from_spec() -> bool {
        true
    }

    closed spec fn from_spec(kind: ErrorKind) -> Error {
        Error { context: ErrorContext::Simple(kind) }
    }
}

/// What converting a bare category into an error yields: an error of that
/// category whose display text is the category's own and that wraps no cause.
pub proof fn lemma_error_from_kind(kind: ErrorKind)
    ensures
        ({
            let e = <Error as vstd::std_specs::convert::FromSpec<ErrorKind>>::from_spec(kind);
            &&& e.spec_kind() == kind
            &&& e.spec_message() == kind_text(kind)
            &&& e.spec_cause() is None
        }),
{
}

/// Whether `e` is a request-level failure with status `code` and no
/// diagnostic text.
pub open spec fn is_http_error(e: Error, code: u16) -> bool {
    e.spec_kind() == (ErrorKind::Http { code, message: None })
}

} // verus!
