//! What can go wrong while serving a trigger or running periodic work, and how
//! each failure is shown to the caller and to the operator.

use vstd::prelude::*;

verus! {

/// The error type of the operating system's I/O layer, carried through as is.
#[verifier::external_type_specification]
#[verifier::external_body]
pub struct ExIoError(std::io::Error);

/// Renders an I/O error with its `Debug` formatting.
///
/// Trusted, and nothing is claimed of the text: it depends on the platform.
#[verifier::external_body]
fn io_error_text(source: &std::io::Error) -> (text: String) {
    format!("{source:?}")
}

/// A failed trigger, redeploy or prune.
#[derive(Debug)]
pub enum Error {
    /// The external tool could not be launched or waited for.
    Io(std::io::Error),
    /// The redeploy command ran and reported failure.
    PullFailed { stdout: String, stderr: String },
    /// The prune command ran and reported failure.
    PruneFailed { stdout: String, stderr: String },
    /// No composition is registered under the requested name.
    NoComposition(String),
    /// The presented credential is not the configured one.
    Unauthorized,
}

/// A failure as mathematical values. An I/O error is modelled by its kind
/// alone: its wording belongs to the platform.
pub enum ErrorView {
    Io,
    PullFailed { stdout: Seq<char>, stderr: Seq<char> },
    PruneFailed { stdout: Seq<char>, stderr: Seq<char> },
    NoComposition(Seq<char>),
    Unauthorized,
}

/// `needle` occurs in `text` as a contiguous run of characters.
pub open spec fn occurs_in(needle: Seq<char>, text: Seq<char>) -> bool {
    exists|at: int|
        0 <= at && at + needle.len() <= text.len() && #[trigger] text.subrange(
            at,
            at + needle.len(),
        ) == needle
}

impl ErrorView {
    /// The HTTP status code that answers a request which failed this way.
    pub open spec fn status(self) -> u16 {
        match self {
            ErrorView::Io => 500,
            ErrorView::PullFailed { .. } => 500,
            ErrorView::PruneFailed { .. } => 500,
            ErrorView::Unauthorized => 401,
            ErrorView::NoComposition(_) => 404,
        }
    }

    /// The response body that answers a request which failed this way.
    pub open spec fn message(self) -> Seq<char> {
        match self {
            ErrorView::Io => "I/O error\n"@,
            ErrorView::PullFailed { .. } => "Docker pull failed\n"@,
            ErrorView::PruneFailed { .. } => "Docker prune failed\n"@,
            ErrorView::NoComposition(name) => "No composition found for path `"@ + name + "`\n"@,
            ErrorView::Unauthorized => "Unauthorized user attempted to access server\n"@,
        }
    }

    /// The head of the operator's diagnostic line, before any detail.
    pub open spec fn diagnostic_head(self) -> Seq<char> {
        match self {
            ErrorView::Io => "Error: I/O error: "@,
            ErrorView::PullFailed { .. } => "Error: Docker pull failed\nstdout: "@,
            ErrorView::PruneFailed { .. } => "Error: Docker prune failed\nstdout: "@,
            ErrorView::NoComposition(_) => "Error: No composition found for path `"@,
            ErrorView::Unauthorized => "Error: Unauthorized user attempted to access server"@,
        }
    }

    /// The operator's diagnostic line for every failure but an I/O error,
    /// whose detail is the platform's to word.
    pub open spec fn diagnostic(self) -> Seq<char> {
        match self {
            ErrorView::Io => self.diagnostic_head(),
            ErrorView::PullFailed { stdout, stderr } => self.diagnostic_head() + stdout
                + "\nstderr: "@ + stderr,
            ErrorView::PruneFailed { stdout, stderr } => self.diagnostic_head() + stdout
                + "\nstderr: "@ + stderr,
            ErrorView::NoComposition(name) => self.diagnostic_head() + name + "`"@,
            ErrorView::Unauthorized => self.diagnostic_head(),
        }
    }
}

/// `line` is the diagnostic line of `failure`: the full line where the crate
/// words it, and a line behind the fixed head for an I/O error.
pub open spec fn reports(line: Seq<char>, failure: ErrorView) -> bool {
    if failure is Io {
        failure.diagnostic_head().is_prefix_of(line)
    } else {
        line == failure.diagnostic()
    }
}

impl View for Error {
    type V = ErrorView;

    open spec fn view(&self) -> ErrorView {
        match self {
            Error::Io(_) => ErrorView::Io,
            Error::PullFailed { stdout, stderr } => ErrorView::PullFailed {
                stdout: stdout@,
                stderr: stderr@,
            },
            Error::PruneFailed { stdout, stderr } => ErrorView::PruneFailed {
                stdout: stdout@,
                stderr: stderr@,
            },
            Error::NoComposition(name) => ErrorView::NoComposition(name@),
            Error::Unauthorized => ErrorView::Unauthorized,
        }
    }
}

impl Error {
    /// The HTTP status code for this failure: 401 for a rejected credential,
    /// 404 for an unknown composition, 500 for everything else.
    pub fn status(&self) -> (code: u16)
        ensures
            code == self@.status(),
    {
        match self {
            Error::Io(_) => 500,
            Error::PullFailed { .. } => 500,
            Error::PruneFailed { .. } => 500,
            Error::Unauthorized => 401,
            Error::NoComposition(_) => 404,
        }
    }

    /// The human-readable response body for this failure.
    pub fn message(&self) -> (body: String)
        ensures
            body@ == self@.message(),
    {
        match self {
            Error::Io(_) => String::from_str("I/O error\n"),
            Error::PullFailed { .. } => String::from_str("Docker pull failed\n"),
            Error::PruneFailed { .. } => String::from_str("Docker prune failed\n"),
            Error::NoComposition(name) => {
                let mut body = String::from_str("No composition found for path `");
                body.append(name.as_str());
                body.append("`\n");
                body
            },
            Error::Unauthorized => String::from_str(
                "Unauthorized user attempted to access server\n",
            ),
        }
    }

    /// The line written to the operator's diagnostic channel for this failure.
    ///
    /// A failed command shows both captured streams in full. An I/O error
    /// shows the platform's own description behind a fixed head.
    pub fn diagnostic(&self) -> (line: String)
        ensures
            reports(line@, self@),
    {
        match self {
            Error::Io(source) => {
                let mut line = String::from_str("Error: I/O error: ");
                let detail = io_error_text(source);
                line.append(detail.as_str());
                line
            },
            Error::PullFailed { stdout, stderr } => {
                let mut line = String::from_str("Error: Docker pull failed\nstdout: ");
                line.append(stdout.as_str());
                line.append("\nstderr: ");
                line.append(stderr.as_str());
                line
            },
            Error::PruneFailed { stdout, stderr } => {
                let mut line = String::from_str("Error: Docker prune failed\nstdout: ");
                line.append(stdout.as_str());
                line.append("\nstderr: ");
                line.append(stderr.as_str());
                line
            },
            Error::NoComposition(name) => {
                let mut line = String::from_str("Error: No composition found for path `");
                line.append(name.as_str());
                line.append("`");
                line
            },
            Error::Unauthorized => String::from_str(
                "Error: Unauthorized user attempted to access server",
            ),
        }
    }
}

/// The body that answers a request for an unknown composition names the
/// requested composition.
pub proof fn lemma_not_found_names_the_request(name: Seq<char>)
    ensures
        occurs_in(name, ErrorView::NoComposition(name).message()),
{
    let body = ErrorView::NoComposition(name).message();
    let head = "No composition found for path `"@;
    let a = head.len() as int;
    assert(body.subrange(a, a + name.len()) =~= name);
}

/// The diagnostic line of a failed command holds everything the command wrote
/// to its standard output and to its standard error.
pub proof fn lemma_diagnostic_shows_streams(failure: ErrorView)
    requires
        failure is PullFailed || failure is PruneFailed,
    ensures
        failure matches ErrorView::PullFailed { stdout, stderr } ==> occurs_in(
            stdout,
            failure.diagnostic(),
        ) && occurs_in(stderr, failure.diagnostic()),
        failure matches ErrorView::PruneFailed { stdout, stderr } ==> occurs_in(
            stdout,
            failure.diagnostic(),
        ) && occurs_in(stderr, failure.diagnostic()),
{
    let line = failure.diagnostic();
    let head = failure.diagnostic_head();
    let middle = "\nstderr: "@;
    match failure {
        ErrorView::PullFailed { stdout, stderr } => {
            let a = head.len() as int;
            let b = a + stdout.len() + middle.len();
            assert(line.subrange(a, a + stdout.len()) =~= stdout);
            assert(line.subrange(b, b + stderr.len()) =~= stderr);
        },
        ErrorView::PruneFailed { stdout, stderr } => {
            let a = head.len() as int;
            let b = a + stdout.len() + middle.len();
            assert(line.subrange(a, a + stdout.len()) =~= stdout);
            assert(line.subrange(b, b + stderr.len()) =~= stderr);
        },
        _ => {},
    }
}

} // verus!
