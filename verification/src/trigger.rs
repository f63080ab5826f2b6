//! The authenticated HTTP trigger: who may ask for a redeploy, what is run for
//! them, and what they are answered.

use vstd::prelude::*;
use crate::config::{Config, ConfigView};
use crate::error::{
    lemma_diagnostic_shows_streams, lemma_not_found_names_the_request, occurs_in, reports, Error,
    ErrorView,
};
use crate::operation::{
    redeploy_command, redeploy_failure, restart_command, Command, CommandView, OutcomeView,
};
use crate::text::same_text;

verus! {

/// An HTTP response as mathematical values.
pub struct ResponseView {
    pub status: u16,
    pub body: Seq<char>,
}

/// The status code and body that answer a request.
#[derive(Debug)]
pub struct Response {
    pub status: u16,
    pub body: String,
}

impl View for Response {
    type V = ResponseView;

    open spec fn view(&self) -> ResponseView {
        ResponseView { status: self.status, body: self.body@ }
    }
}

/// The answer to a request together with the line, if any, that goes to the
/// operator's diagnostic channel before the answer is sent.
#[derive(Debug)]
pub struct Reply {
    pub response: Response,
    pub diagnostic: Option<String>,
}

/// The bearer credential of a request as a mathematical value; `None` stands
/// for a missing or malformed header.
pub open spec fn credential(presented: Option<&str>) -> Option<Seq<char>> {
    match presented {
        Some(token) => Some(token@),
        None => None,
    }
}

/// A request is authorized exactly when it presents the configured token.
pub open spec fn authorized(presented: Option<Seq<char>>, token: Seq<char>) -> bool {
    presented == Some(token)
}

/// What the trigger decides before anything is run: the command to run, or
/// the refusal. The credential is judged first, whatever the path.
pub open spec fn admission(
    config: ConfigView,
    presented: Option<Seq<char>>,
    name: Seq<char>,
) -> Result<CommandView, ErrorView> {
    if !authorized(presented, config.token) {
        Err(ErrorView::Unauthorized)
    } else if !config.compositions.contains_key(name) {
        Err(ErrorView::NoComposition(name))
    } else {
        Ok(redeploy_command(config.compositions[name]))
    }
}

/// The response to a request that ended with `failure`, or succeeded.
pub open spec fn answer(failure: Option<ErrorView>) -> ResponseView {
    match failure {
        None => ResponseView { status: 200, body: "Success\n"@ },
        Some(failure) => ResponseView { status: failure.status(), body: failure.message() },
    }
}

/// How a request ends: refused at admission, or with what its redeploy run
/// amounts to. `run` is the outcome of the process, `None` where it could not
/// be launched; it is looked at only for an admitted request.
pub open spec fn request_failure(
    config: ConfigView,
    presented: Option<Seq<char>>,
    name: Seq<char>,
    run: Option<OutcomeView>,
) -> Option<ErrorView> {
    match admission(config, presented, name) {
        Err(refusal) => Some(refusal),
        Ok(_) => redeploy_failure(run),
    }
}

/// Judges a presented credential against the configured token by exact
/// comparison. A missing credential is a mismatch.
pub fn check(presented: Option<&str>, configured: &str) -> (verdict: Result<(), Error>)
    ensures
        verdict is Ok == authorized(credential(presented), configured@),
        verdict matches Err(refusal) ==> refusal@ == ErrorView::Unauthorized,
{
    match presented {
        Some(token) => {
            if same_text(configured, token) {
                Ok(())
            } else {
                Err(Error::Unauthorized)
            }
        },
        None => Err(Error::Unauthorized),
    }
}

/// Admits or refuses a trigger request.
///
/// Refuses with `Unauthorized` unless the request presents the configured
/// token; then with `NoComposition(name)` unless `name` is registered;
/// otherwise gives the redeploy command to run for `name`.
pub fn restart_web(name: &str, config: &Config, presented: Option<&str>) -> (admitted: Result<
    Command,
    Error,
>)
    requires
        config.wf(),
    ensures
        admitted is Ok == admission(config@, credential(presented), name@) is Ok,
        admitted matches Ok(command) ==> Ok::<CommandView, ErrorView>(command@) == admission(
            config@,
            credential(presented),
            name@,
        ),
        admitted matches Err(refusal) ==> Err::<CommandView, ErrorView>(refusal@) == admission(
            config@,
            credential(presented),
            name@,
        ),
{
    match check(presented, config.token()) {
        Err(refusal) => Err(refusal),
        Ok(()) => restart_command(name, config),
    }
}

/// The failure that a result carries, if any, as a mathematical value.
pub open spec fn failure_of(result: Result<(u16, &'static str), Error>) -> Option<ErrorView> {
    match result {
        Ok(_) => None,
        Err(failure) => Some(failure@),
    }
}

impl Error {
    /// The response that reports this failure to the caller: its status code
    /// and its message.
    pub fn into_response(&self) -> (response: Response)
        ensures
            response@ == answer(Some(self@)),
    {
        Response { status: self.status(), body: self.message() }
    }
}

/// Turns the result of a trigger request into its reply.
///
/// A success is answered as it stands and logs nothing. A failure is answered
/// by its status code and message, and its diagnostic line is handed back to
/// be logged before the answer is sent.
pub fn respond(result: &Result<(u16, &'static str), Error>) -> (reply: Reply)
    ensures
        result matches Ok(success) ==> reply.response@ == (ResponseView {
            status: success.0,
            body: success.1@,
        }) && reply.diagnostic is None,
        result matches Err(failure) ==> reply.response@ == answer(Some(failure@)) && (
        reply.diagnostic matches Some(line) && reports(line@, failure@)),
{
    match result {
        Ok(success) => Reply {
            response: Response { status: success.0, body: String::from_str(success.1) },
            diagnostic: None,
        },
        Err(failure) => Reply {
            response: failure.into_response(),
            diagnostic: Some(failure.diagnostic()),
        },
    }
}

/// A request without the configured credential is answered 401, whatever its
/// path and whatever the registry holds, and nothing is run for it.
pub proof fn lemma_bad_credential_is_unauthorized(
    config: ConfigView,
    presented: Option<Seq<char>>,
    name: Seq<char>,
    run: Option<OutcomeView>,
)
    requires
        presented != Some(config.token),
    ensures
        admission(config, presented, name) == Err::<CommandView, ErrorView>(
            ErrorView::Unauthorized,
        ),
        answer(request_failure(config, presented, name, run)).status == 401,
{
}

/// A request with the configured credential for a name that is not registered
/// is answered 404, and the body names the requested path segment.
pub proof fn lemma_unknown_name_is_not_found(
    config: ConfigView,
    name: Seq<char>,
    run: Option<OutcomeView>,
)
    requires
        !config.compositions.contains_key(name),
    ensures
        admission(config, Some(config.token), name) == Err::<CommandView, ErrorView>(
            ErrorView::NoComposition(name),
        ),
        answer(request_failure(config, Some(config.token), name, run)).status == 404,
        occurs_in(name, answer(request_failure(config, Some(config.token), name, run)).body),
{
    lemma_not_found_names_the_request(name);
}

/// A request with the configured credential for a registered name runs the
/// redeploy command in the composition's directory. If the process exits
/// cleanly the answer is 200 with the body `Success`; if it reports failure
/// the answer is 500 and the diagnostic line holds both captured streams.
pub proof fn lemma_registered_name_is_redeployed(
    config: ConfigView,
    name: Seq<char>,
    outcome: OutcomeView,
)
    requires
        config.compositions.contains_key(name),
    ensures
        admission(config, Some(config.token), name) == Ok::<CommandView, ErrorView>(
            redeploy_command(config.compositions[name]),
        ),
        outcome.success ==> answer(
            request_failure(config, Some(config.token), name, Some(outcome)),
        ) == (ResponseView { status: 200, body: "Success\n"@ }),
        !outcome.success ==> {
            let failure = request_failure(config, Some(config.token), name, Some(outcome));
            &&& failure == Some(
                ErrorView::PullFailed { stdout: outcome.stdout, stderr: outcome.stderr },
            )
            &&& answer(failure).status == 500
            &&& occurs_in(outcome.stdout, failure.unwrap().diagnostic())
            &&& occurs_in(outcome.stderr, failure.unwrap().diagnostic())
        },
{
    if !outcome.success {
        lemma_diagnostic_shows_streams(
            ErrorView::PullFailed { stdout: outcome.stdout, stderr: outcome.stderr },
        );
    }
}

} // verus!
