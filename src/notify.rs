//! Configuration, the decision whether to notify, and the reading of the
//! webhook's reply.

use vstd::prelude::*;
use vstd::string::*;
use crate::collect::{collect_failed_tests, failures_of_suites};
use crate::message::{format_slack_message, slack_text};
use crate::report::{TestCase, TestSuite};

verus! {

/// "Test Results", the title used when none is configured.
pub open spec fn default_title() -> Seq<char> {
    seq!['T', 'e', 's', 't', ' ', 'R', 'e', 's', 'u', 'l', 't', 's']
}

/// Why a run could not be completed.
#[derive(Debug)]
pub enum NotifyError {
    /// No webhook URL was configured.
    MissingWebhookUrl,
    /// The endpoint answered with a status outside the success range.
    Api { status: u16, body: String },
    /// The request did not get an answer (DNS, TLS, connection, timeout).
    Transport { reason: String },
}

/// Settings of one run, gathered once at start.
#[derive(Debug)]
pub struct Config {
    pub webhook_url: String,
    pub title: String,
}

impl Config {
    /// Builds the settings from the optional values found at start: the
    /// webhook URL is required, the title falls back to "Test Results".
    pub fn from_values(webhook_url: Option<String>, title: Option<String>) -> (r: Result<
        Config,
        NotifyError,
    >)
        ensures
            webhook_url is None <==> r is Err,
            r is Err ==> r->Err_0 is MissingWebhookUrl,
            r is Ok ==> r->Ok_0.webhook_url == webhook_url->Some_0,
            r is Ok && title is Some ==> r->Ok_0.title == title->Some_0,
            r is Ok && title is None ==> r->Ok_0.title@ == default_title(),
    {
        match webhook_url {
            None => Err(NotifyError::MissingWebhookUrl),
            Some(url) => {
                let title = match title {
                    Some(t) => t,
                    None => {
                        let t = String::from_str("Test Results");
                        proof {
                            reveal_strlit("Test Results");
                            assert(t@ =~= default_title());
                        }
                        t
                    },
                };
                Ok(Config { webhook_url: url, title })
            },
        }
    }
}

/// The body of the webhook request: one text field.
#[derive(Debug)]
pub struct SlackMessage {
    pub text: String,
}

/// What the run does once the report is read.
#[derive(Debug)]
pub enum RunPlan {
    /// Nothing failed: report success, send nothing.
    AllPassed,
    /// Post this message to the webhook.
    Notify(SlackMessage),
}

/// Collects the failing cases of `suites` and decides: no failure means
/// success without a request; otherwise the rendered message is to be sent.
pub fn plan_run(config: &Config, suites: &Vec<TestSuite>) -> (r: RunPlan)
    ensures
        r is AllPassed <==> failures_of_suites(suites@).len() == 0,
        r is Notify ==> r->Notify_0.text@ == slack_text(config.title@, failures_of_suites(suites@)),
{
    let mut failed: Vec<TestCase> = Vec::new();
    collect_failed_tests(suites, &mut failed);
    assert(failed@ =~= failures_of_suites(suites@));
    if failed.len() == 0 {
        RunPlan::AllPassed
    } else {
        let text = format_slack_message(&failed, config.title.as_str());
        RunPlan::Notify(SlackMessage { text })
    }
}

/// What came back from posting the message.
#[derive(Debug)]
pub enum Reply {
    /// The endpoint answered with this status and body.
    Response { status: u16, body: String },
    /// No answer came; the transport's description of why.
    Transport { reason: String },
}

/// A status in the success range 200..=299.
pub open spec fn is_success_status(status: u16) -> bool {
    200 <= status <= 299
}

/// Whether `status` is in the success range.
pub fn status_is_success(status: u16) -> (r: bool)
    ensures
        r == is_success_status(status),
{
    200 <= status && status <= 299
}

/// Success for a 2xx answer; otherwise an error that carries the answer's
/// body or the transport's reason.
pub open spec fn reply_outcome(reply: Reply) -> Result<(), NotifyError> {
    match reply {
        Reply::Response { status, body } => if is_success_status(status) {
            Ok(())
        } else {
            Err(NotifyError::Api { status, body })
        },
        Reply::Transport { reason } => Err(NotifyError::Transport { reason }),
    }
}

/// Reads the outcome of a delivery.
pub fn interpret_reply(reply: Reply) -> (r: Result<(), NotifyError>)
    ensures
        r == reply_outcome(reply),
{
    match reply {
        Reply::Response { status, body } => {
            if status_is_success(status) {
                Ok(())
            } else {
                Err(NotifyError::Api { status, body })
            }
        },
        Reply::Transport { reason } => Err(NotifyError::Transport { reason }),
    }
}

} // verus!
