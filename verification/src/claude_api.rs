//! The advisor's client side: its errors, the retry policy, and the framing
//! of its answers. Sending a request is left to the caller; everything that
//! is decided about a request or an answer is decided here.

use crate::text::{
    blank, chars_of, decimal, find_from, find_in, is_blank, lemma_find_from, push_decimal,
    trim_bounds, trimmed,
};
use vstd::prelude::*;
use vstd::string::*;

verus! {

/// Why a request to the advisor failed.
#[derive(Debug, PartialEq, Eq)]
pub enum ClaudeApiError {
    Transport(String),
    Timeout,
    Http { status: u16, body: String },
    RateLimited,
    InvalidApiKey,
    Serde(String),
    MissingApiKey,
}

/// The mathematical value of a [`ClaudeApiError`].
#[verifier::ext_equal]
pub enum ClaudeApiErrorView {
    Transport(Seq<char>),
    Timeout,
    Http { status: u16, body: Seq<char> },
    RateLimited,
    InvalidApiKey,
    Serde(Seq<char>),
    MissingApiKey,
}

impl ClaudeApiErrorView {
    /// The failure is transient: a later attempt may succeed.
    pub open spec fn should_retry(self) -> bool {
        match self {
            ClaudeApiErrorView::Transport(_) => true,
            ClaudeApiErrorView::Timeout => true,
            ClaudeApiErrorView::RateLimited => true,
            ClaudeApiErrorView::Http { status, body } => 500 <= status <= 599,
            _ => false,
        }
    }

    /// The error as a line of text.
    pub open spec fn message(self) -> Seq<char> {
        match self {
            ClaudeApiErrorView::Transport(m) => "network error: "@ + m,
            ClaudeApiErrorView::Timeout => "timeout"@,
            ClaudeApiErrorView::Http { status, body } => "http "@ + decimal(status as int) + ": "@
                + body,
            ClaudeApiErrorView::RateLimited => "rate limited"@,
            ClaudeApiErrorView::InvalidApiKey => "invalid api key"@,
            ClaudeApiErrorView::Serde(m) => "json error: "@ + m,
            ClaudeApiErrorView::MissingApiKey =>
                "missing api key: ANTHROPIC_API_KEY environment variable not set"@,
        }
    }
}

impl DeepView for ClaudeApiError {
    type V = ClaudeApiErrorView;

    open spec fn deep_view(&self) -> ClaudeApiErrorView {
        match self {
            ClaudeApiError::Transport(m) => ClaudeApiErrorView::Transport(m@),
            ClaudeApiError::Timeout => ClaudeApiErrorView::Timeout,
            ClaudeApiError::Http { status, body } => ClaudeApiErrorView::Http {
                status: *status,
                body: body@,
            },
            ClaudeApiError::RateLimited => ClaudeApiErrorView::RateLimited,
            ClaudeApiError::InvalidApiKey => ClaudeApiErrorView::InvalidApiKey,
            ClaudeApiError::Serde(m) => ClaudeApiErrorView::Serde(m@),
            ClaudeApiError::MissingApiKey => ClaudeApiErrorView::MissingApiKey,
        }
    }
}

impl View for ClaudeApiError {
    type V = ClaudeApiErrorView;

    open spec fn view(&self) -> ClaudeApiErrorView {
        self.deep_view()
    }
}

impl Clone for ClaudeApiError {
    fn clone(&self) -> (r: Self)
        ensures
            r@ == self@,
    {
        match self {
            ClaudeApiError::Transport(m) => ClaudeApiError::Transport(m.clone()),
            ClaudeApiError::Timeout => ClaudeApiError::Timeout,
            ClaudeApiError::Http { status, body } => ClaudeApiError::Http {
                status: *status,
                body: body.clone(),
            },
            ClaudeApiError::RateLimited => ClaudeApiError::RateLimited,
            ClaudeApiError::InvalidApiKey => ClaudeApiError::InvalidApiKey,
            ClaudeApiError::Serde(m) => ClaudeApiError::Serde(m.clone()),
            ClaudeApiError::MissingApiKey => ClaudeApiError::MissingApiKey,
        }
    }
}

impl ClaudeApiError {
    /// Returns true if the error is transient and should be retried.
    pub fn should_retry(&self) -> (r: bool)
        ensures
            r == self@.should_retry(),
    {
        match self {
            ClaudeApiError::Transport(_) | ClaudeApiError::Timeout | ClaudeApiError::RateLimited => true,
            ClaudeApiError::Http { status, .. } => 500 <= *status && *status <= 599,
            _ => false,
        }
    }

    /// The error as a line of text.
    pub fn message(&self) -> (r: String)
        ensures
            r@ == self@.message(),
    {
        match self {
            ClaudeApiError::Transport(m) => String::from_str("network error: ").concat(m.as_str()),
            ClaudeApiError::Timeout => String::from_str("timeout"),
            ClaudeApiError::Http { status, body } => {
                let mut out = String::from_str("http ");
                push_decimal(&mut out, *status as i128);
                out.append(": ");
                out.append(body.as_str());
                out
            },
            ClaudeApiError::RateLimited => String::from_str("rate limited"),
            ClaudeApiError::InvalidApiKey => String::from_str("invalid api key"),
            ClaudeApiError::Serde(m) => String::from_str("json error: ").concat(m.as_str()),
            ClaudeApiError::MissingApiKey => String::from_str(
                "missing api key: ANTHROPIC_API_KEY environment variable not set",
            ),
        }
    }

    /// The error for a request that never got an answer: a timeout if the
    /// transport says so, else a transport failure with its message.
    pub fn from_transport(timed_out: bool, message: String) -> (r: Self)
        ensures
            r@ == if timed_out {
                ClaudeApiErrorView::Timeout
            } else {
                ClaudeApiErrorView::Transport(message@)
            },
    {
        if timed_out {
            ClaudeApiError::Timeout
        } else {
            ClaudeApiError::Transport(message)
        }
    }
}

/// What an HTTP answer means: a body to decode on a success status, else the
/// error for the status.
pub open spec fn classify(status: u16, body: Seq<char>) -> Result<Seq<char>, ClaudeApiErrorView> {
    if 200 <= status <= 299 {
        Ok(body)
    } else if status == 401 {
        Err(ClaudeApiErrorView::InvalidApiKey)
    } else if status == 429 {
        Err(ClaudeApiErrorView::RateLimited)
    } else {
        Err(ClaudeApiErrorView::Http { status, body })
    }
}

/// Says what an HTTP answer means.
pub fn classify_status(status: u16, body: String) -> (r: Result<String, ClaudeApiError>)
    ensures
        match r {
            Ok(b) => classify(status, body@) == Ok::<Seq<char>, ClaudeApiErrorView>(b@),
            Err(e) => classify(status, body@) == Err::<Seq<char>, ClaudeApiErrorView>(e@),
        },
{
    if 200 <= status && status <= 299 {
        Ok(body)
    } else if status == 401 {
        Err(ClaudeApiError::InvalidApiKey)
    } else if status == 429 {
        Err(ClaudeApiError::RateLimited)
    } else {
        Err(ClaudeApiError::Http { status, body })
    }
}

/// A message in the conversation.
#[derive(Debug, PartialEq, Eq)]
pub struct Message {
    pub role: String,
    pub content: String,
}

impl Message {
    /// A message of the user.
    pub fn user(content: &str) -> (r: Self)
        ensures
            r.role@ == "user"@,
            r.content@ == content@,
    {
        Message { role: String::from_str("user"), content: String::from_str(content) }
    }

    /// A message of the assistant.
    pub fn assistant(content: &str) -> (r: Self)
        ensures
            r.role@ == "assistant"@,
            r.content@ == content@,
    {
        Message { role: String::from_str("assistant"), content: String::from_str(content) }
    }
}

/// Content block in a response.
#[derive(Debug, PartialEq, Eq)]
pub enum ContentBlock {
    Text { text: String },
}

/// Token usage information.
#[derive(Debug, PartialEq, Eq)]
pub struct Usage {
    pub input_tokens: u32,
    pub output_tokens: u32,
}

/// Response from the advisor.
#[derive(Debug, PartialEq, Eq)]
pub struct ClaudeResponse {
    pub id: String,
    pub content: Vec<ContentBlock>,
    pub model: String,
    pub stop_reason: Option<String>,
    pub usage: Usage,
}

impl ClaudeResponse {
    /// The text of the first text block, if the response has one.
    pub open spec fn first_text(&self) -> Option<Seq<char>> {
        if self.content@.len() == 0 {
            None
        } else {
            Some(self.content@[0]->text@)
        }
    }

    /// Extract the text content from the response.
    pub fn text(&self) -> (r: Option<&str>)
        ensures
            r.deep_view() == self.first_text(),
    {
        if self.content.len() == 0 {
            None
        } else {
            match &self.content[0] {
                ContentBlock::Text { text } => Some(text.as_str()),
            }
        }
    }
}

/// The fence that opens and closes a code block.
pub open spec fn fence() -> Seq<char> {
    "```"@
}

/// The fence that opens a code block marked as JSON.
pub open spec fn json_fence() -> Seq<char> {
    "```json"@
}

/// The bounds within `t` of what stands between the first `open` and the
/// next fence after it, before trimming. With `skip_line`, what follows
/// `open` on its line (a language tag) does not belong to the content.
pub open spec fn fenced_bounds(t: Seq<char>, open: Seq<char>, skip_line: bool) -> Option<
    (int, int),
> {
    match find_from(t, open, 0) {
        None => None,
        Some(start) => {
            let after = start + open.len();
            let begin = if skip_line {
                match find_from(t, seq!['\n'], after) {
                    Some(nl) => nl + 1,
                    None => after,
                }
            } else {
                after
            };
            match find_from(t, fence(), begin) {
                Some(end) => Some((begin, end)),
                None => None,
            }
        },
    }
}

/// The JSON text inside an answer that may wrap it in a code block: the
/// trimmed content of the first block marked as JSON that is closed, else of
/// the first block that is closed, else the trimmed answer.
pub open spec fn json_slice(text: Seq<char>) -> Seq<char> {
    let t = trimmed(text);
    match fenced_bounds(t, json_fence(), false) {
        Some((a, b)) => trimmed(t.subrange(a, b)),
        None => match fenced_bounds(t, fence(), true) {
            Some((a, b)) => trimmed(t.subrange(a, b)),
            None => t,
        },
    }
}

fn find_fenced(t: &Vec<char>, open: &Vec<char>, skip_line: bool) -> (r: Option<(usize, usize)>)
    ensures
        match r {
            Some((a, b)) => a <= b <= t.len() && fenced_bounds(t@, open@, skip_line) == Some(
                (a as int, b as int),
            ),
            None => fenced_bounds(t@, open@, skip_line).is_none(),
        },
{
    let close = chars_of("```");
    let mut newline: Vec<char> = Vec::new();
    newline.push('\n');
    proof {
        assert(newline@ =~= seq!['\n']);
        lemma_find_from(t@, open@, 0);
    }
    match find_in(t, open, 0) {
        None => None,
        Some(start) => {
            let after = start + open.len();
            proof {
                lemma_find_from(t@, newline@, after as int);
            }
            let begin = if skip_line {
                match find_in(t, &newline, after) {
                    Some(nl) => nl + 1,
                    None => after,
                }
            } else {
                after
            };
            proof {
                lemma_find_from(t@, close@, begin as int);
            }
            match find_in(t, &close, begin) {
                Some(end) => Some((begin, end)),
                None => None,
            }
        },
    }
}

/// Extract JSON from a string that might contain markdown code blocks.
pub fn extract_json(text: &str) -> (r: &str)
    ensures
        r@ == json_slice(text@),
{
    let all = chars_of(text);
    let (a, b) = trim_bounds(&all, 0, all.len());
    proof {
        assert(all@.subrange(0, all.len() as int) =~= all@);
    }
    let outer = text.substring_char(a, b);
    let t = chars_of(outer);
    let json_open = chars_of("```json");
    let found = match find_fenced(&t, &json_open, false) {
        Some(bounds) => Some(bounds),
        None => {
            let open = chars_of("```");
            find_fenced(&t, &open, true)
        },
    };
    match found {
        Some((x, y)) => {
            let (c, d) = trim_bounds(&t, x, y);
            outer.substring_char(c, d)
        },
        None => outer,
    }
}


/// An error of the kind raised for an answer that cannot be read.
pub open spec fn unreadable(reason: Seq<char>) -> ClaudeApiErrorView {
    ClaudeApiErrorView::Serde(reason)
}

/// The JSON text of an answer, or why the answer holds none: it is blank,
/// or what is left after unwrapping is blank.
pub open spec fn payload(answer: Seq<char>) -> Result<Seq<char>, ClaudeApiErrorView> {
    if is_blank(answer) {
        Err(unreadable("Empty response from the advisor"@))
    } else if is_blank(json_slice(answer)) {
        Err(unreadable("Could not extract JSON from response: "@ + answer))
    } else {
        Ok(json_slice(answer))
    }
}

/// Frames the JSON text of an answer, ready to be decoded.
pub fn json_payload(answer: &str) -> (r: Result<&str, ClaudeApiError>)
    ensures
        match r {
            Ok(json) => payload(answer@) == Ok::<Seq<char>, ClaudeApiErrorView>(json@),
            Err(e) => payload(answer@) == Err::<Seq<char>, ClaudeApiErrorView>(e@),
        },
{
    if blank(answer) {
        return Err(ClaudeApiError::Serde(String::from_str("Empty response from the advisor")));
    }
    let json = extract_json(answer);
    if blank(json) {
        return Err(
            ClaudeApiError::Serde(
                String::from_str("Could not extract JSON from response: ").concat(answer),
            ),
        );
    }
    Ok(json)
}

/// How many characters of a payload an error message quotes.
pub const PREVIEW_CHARS: usize = 500;

/// The first `PREVIEW_CHARS` characters of `json`.
pub open spec fn preview(json: Seq<char>) -> Seq<char> {
    if json.len() <= PREVIEW_CHARS {
        json
    } else {
        json.take(PREVIEW_CHARS as int)
    }
}

/// The error for a payload that a decoder refused for `reason`.
pub fn decode_failure(reason: &str, json: &str) -> (r: ClaudeApiError)
    ensures
        r@ == unreadable(reason@ + " (response preview: "@ + preview(json@) + ")"@),
{
    let n = json.unicode_len();
    let shown = if n <= PREVIEW_CHARS {
        json
    } else {
        json.substring_char(0, PREVIEW_CHARS)
    };
    let mut out = String::from_str(reason);
    out.append(" (response preview: ");
    out.append(shown);
    out.append(")");
    ClaudeApiError::Serde(out)
}

/// The text of a response, or the error for a response without text.
pub fn response_text(response: &ClaudeResponse) -> (r: Result<String, ClaudeApiError>)
    ensures
        match r {
            Ok(t) => response.first_text() == Some(t@),
            Err(e) => response.first_text().is_none() && e@ == unreadable(
                "No text content in response"@,
            ),
        },
{
    match response.text() {
        Some(t) => Ok(String::from_str(t)),
        None => Err(ClaudeApiError::Serde(String::from_str("No text content in response"))),
    }
}

/// How failed requests are repeated: with exponentially growing, jittered
/// delays, a bounded number of times, and only after transient failures.
#[derive(Debug, Clone, Copy, PartialEq, Eq, Structural)]
pub struct RetryPolicy {
    /// The first delay, in milliseconds.
    pub min_delay_ms: u32,
    /// The bound on a delay before jitter, in milliseconds.
    pub max_delay_ms: u32,
    /// How many times a request is repeated at most.
    pub max_times: u8,
}

/// What to do after a failed request.
#[derive(Debug, Clone, Copy, PartialEq, Eq, Structural)]
pub enum RetryDecision {
    /// Send the request again after this many milliseconds.
    RetryAfter { delay_ms: u64 },
    /// Report the failure.
    GiveUp,
}

/// The smaller of the two bounds of a policy: no delay is shorter.
pub open spec fn least_delay(policy: RetryPolicy) -> int {
    if policy.min_delay_ms <= policy.max_delay_ms {
        policy.min_delay_ms as int
    } else {
        policy.max_delay_ms as int
    }
}

/// The larger of the two bounds of a policy: no delay is longer before
/// jitter, nor longer than twice this after.
pub open spec fn greatest_delay(policy: RetryPolicy) -> int {
    if policy.min_delay_ms <= policy.max_delay_ms {
        policy.max_delay_ms as int
    } else {
        policy.min_delay_ms as int
    }
}

/// The decision after the request has failed `failures + 1` times, the last
/// time with `error`, when `delays` are the delays still allowed in order.
pub open spec fn retry_decision(error: ClaudeApiErrorView, failures: int, delays: Seq<u64>) -> RetryDecision {
    if error.should_retry() && 0 <= failures < delays.len() {
        RetryDecision::RetryAfter { delay_ms: delays[failures] }
    } else {
        RetryDecision::GiveUp
    }
}

/// Calls backon's `ExponentialBuilder` with jitter and the given bounds,
/// builds the backoff and collects the delays it yields, in milliseconds.
/// The jitter is random, so the contract says only what holds of every
/// outcome: there are `max_times` delays; none is shorter than the
/// smaller of the two bounds; and none is longer than twice the larger,
/// since a delay before jitter never exceeds the larger bound and the
/// jitter adds less than the delay itself.
#[verifier::external_body]
fn exponential_delays(min_delay_ms: u32, max_delay_ms: u32, max_times: u8) -> (r: Vec<u64>)
    ensures
        r@.len() == max_times,
        forall|i: int|
            0 <= i < r@.len() ==> #[trigger] r@[i] >= min_delay_ms || r@[i] >= max_delay_ms,
        forall|i: int|
            0 <= i < r@.len() ==> #[trigger] r@[i] <= 2 * min_delay_ms || r@[i] <= 2
                * max_delay_ms,
{
    let builder = backon::ExponentialBuilder::default()
        .with_jitter()
        .with_min_delay(std::time::Duration::from_millis(min_delay_ms as u64))
        .with_max_delay(std::time::Duration::from_millis(max_delay_ms as u64))
        .with_max_times(max_times as usize);
    backon::BackoffBuilder::build(builder).map(|d| d.as_millis() as u64).collect()
}

impl RetryPolicy {
    /// The policy for requests to the advisor: up to three repeats, from one
    /// second up to thirty.
    pub fn advisor() -> (r: RetryPolicy)
        ensures
            r == (RetryPolicy { min_delay_ms: 1000, max_delay_ms: 30000, max_times: 3 }),
    {
        RetryPolicy { min_delay_ms: 1000, max_delay_ms: 30000, max_times: 3 }
    }

    /// Draws the delays for one request: one for each repeat allowed.
    pub fn schedule(&self) -> (r: Vec<u64>)
        ensures
            r@.len() == self.max_times,
            forall|i: int|
                0 <= i < r@.len() ==> least_delay(*self) <= #[trigger] r@[i] <= 2
                    * greatest_delay(*self),
    {
        exponential_delays(self.min_delay_ms, self.max_delay_ms, self.max_times)
    }

    /// Decides what follows a failure, the `failures + 1`-th of a request.
    pub fn next_attempt(error: &ClaudeApiError, failures: usize, delays: &Vec<u64>) -> (r:
        RetryDecision)
        ensures
            r == retry_decision(error@, failures as int, delays@),
    {
        if error.should_retry() && failures < delays.len() {
            RetryDecision::RetryAfter { delay_ms: delays[failures] }
        } else {
            RetryDecision::GiveUp
        }
    }
}

/// A request is sent at most once more than the policy allows repeats, and
/// a failure that is not transient is never followed by another attempt.
pub proof fn lemma_attempts_are_bounded(
    policy: RetryPolicy,
    error: ClaudeApiErrorView,
    failures: int,
    delays: Seq<u64>,
)
    requires
        delays.len() == policy.max_times,
    ensures
        failures >= policy.max_times ==> retry_decision(error, failures, delays)
            == RetryDecision::GiveUp,
        !error.should_retry() ==> retry_decision(error, failures, delays) == RetryDecision::GiveUp,
{
}

} // verus!
