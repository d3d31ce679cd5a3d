//! The notification request and the decision taken on the options given.
use vstd::prelude::*;
use crate::seconds::{is_seconds, seconds_value, parse_seconds};

verus! {

/// What to show, and after how many seconds.
#[derive(Debug, Clone, PartialEq, Eq)]
pub struct NotificationRequest {
    pub delay: u64,
    pub title: String,
    pub message: String,
    pub icon: String,
}

/// The values of the recognised options, as the command line gave them:
/// `help` is whether the help flag was present; the others hold the text of
/// their option, when it was given.
#[derive(Debug, Clone, PartialEq, Eq)]
pub struct OptionValues {
    pub help: bool,
    pub delay: Option<String>,
    pub title: Option<String>,
    pub message: Option<String>,
    pub icon: Option<String>,
}

/// Why the command line could not be parsed against the recognised options.
#[derive(Debug, Clone, PartialEq, Eq)]
pub enum ParseFailure {
    /// An option that takes a value was given none.
    ArgumentMissing(String),
    /// An option that is not recognised.
    UnrecognizedOption(String),
    /// A required option is absent.
    OptionMissing(String),
    /// An option was given more than once.
    OptionDuplicated(String),
    /// A flag was given a value.
    UnexpectedArgument(String),
}

/// A command line that cannot be acted on.
#[derive(Debug, Clone, PartialEq, Eq)]
pub enum ArgumentError {
    /// The flags do not fit the recognised options.
    Malformed(ParseFailure),
    /// The delay is not a whole number of seconds that fits in 64 bits.
    BadDelay(String),
}

/// The text of an optional value, empty when it is absent.
pub open spec fn text_or_empty(o: Option<String>) -> Seq<char> {
    match o {
        Some(s) => s@,
        None => Seq::empty(),
    }
}

/// Usage is shown, and nothing sent, when help is asked for or no message is
/// given: a request needs a message that is not empty.
pub open spec fn wants_usage(v: OptionValues) -> bool {
    v.help || text_or_empty(v.message).len() == 0
}

/// The request holds the options' texts, absent ones empty, and the given delay.
pub open spec fn carries(q: NotificationRequest, v: OptionValues, delay: nat) -> bool {
    &&& q.delay as nat == delay
    &&& q.title@ == text_or_empty(v.title)
    &&& q.message@ == text_or_empty(v.message)
    &&& q.icon@ == text_or_empty(v.icon)
}

/// What the options decide: `Ok(None)` for usage, `Ok(Some(q))` for a request,
/// `Err` for a delay that is not a number of seconds.
pub open spec fn decided(v: OptionValues, r: Result<Option<NotificationRequest>, ArgumentError>) -> bool {
    if wants_usage(v) {
        r is Ok && r->Ok_0 is None
    } else {
        match v.delay {
            None => r is Ok && r->Ok_0 is Some && carries(r->Ok_0->Some_0, v, 0),
            Some(s) => if is_seconds(s@) {
                r is Ok && r->Ok_0 is Some && carries(r->Ok_0->Some_0, v, seconds_value(s@))
            } else {
                r is Err && r->Err_0 is BadDelay && r->Err_0->BadDelay_0@ == s@
            },
        }
    }
}

fn text_or_default(o: Option<String>) -> (r: String)
    ensures
        r@ == text_or_empty(o),
{
    match o {
        Some(s) => s,
        None => String::new(),
    }
}

/// Decides what the options ask for. Help, or a missing or empty message,
/// means usage whatever else was given; otherwise the request is built, the delay read as
/// seconds (zero when absent) and absent texts left empty.
pub fn decide(v: OptionValues) -> (r: Result<Option<NotificationRequest>, ArgumentError>)
    ensures
        decided(v, r),
{
    let no_message = match &v.message {
        None => true,
        Some(m) => m.as_str().is_empty(),
    };
    if v.help || no_message {
        return Ok(None);
    }
    let ghost v0 = v;
    let OptionValues { help, delay, title, message, icon } = v;
    let secs: u64 = match delay {
        None => 0,
        Some(s) => match parse_seconds(s.as_str()) {
            Some(n) => n,
            None => {
                return Err(ArgumentError::BadDelay(s));
            },
        },
    };
    let q = NotificationRequest {
        delay: secs,
        title: text_or_default(title),
        message: text_or_default(message),
        icon: text_or_default(icon),
    };
    assert(carries(q, v0, secs as nat));
    Ok(Some(q))
}

} // verus!
