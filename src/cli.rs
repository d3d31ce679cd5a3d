//! Reading the command line with getopts into a request, or into usage.
use vstd::prelude::*;
use vstd::string::*;
use crate::request::{
    ArgumentError, NotificationRequest, OptionValues, ParseFailure, decide, decided, wants_usage,
};

verus! {

#[verifier::external_type_specification]
#[verifier::external_body]
pub struct ExOptions(getopts::Options);

#[verifier::external_type_specification]
#[verifier::external_body]
pub struct ExMatches(getopts::Matches);

/// The options of a set of getopts options, in the order they were added:
/// short name, long name, description, value hint, and whether it takes a value.
pub uninterp spec fn option_table(o: getopts::Options) -> Seq<(Seq<char>, Seq<char>, Seq<char>, Seq<char>, bool)>;

/// The options are plain: the default parsing style, not long-only, and each
/// option optional and either a flag or one that requires a value.
pub uninterp spec fn plain_options(o: getopts::Options) -> bool;

/// What getopts' parse of `args` against plain options with this `table` matches, or
/// `None` where it fails. For each defined name it gives the occurrences of
/// its option in order, each with its value (`None` for a flag).
pub uninterp spec fn getopts_parse(
    table: Seq<(Seq<char>, Seq<char>, Seq<char>, Seq<char>, bool)>,
    args: Seq<Seq<char>>,
) -> Option<Map<Seq<char>, Seq<Option<Seq<char>>>>>;

/// The help text that getopts makes of plain options with this `table` under `brief`.
pub uninterp spec fn usage_of(
    table: Seq<(Seq<char>, Seq<char>, Seq<char>, Seq<char>, bool)>,
    brief: Seq<char>,
) -> Seq<char>;

/// What a getopts parse matched: for each defined name, the occurrences of its
/// option in order, each with its value (`None` for a flag).
pub uninterp spec fn matched_values(m: getopts::Matches) -> Map<Seq<char>, Seq<Option<Seq<char>>>>;

/// An option table: short name, long name, description, value hint, takes a value.
pub type OptionTable = Seq<(Seq<char>, Seq<char>, Seq<char>, Seq<char>, bool)>;

/// An ASCII letter or digit.
pub open spec fn is_alnum(c: char) -> bool {
    ('a' <= c && c <= 'z') || ('A' <= c && c <= 'Z') || ('0' <= c && c <= '9')
}

/// A short option name: one ASCII letter or digit.
pub open spec fn is_short_name(s: Seq<char>) -> bool {
    s.len() == 1 && is_alnum(s[0])
}

/// A long option name: two or more ASCII letters or digits.
pub open spec fn is_long_name(s: Seq<char>) -> bool {
    s.len() >= 2 && forall|j: int| 0 <= j < s.len() ==> is_alnum(#[trigger] s[j])
}

/// Every option of the table has a short and a long name.
pub open spec fn well_named(t: OptionTable) -> bool {
    forall|i: int| 0 <= i < t.len() ==> is_short_name((#[trigger] t[i]).0) && is_long_name(t[i].1)
}

/// The names, short and long, that a table defines.
pub open spec fn table_names(t: OptionTable) -> Set<Seq<char>> {
    Set::new(|n: Seq<char>| exists|i: int| 0 <= i < t.len() && ((#[trigger] t[i]).0 == n || t[i].1 == n))
}

/// The text holds `p` somewhere.
pub open spec fn contains(text: Seq<char>, p: Seq<char>) -> bool {
    exists|k: int| 0 <= k && k + p.len() <= text.len() && #[trigger] text.subrange(k, k + p.len()) == p
}

/// The text begins with the given prefix.
pub open spec fn starts_with(text: Seq<char>, prefix: Seq<char>) -> bool {
    text.len() >= prefix.len() && text.subrange(0, prefix.len() as int) == prefix
}

/// The text names each long option of the table as `--name`.
pub open spec fn lists_long_names(text: Seq<char>, t: OptionTable) -> bool {
    forall|i: int| 0 <= i < t.len() && is_long_name((#[trigger] t[i]).1) ==> contains(text, "--"@ + t[i].1)
}

/// The views of the arguments.
pub open spec fn arg_views(args: Seq<String>) -> Seq<Seq<char>> {
    args.map_values(|s: String| s@)
}

/// Relies on getopts::Options::new: a blank set of options.
pub assume_specification[ getopts::Options::new ]() -> (r: getopts::Options)
    ensures
        option_table(r) == Seq::<(Seq<char>, Seq<char>, Seq<char>, Seq<char>, bool)>::empty(),
        plain_options(r),
;

/// Relies on getopts::Matches::opt_present: whether the option occurred.
/// It panics on a name that is not defined.
pub assume_specification[ getopts::Matches::opt_present ](m: &getopts::Matches, name: &str) -> (r: bool)
    requires
        matched_values(*m).contains_key(name@),
    ensures
        r == (matched_values(*m)[name@].len() > 0),
;

/// Relies on getopts::Matches::opt_str: the value of the option's first
/// occurrence, if it has one. It panics on a name that is not defined.
pub assume_specification[ getopts::Matches::opt_str ](m: &getopts::Matches, name: &str) -> (r: Option<String>)
    requires
        matched_values(*m).contains_key(name@),
    ensures
        text_view(r) == first_value(matched_values(*m)[name@]),
;

/// Relies on getopts::Options::usage: the brief, then a row for each option,
/// in which a long name appears as `--name` (plain options are not long-only).
pub assume_specification[ getopts::Options::usage ](o: &getopts::Options, brief: &str) -> (r: String)
    requires
        plain_options(*o),
    ensures
        r@ == usage_of(option_table(*o), brief@),
        starts_with(r@, brief@),
        lists_long_names(r@, option_table(*o)),
;

/// The view of an optional text.
pub open spec fn text_view(o: Option<String>) -> Option<Seq<char>> {
    match o {
        Some(s) => Some(s@),
        None => None,
    }
}

/// The value of the first occurrence, if there is one and it has a value.
pub open spec fn first_value(vs: Seq<Option<Seq<char>>>) -> Option<Seq<char>> {
    if vs.len() > 0 {
        vs[0]
    } else {
        None
    }
}

/// Relies on getopts::Options::optflag: appends a flag (no hint); it panics
/// unless the short name is one byte and the long one two or more.
#[verifier::external_body]
fn add_flag(o: &mut getopts::Options, short: &str, long: &str, desc: &str)
    requires
        is_short_name(short@),
        is_long_name(long@),
    ensures
        option_table(*final(o)) == option_table(*old(o)).push((short@, long@, desc@, Seq::<char>::empty(), false)),
        plain_options(*old(o)) ==> plain_options(*final(o)),
{
    o.optflag(short, long, desc);
}

/// Relies on getopts::Options::optopt: appends an option that takes a value,
/// with the same panics as for a flag.
#[verifier::external_body]
fn add_option(o: &mut getopts::Options, short: &str, long: &str, desc: &str, hint: &str)
    requires
        is_short_name(short@),
        is_long_name(long@),
    ensures
        option_table(*final(o)) == option_table(*old(o)).push((short@, long@, desc@, hint@, true)),
        plain_options(*old(o)) ==> plain_options(*final(o)),
{
    o.optopt(short, long, desc, hint);
}

/// Relies on getopts::Options::parse: on plain options it succeeds exactly
/// where the named parse does, and then matched what it names, under exactly
/// the names that the options define; a failure is told apart by its kind.
#[verifier::external_body]
fn parse_args(o: &getopts::Options, args: &Vec<String>) -> (r: Result<getopts::Matches, ParseFailure>)
    requires
        plain_options(*o),
        well_named(option_table(*o)),
    ensures
        (r is Ok) == (getopts_parse(option_table(*o), arg_views(args@)) is Some),
        r is Ok ==> matched_values(r->Ok_0) == getopts_parse(option_table(*o), arg_views(args@))->Some_0,
        r is Ok ==> matched_values(r->Ok_0).dom() == table_names(option_table(*o)),
{
    match o.parse(args) {
        Ok(m) => Ok(m),
        Err(getopts::Fail::ArgumentMissing(s)) => Err(ParseFailure::ArgumentMissing(s)),
        Err(getopts::Fail::UnrecognizedOption(s)) => Err(ParseFailure::UnrecognizedOption(s)),
        Err(getopts::Fail::OptionMissing(s)) => Err(ParseFailure::OptionMissing(s)),
        Err(getopts::Fail::OptionDuplicated(s)) => Err(ParseFailure::OptionDuplicated(s)),
        Err(getopts::Fail::UnexpectedArgument(s)) => Err(ParseFailure::UnexpectedArgument(s)),
    }
}

/// What the command line asks for.
#[derive(Debug, Clone, PartialEq, Eq)]
pub enum Invocation {
    /// Print this usage text and send nothing.
    ShowUsage(String),
    /// Send this notification.
    Send(NotificationRequest),
}

/// The recognised options: the help flag, then delay, title, message and
/// icon, which take a value.
pub open spec fn recognised_table() -> OptionTable {
    seq![
        ("h"@, "help"@, "Print this help menu"@, Seq::empty(), false),
        ("d"@, "delay"@, "How long the notification should be delayed"@, "SECONDS"@, true),
        ("t"@, "title"@, "The notification title"@, "TITLE"@, true),
        ("m"@, "message"@, "The notification message"@, "MESSAGE"@, true),
        ("i"@, "icon"@, "The notification icon"@, "ICON"@, true),
    ]
}

/// The first line of the usage text for a program name.
pub open spec fn usage_brief(prog: Seq<char>) -> Seq<char> {
    "Usage: "@ + prog + " [options]"@
}

/// The option values were read from what a parse matched: whether help
/// occurred, and the first value of each option that takes one.
pub open spec fn reads(v: OptionValues, mv: Map<Seq<char>, Seq<Option<Seq<char>>>>) -> bool {
    &&& v.help == (mv["help"@].len() > 0)
    &&& text_view(v.delay) == first_value(mv["delay"@])
    &&& text_view(v.title) == first_value(mv["title"@])
    &&& text_view(v.message) == first_value(mv["message"@])
    &&& text_view(v.icon) == first_value(mv["icon"@])
}

/// What a command line whose options hold `v` gives, for program name `prog`:
/// getopts' usage of the recognised options, or the decision on `v`.
pub open spec fn interpreted(v: OptionValues, prog: Seq<char>, r: Result<Invocation, ArgumentError>) -> bool {
    if wants_usage(v) {
        r is Ok && r->Ok_0 is ShowUsage
            && r->Ok_0->ShowUsage_0@ == usage_of(recognised_table(), usage_brief(prog))
            && starts_with(r->Ok_0->ShowUsage_0@, usage_brief(prog))
            && lists_long_names(r->Ok_0->ShowUsage_0@, recognised_table())
    } else {
        match r {
            Ok(Invocation::Send(q)) => decided(v, Ok(Some(q))),
            Ok(Invocation::ShowUsage(_)) => false,
            Err(e) => decided(v, Err(e)),
        }
    }
}

/// The recognised options, each with a short and a long name.
pub fn recognised_options() -> (o: getopts::Options)
    ensures
        option_table(o) == recognised_table(),
        well_named(option_table(o)),
        plain_options(o),
{
    proof {
        reveal_strlit("h");
        reveal_strlit("help");
        reveal_strlit("d");
        reveal_strlit("delay");
        reveal_strlit("t");
        reveal_strlit("title");
        reveal_strlit("m");
        reveal_strlit("message");
        reveal_strlit("i");
        reveal_strlit("icon");
    }
    let mut o = getopts::Options::new();
    add_flag(&mut o, "h", "help", "Print this help menu");
    add_option(&mut o, "d", "delay", "How long the notification should be delayed", "SECONDS");
    add_option(&mut o, "t", "title", "The notification title", "TITLE");
    add_option(&mut o, "m", "message", "The notification message", "MESSAGE");
    add_option(&mut o, "i", "icon", "The notification icon", "ICON");
    assert(option_table(o) =~= recognised_table());
    o
}

/// Reads the recognised options out of what a parse matched: whether help
/// occurred, and the first value of each option that takes one.
pub fn read_options(m: &getopts::Matches) -> (r: OptionValues)
    requires
        matched_values(*m).contains_key("help"@),
        matched_values(*m).contains_key("delay"@),
        matched_values(*m).contains_key("title"@),
        matched_values(*m).contains_key("message"@),
        matched_values(*m).contains_key("icon"@),
    ensures
        reads(r, matched_values(*m)),
{
    OptionValues {
        help: m.opt_present("help"),
        delay: m.opt_str("delay"),
        title: m.opt_str("title"),
        message: m.opt_str("message"),
        icon: m.opt_str("icon"),
    }
}

/// The usage text for a program name: getopts' help text under the brief
/// `Usage: <prog> [options]`, which lists every long option.
pub fn usage_text(o: &getopts::Options, prog: &str) -> (r: String)
    requires
        plain_options(*o),
    ensures
        r@ == usage_of(option_table(*o), usage_brief(prog@)),
        starts_with(r@, usage_brief(prog@)),
        lists_long_names(r@, option_table(*o)),
{
    let mut brief = String::from_str("Usage: ");
    brief.append(prog);
    brief.append(" [options]");
    o.usage(brief.as_str())
}

/// Interprets a command line whose first element is the program name. It
/// fails exactly when getopts cannot parse it against the recognised options;
/// otherwise it gives usage when help is asked for or no message is given,
/// whatever else was given, and else the request, or the error on a bad delay.
pub fn interpret(args: &Vec<String>) -> (r: Result<Invocation, ArgumentError>)
    requires
        args@.len() > 0,
    ensures
        match getopts_parse(recognised_table(), arg_views(args@)) {
            None => r is Err && r->Err_0 is Malformed,
            Some(mv) => exists|v: OptionValues| reads(v, mv) && #[trigger] interpreted(v, args@[0]@, r),
        },
{
    let o = recognised_options();
    let m = match parse_args(&o, args) {
        Ok(m) => m,
        Err(f) => {
            return Err(ArgumentError::Malformed(f));
        },
    };
    proof {
        let t = recognised_table();
        assert(t[0].1 == "help"@);
        assert(t[1].1 == "delay"@);
        assert(t[2].1 == "title"@);
        assert(t[3].1 == "message"@);
        assert(t[4].1 == "icon"@);
        assert(table_names(t).contains("help"@));
        assert(table_names(t).contains("delay"@));
        assert(table_names(t).contains("title"@));
        assert(table_names(t).contains("message"@));
        assert(table_names(t).contains("icon"@));
    }
    let v = read_options(&m);
    let ghost gv = v;
    let r = match decide(v) {
        Ok(None) => Ok(Invocation::ShowUsage(usage_text(&o, args[0].as_str()))),
        Ok(Some(q)) => Ok(Invocation::Send(q)),
        Err(e) => Err(e),
    };
    assert(interpreted(gv, args@[0]@, r));
    r
}

} // verus!
