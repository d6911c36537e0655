use vstd::prelude::*;
use crate::switch::{model_key, names_ok, SwitchCommon, SwitchModel, SwitchShape, Switches};

verus! {

#[verifier::external_type_specification]
#[verifier::external_body]
pub struct ExOptions(getopts::Options);

#[verifier::external_type_specification]
#[verifier::external_body]
pub struct ExMatches(getopts::Matches);

#[verifier::external_type_specification]
#[verifier::external_body]
pub struct ExFail(getopts::Fail);

/// For each name that can be looked up, one entry per occurrence on the
/// command line, holding the value given to it, if any.
pub type MatchTable = Map<Seq<char>, Seq<Option<Seq<char>>>>;

/// The switches registered on a set of options, in order.
pub uninterp spec fn options_registered(o: getopts::Options) -> Seq<SwitchModel>;

/// What a parse recorded, by name.
pub uninterp spec fn matched(m: getopts::Matches) -> MatchTable;

/// Whether a set of options still has the default parsing style and is not in
/// long-only mode.
pub uninterp spec fn plain_style(o: getopts::Options) -> bool;

/// The table that parsing `args` against `switches` yields, with the default
/// parsing style and without long-only mode, or `None` where the argument list
/// is refused.
pub uninterp spec fn parsed(switches: Seq<SwitchModel>, args: Seq<Seq<char>>) -> Option<MatchTable>;

/// The rows of help text that describe `switches`, one per switch, joined
/// by line breaks, as written without long-only mode.
pub uninterp spec fn usage_rows(switches: Seq<SwitchModel>) -> Seq<char>;

/// The whole help text: the first line `brief`, a blank line, a heading and
/// the rows.
pub open spec fn usage_text(switches: Seq<SwitchModel>, brief: Seq<char>) -> Seq<char> {
    brief + "\n\nOptions:\n"@ + usage_rows(switches) + "\n"@
}

/// Every switch of `s` has names that the engine accepts.
pub open spec fn all_names_ok(s: Seq<SwitchModel>) -> bool {
    forall|i: int| 0 <= i < s.len() ==> names_ok(#[trigger] s[i].0, s[i].1)
}

/// Every switch of `s` can be looked up in `t` by its key.
pub open spec fn defines_all(t: MatchTable, s: Seq<SwitchModel>) -> bool {
    forall|i: int| 0 <= i < s.len() ==> t.contains_key(model_key(#[trigger] s[i]))
}

pub proof fn lemma_defines_split(t: MatchTable, a: Seq<SwitchModel>, b: Seq<SwitchModel>)
    requires
        defines_all(t, a + b),
    ensures
        defines_all(t, a),
        defines_all(t, b),
{
    assert forall|i: int| 0 <= i < a.len() implies t.contains_key(model_key(#[trigger] a[i])) by {
        assert((a + b)[i] == a[i]);
    }
    assert forall|i: int| 0 <= i < b.len() implies t.contains_key(model_key(#[trigger] b[i])) by {
        assert((a + b)[a.len() + i] == b[i]);
    }
}

/// Whether the switch looked up as `key` occurred.
pub open spec fn present(t: MatchTable, key: Seq<char>) -> bool {
    t[key].len() > 0
}

/// The value given to the first occurrence of the switch looked up as `key`.
pub open spec fn value_of(t: MatchTable, key: Seq<char>) -> Option<Seq<char>> {
    if t[key].len() > 0 {
        t[key][0]
    } else {
        None
    }
}

pub open spec fn string_opt_view(o: Option<String>) -> Option<Seq<char>> {
    match o {
        Some(s) => Some(s@),
        None => None,
    }
}

pub open spec fn args_view(args: &[&str]) -> Seq<Seq<char>> {
    args@.map_values(|a: &str| a@)
}

/// Relies on getopts::Options::new: a blank set of options with the default
/// parsing style, not in long-only mode.
pub assume_specification[ getopts::Options::new ]() -> (r: getopts::Options)
    ensures
        options_registered(r) == Seq::<SwitchModel>::empty(),
        plain_style(r),
;

/// Relies on getopts::Options::optflag: it appends one flag with these names
/// and description, and panics on names outside `names_ok`.
#[verifier::external_body]
fn add_flag(o: &mut getopts::Options, short: &str, long: &str, doc: &str)
    requires
        names_ok(short@, long@),
    ensures
        options_registered(*final(o)) == options_registered(*old(o)).push(
            (short@, long@, doc@, None),
        ),
        plain_style(*final(o)) == plain_style(*old(o)),
{
    o.optflag(short, long, doc);
}

/// Relies on getopts::Options::optopt: it appends one value-taking switch with
/// these names, description and hint, and panics on names outside `names_ok`.
#[verifier::external_body]
fn add_opt(o: &mut getopts::Options, short: &str, long: &str, doc: &str, hint: &str)
    requires
        names_ok(short@, long@),
    ensures
        options_registered(*final(o)) == options_registered(*old(o)).push(
            (short@, long@, doc@, Some(hint@)),
        ),
        plain_style(*final(o)) == plain_style(*old(o)),
{
    o.optopt(short, long, doc, hint);
}

/// Relies on getopts::Options::parse: with the default parsing style and
/// without long-only mode, the outcome depends on the registered switches and
/// the arguments alone, and on success every registered switch can be looked
/// up by its key. It panics on a switch with neither name.
#[verifier::external_body]
fn parse_args(o: &getopts::Options, args: &[&str]) -> (r: Result<getopts::Matches, getopts::Fail>)
    requires
        all_names_ok(options_registered(*o)),
        plain_style(*o),
    ensures
        r is Ok <==> parsed(options_registered(*o), args_view(args)) is Some,
        r matches Ok(m) ==> Some(matched(m)) == parsed(options_registered(*o), args_view(args)),
        r matches Ok(m) ==> defines_all(matched(m), options_registered(*o)),
{
    o.parse(args)
}

/// Relies on getopts::Matches::opt_present: whether the switch looked up as
/// `name` occurred; it panics on a name that was not defined.
#[verifier::external_body]
fn is_present(m: &getopts::Matches, name: &str) -> (r: bool)
    requires
        matched(*m).contains_key(name@),
    ensures
        r == present(matched(*m), name@),
{
    m.opt_present(name)
}

/// Relies on getopts::Matches::opt_str: the value given to the first
/// occurrence of the switch looked up as `name`; it panics on a name that was
/// not defined.
#[verifier::external_body]
fn value_given(m: &getopts::Matches, name: &str) -> (r: Option<String>)
    requires
        matched(*m).contains_key(name@),
    ensures
        string_opt_view(r) == value_of(matched(*m), name@),
{
    m.opt_str(name)
}

/// Relies on getopts::Options::usage: the first line `brief`, a blank line,
/// the heading `Options:`, the rows for the registered switches and a final
/// line break; the rows depend on the switches alone outside long-only mode.
/// It panics on a short name longer than one byte.
#[verifier::external_body]
fn usage_of(o: &getopts::Options, brief: &str) -> (r: String)
    requires
        all_names_ok(options_registered(*o)),
        plain_style(*o),
    ensures
        r@ == brief@ + "\n\nOptions:\n"@ + usage_rows(options_registered(*o)) + "\n"@,
{
    o.usage(brief)
}

impl Switches for getopts::Options {
    open spec fn registered(&self) -> Seq<SwitchModel> {
        options_registered(*self)
    }

    open spec fn accepts(short: Seq<char>, long: Seq<char>) -> bool {
        names_ok(short, long)
    }

    open spec fn plain(&self) -> bool {
        plain_style(*self)
    }

    fn add(&mut self, common: SwitchCommon, shape: SwitchShape) {
        match shape {
            SwitchShape::Flag => {
                add_flag(self, common.short.as_str(), common.long.as_str(), common.doc.as_str());
            },
            SwitchShape::Opt { hint } => {
                add_opt(
                    self,
                    common.short.as_str(),
                    common.long.as_str(),
                    common.doc.as_str(),
                    hint.as_str(),
                );
            },
        }
    }
}

/// Looks up a flag.
pub(crate) fn flag_present(m: &getopts::Matches, common: &SwitchCommon) -> (r: bool)
    requires
        matched(*m).contains_key(common.key()),
    ensures
        r == present(matched(*m), common.key()),
{
    is_present(m, common.key_to_search_in_matches())
}

/// Looks up the value of a value-taking switch.
pub(crate) fn option_value(m: &getopts::Matches, common: &SwitchCommon) -> (r: Option<String>)
    requires
        matched(*m).contains_key(common.key()),
    ensures
        string_opt_view(r) == value_of(matched(*m), common.key()),
{
    value_given(m, common.key_to_search_in_matches())
}

/// Registers nothing yet: the options that a parse starts from.
pub(crate) fn blank_options() -> (r: getopts::Options)
    ensures
        r.registered() == Seq::<SwitchModel>::empty(),
        r.plain(),
{
    getopts::Options::new()
}

/// Runs the matching engine over `args`.
pub(crate) fn run_parse(o: &getopts::Options, args: &[&str]) -> (r: Result<getopts::Matches, getopts::Fail>)
    requires
        all_names_ok(o.registered()),
        o.plain(),
    ensures
        r is Ok <==> parsed(o.registered(), args_view(args)) is Some,
        r matches Ok(m) ==> Some(matched(m)) == parsed(o.registered(), args_view(args)),
        r matches Ok(m) ==> defines_all(matched(m), o.registered()),
{
    parse_args(o, args)
}

/// The error of a whole parse: the engine refused the argument list, or the
/// descriptor tree failed to extract its value.
#[derive(Debug)]
pub enum TopLevelError<E> {
    Getopts(getopts::Fail),
    Other(E),
}

/// The registered switches and the program name, from which help text is made.
pub struct Usage {
    pub(crate) opts: getopts::Options,
    pub(crate) program_name: String,
}

impl Usage {
    pub fn new(opts: getopts::Options, program_name: String) -> (r: Self)
        requires
            all_names_ok(options_registered(opts)),
            plain_style(opts),
        ensures
            r.switches() == options_registered(opts),
            r.program() == program_name@,
            r.renderable(),
    {
        Usage { opts, program_name }
    }

    /// The switches have names that the help text can show, and the options
    /// have their default settings.
    pub closed spec fn renderable(&self) -> bool {
        all_names_ok(options_registered(self.opts)) && plain_style(self.opts)
    }

    pub closed spec fn switches(&self) -> Seq<SwitchModel> {
        options_registered(self.opts)
    }

    pub closed spec fn program(&self) -> Seq<char> {
        self.program_name@
    }

    /// The first line of the help text.
    pub open spec fn brief(program: Seq<char>) -> Seq<char> {
        "Usage: "@ + program + " [options]"@
    }

    pub fn render(&self) -> (r: String)
        requires
            self.renderable(),
        ensures
            r@ == usage_text(self.switches(), Self::brief(self.program())),
    {
        let brief = String::from_str("Usage: ");
        let brief = brief.concat(self.program_name.as_str());
        let brief = brief.concat(" [options]");
        usage_of(&self.opts, brief.as_str())
    }
}

/// The outcome of one parse: the help material and the typed result.
pub struct ParseResult<I, E> {
    pub usage: Usage,
    pub result: Result<I, TopLevelError<E>>,
}

} // verus!
