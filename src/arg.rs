use vstd::prelude::*;
use vstd::utf8::{is_ascii_chars, is_ascii_chars_encode_utf8};
use crate::combinators::{
    Both, Choice, MapValue, OptionConvertString, OptionMap, Required, WithDefault,
};
use crate::engine::{
    all_names_ok, args_view, blank_options, defines_all, flag_present, lemma_defines_split,
    matched, option_value, parsed, present, run_parse, string_opt_view,
    value_of, MatchTable, ParseResult, TopLevelError, Usage,
};
use crate::switch::{all_accepted, keys_of, lemma_accepted_split, model_of, names_ok, SwitchCommon, SwitchModel, SwitchShape, Switches};
use crate::validation::{repeated_keys, Checker, Invalid};

verus! {

/// The error of a descriptor that cannot fail. Its field is private, so
/// nothing outside this crate can make one, and nothing inside does.
#[derive(Debug)]
pub struct Never {
    unmade: (),
}

impl Never {
    /// The value of a result that is not an error.
    pub fn result_ok<T>(r: Result<T, Never>) -> (v: T)
        requires
            r is Ok,
        ensures
            r == Ok::<T, Never>(v),
    {
        r.unwrap()
    }
}

/// A descriptor of one logical command-line argument.
pub trait Arg: Sized {
    type Item;

    type Error;

    /// The switches that `update_switches` registers, in order.
    spec fn switches(&self) -> Seq<SwitchModel>;

    /// The name shown in error messages.
    spec fn title(&self) -> Seq<char>;

    /// Every function held can be called on any argument.
    spec fn ready(&self) -> bool;

    /// Whether extraction against table `t` may give `r`.
    spec fn outcome(&self, t: MatchTable, r: Result<Self::Item, Self::Error>) -> bool;

    fn update_switches<S: Switches>(&self, switches: &mut S)
        requires
            all_accepted::<S>(self.switches()),
        ensures
            final(switches).registered() == old(switches).registered() + self.switches(),
            final(switches).plain() == old(switches).plain(),
    ;

    fn name(&self) -> (r: String)
        ensures
            r@ == self.title(),
    ;

    fn get(self, matches: &getopts::Matches) -> (r: Result<Self::Item, Self::Error>)
        requires
            self.ready(),
            defines_all(matched(*matches), self.switches()),
        ensures
            self.outcome(matched(*matches), r),
    ;

    /// The keys that the tree registers more than once, or `None`.
    fn validate(&self) -> (r: Option<Invalid>)
        ensures
            r is None <==> repeated_keys(keys_of(self.switches())).len() == 0,
            r matches Some(inv) ==> inv.key_views() == repeated_keys(keys_of(self.switches())),
    {
        let mut checker = Checker::new();
        self.update_switches(&mut checker);
        assert(checker.registered() =~= self.switches());
        checker.invalid()
    }

    /// Registers the switches, parses `args` and extracts the value, without
    /// checking the tree for repeated keys first.
    fn parse_specified_ignoring_validation(self, program_name: String, args: &[&str]) -> (r:
        ParseResult<Self::Item, Self::Error>)
        requires
            self.ready(),
            all_names_ok(self.switches()),
        ensures
            r.usage.switches() == self.switches(),
            r.usage.program() == program_name@,
            r.usage.renderable(),
            match parsed(self.switches(), args_view(args)) {
                None => r.result matches Err(TopLevelError::Getopts(_)),
                Some(t) => match r.result {
                    Ok(x) => self.outcome(t, Ok(x)),
                    Err(TopLevelError::Other(e)) => self.outcome(t, Err(e)),
                    Err(TopLevelError::Getopts(_)) => false,
                },
            },
    {
        let mut opts = blank_options();
        assert(all_accepted::<getopts::Options>(self.switches()));
        self.update_switches(&mut opts);
        assert(opts.registered() =~= self.switches());
        let result = match run_parse(&opts, args) {
            Err(fail) => Err(TopLevelError::Getopts(fail)),
            Ok(m) => match self.get(&m) {
                Ok(x) => Ok(x),
                Err(e) => Err(TopLevelError::Other(e)),
            },
        };
        ParseResult { result, usage: Usage::new(opts, program_name) }
    }

    /// As `parse_specified_ignoring_validation`, for a tree in which no key
    /// is registered twice.
    fn parse_specified(self, program_name: String, args: &[&str]) -> (r: ParseResult<
        Self::Item,
        Self::Error,
    >)
        requires
            self.ready(),
            all_names_ok(self.switches()),
            repeated_keys(keys_of(self.switches())).len() == 0,
        ensures
            r.usage.switches() == self.switches(),
            r.usage.program() == program_name@,
            r.usage.renderable(),
            match parsed(self.switches(), args_view(args)) {
                None => r.result matches Err(TopLevelError::Getopts(_)),
                Some(t) => match r.result {
                    Ok(x) => self.outcome(t, Ok(x)),
                    Err(TopLevelError::Other(e)) => self.outcome(t, Err(e)),
                    Err(TopLevelError::Getopts(_)) => false,
                },
            },
    {
        self.parse_specified_ignoring_validation(program_name, args)
    }

    fn with_help(self, help_flag: Flag) -> (r: WithHelp<Self>)
        ensures
            r.arg == self,
            r.help_flag == help_flag,
    {
        WithHelp { arg: self, help_flag }
    }

    /// Adds the conventional `-h` / `--help` flag.
    fn with_help_default(self) -> (r: WithHelp<Self>)
        ensures
            r.arg == self,
            r.help_flag.common.short@ == "h"@,
            r.help_flag.common.long@ == "help"@,
            r.help_flag.common.doc@ == "print this help menu"@,
            names_ok(r.help_flag.common.short@, r.help_flag.common.long@),
    {
        let help_flag = Flag::new("h", "help", "print this help menu");
        proof {
            reveal_strlit("h");
            reveal_strlit("help");
            assert(is_ascii_chars("h"@));
            assert(is_ascii_chars("help"@));
            is_ascii_chars_encode_utf8("h"@);
            is_ascii_chars_encode_utf8("help"@);
        }
        self.with_help(help_flag)
    }

    fn option_map<F, T, U>(self, f: F) -> (r: OptionMap<Self, F>) where F: FnOnce(T) -> U
        ensures
            r.arg == self,
            r.f == f,
    {
        OptionMap { arg: self, f }
    }

    fn with_default<T>(self, default_value: T) -> (r: WithDefault<Self, T>)
        ensures
            r.arg == self,
            r.default_value == default_value,
    {
        WithDefault { arg: self, default_value }
    }

    fn choice<O>(self, other: O) -> (r: Choice<Self, O>)
        ensures
            r.a == self,
            r.b == other,
    {
        Choice { a: self, b: other }
    }

    fn both<O>(self, other: O) -> (r: Both<Self, O>)
        ensures
            r.a == self,
            r.b == other,
    {
        Both { a: self, b: other }
    }

    fn map<F, U>(self, f: F) -> (r: MapValue<Self, F>) where F: FnOnce(Self::Item) -> U
        ensures
            r.arg == self,
            r.f == f,
    {
        MapValue { arg: self, f }
    }

    fn required(self) -> (r: Required<Self>)
        ensures
            r.arg == self,
    {
        Required { arg: self }
    }

    fn option_convert_string<F, T, E>(self, f: F) -> (r: OptionConvertString<Self, F>) where
        F: FnOnce(&str) -> Result<T, E>,
        ensures
            r.arg == self,
            r.f == f,
    {
        OptionConvertString { arg: self, f }
    }
}

/// A switch without a value: whether it is present.
pub struct Flag {
    pub common: SwitchCommon,
}

impl Flag {
    pub fn new(short: &str, long: &str, doc: &str) -> (r: Self)
        ensures
            r.common.short@ == short@,
            r.common.long@ == long@,
            r.common.doc@ == doc@,
    {
        Self { common: SwitchCommon::new(short, long, doc) }
    }
}

impl Arg for Flag {
    type Item = bool;

    type Error = Never;

    open spec fn switches(&self) -> Seq<SwitchModel> {
        seq![model_of(self.common, SwitchShape::Flag)]
    }

    open spec fn title(&self) -> Seq<char> {
        self.common.long@
    }

    open spec fn ready(&self) -> bool {
        true
    }

    open spec fn outcome(&self, t: MatchTable, r: Result<bool, Never>) -> bool {
        r == Ok::<bool, Never>(present(t, self.common.key()))
    }

    fn update_switches<S: Switches>(&self, switches: &mut S) {
        assert(self.switches()[0] == model_of(self.common, SwitchShape::Flag));
        assert(S::accepts(self.switches()[0].0, self.switches()[0].1));
        let common = self.common.duplicate();
        switches.add(common, SwitchShape::Flag);
        assert(final(switches).registered() =~= old(switches).registered() + self.switches());
    }

    fn name(&self) -> (r: String) {
        self.common.long.clone()
    }

    fn get(self, matches: &getopts::Matches) -> (r: Result<bool, Never>) {
        assert(self.switches()[0] == model_of(self.common, SwitchShape::Flag));
        Ok(flag_present(matches, &self.common))
    }
}

/// A flag descriptor.
pub fn flag(short: &str, long: &str, doc: &str) -> (r: Flag)
    ensures
        r.common.short@ == short@,
        r.common.long@ == long@,
        r.common.doc@ == doc@,
{
    Flag::new(short, long, doc)
}

/// A switch that takes a value: the value given, if any.
pub struct Opt {
    pub common: SwitchCommon,
    pub hint: String,
}

impl Opt {
    pub fn new(short: &str, long: &str, doc: &str, hint: &str) -> (r: Self)
        ensures
            r.common.short@ == short@,
            r.common.long@ == long@,
            r.common.doc@ == doc@,
            r.hint@ == hint@,
    {
        Self { common: SwitchCommon::new(short, long, doc), hint: hint.to_owned() }
    }
}

impl Arg for Opt {
    type Item = Option<String>;

    type Error = Never;

    open spec fn switches(&self) -> Seq<SwitchModel> {
        seq![model_of(self.common, SwitchShape::Opt { hint: self.hint })]
    }

    open spec fn title(&self) -> Seq<char> {
        self.common.long@
    }

    open spec fn ready(&self) -> bool {
        true
    }

    open spec fn outcome(&self, t: MatchTable, r: Result<Option<String>, Never>) -> bool {
        r matches Ok(v) && string_opt_view(v) == value_of(t, self.common.key())
    }

    fn update_switches<S: Switches>(&self, switches: &mut S) {
        assert(self.switches()[0] == model_of(self.common, SwitchShape::Opt { hint: self.hint }));
        assert(S::accepts(self.switches()[0].0, self.switches()[0].1));
        let common = self.common.duplicate();
        switches.add(common, SwitchShape::Opt { hint: self.hint.clone() });
        assert(final(switches).registered() =~= old(switches).registered() + self.switches());
    }

    fn name(&self) -> (r: String) {
        self.common.long.clone()
    }

    fn get(self, matches: &getopts::Matches) -> (r: Result<Option<String>, Never>) {
        assert(self.switches()[0] == model_of(self.common, SwitchShape::Opt { hint: self.hint }));
        Ok(option_value(matches, &self.common))
    }
}

/// A constant: registers nothing and always gives `value`.
pub struct Value<T> {
    pub value: T,
    pub name: String,
}

impl<T> Value<T> {
    pub fn new(name: &str, value: T) -> (r: Self)
        ensures
            r.name@ == name@,
            r.value == value,
    {
        Self { name: name.to_owned(), value }
    }
}

impl<T> Arg for Value<T> {
    type Item = T;

    type Error = Never;

    open spec fn switches(&self) -> Seq<SwitchModel> {
        Seq::empty()
    }

    open spec fn title(&self) -> Seq<char> {
        self.name@
    }

    open spec fn ready(&self) -> bool {
        true
    }

    open spec fn outcome(&self, t: MatchTable, r: Result<T, Never>) -> bool {
        r == Ok::<T, Never>(self.value)
    }

    fn update_switches<S: Switches>(&self, switches: &mut S) {
        assert(old(switches).registered() + self.switches() =~= old(switches).registered());
    }

    fn name(&self) -> (r: String) {
        self.name.clone()
    }

    fn get(self, matches: &getopts::Matches) -> (r: Result<T, Never>) {
        Ok(self.value)
    }
}

/// A descriptor together with a help flag that, when present, stops
/// extraction.
pub struct WithHelp<A> {
    pub arg: A,
    pub help_flag: Flag,
}

/// Either the value of the wrapped descriptor or a request for help.
pub enum OrHelp<T> {
    Value(T),
    Help,
}

impl<A: Arg> Arg for WithHelp<A> {
    type Item = OrHelp<A::Item>;

    type Error = A::Error;

    open spec fn switches(&self) -> Seq<SwitchModel> {
        self.arg.switches() + self.help_flag.switches()
    }

    open spec fn title(&self) -> Seq<char> {
        "("@ + self.arg.title() + ") with help"@
    }

    open spec fn ready(&self) -> bool {
        self.arg.ready()
    }

    open spec fn outcome(&self, t: MatchTable, r: Result<OrHelp<A::Item>, A::Error>) -> bool {
        if present(t, self.help_flag.common.key()) {
            r matches Ok(OrHelp::Help)
        } else {
            match r {
                Ok(OrHelp::Value(x)) => self.arg.outcome(t, Ok(x)),
                Ok(OrHelp::Help) => false,
                Err(e) => self.arg.outcome(t, Err(e)),
            }
        }
    }

    fn update_switches<S: Switches>(&self, switches: &mut S) {
        proof {
            lemma_accepted_split::<S>(self.arg.switches(), self.help_flag.switches());
        }
        self.arg.update_switches(switches);
        self.help_flag.update_switches(switches);
        assert(final(switches).registered() =~= old(switches).registered() + self.switches());
    }

    fn name(&self) -> (r: String) {
        let r = String::from_str("(");
        let inner = self.arg.name();
        let r = r.concat(inner.as_str());
        r.concat(") with help")
    }

    fn get(self, matches: &getopts::Matches) -> (r: Result<OrHelp<A::Item>, A::Error>) {
        proof {
            lemma_defines_split(matched(*matches), self.arg.switches(), self.help_flag.switches());
        }
        let WithHelp { arg, help_flag } = self;
        if Never::result_ok(help_flag.get(matches)) {
            Ok(OrHelp::Help)
        } else {
            match arg.get(matches) {
                Ok(x) => Ok(OrHelp::Value(x)),
                Err(e) => Err(e),
            }
        }
    }
}

} // verus!
