use vstd::prelude::*;
use crate::arg::Arg;
use crate::engine::{lemma_defines_split, matched, MatchTable};
use crate::switch::{lemma_accepted_split, SwitchModel, Switches};

verus! {

/// Applies `f` to the value inside an optional result.
pub struct OptionMap<A, F> {
    pub arg: A,
    pub f: F,
}

impl<A, F, T, U> Arg for OptionMap<A, F> where A: Arg<Item = Option<T>>, F: FnOnce(T) -> U {
    type Item = Option<U>;

    type Error = A::Error;

    open spec fn switches(&self) -> Seq<SwitchModel> {
        self.arg.switches()
    }

    open spec fn title(&self) -> Seq<char> {
        self.arg.title()
    }

    open spec fn ready(&self) -> bool {
        self.arg.ready() && forall|x: T| self.f.requires((x,))
    }

    open spec fn outcome(&self, t: MatchTable, r: Result<Option<U>, A::Error>) -> bool {
        match r {
            Ok(None) => self.arg.outcome(t, Ok(None)),
            Ok(Some(u)) => exists|x: T| self.arg.outcome(t, Ok(Some(x))) && self.f.ensures((x,), u),
            Err(e) => self.arg.outcome(t, Err(e)),
        }
    }

    fn update_switches<S: Switches>(&self, switches: &mut S) {
        self.arg.update_switches(switches);
    }

    fn name(&self) -> (r: String) {
        self.arg.name()
    }

    fn get(self, matches: &getopts::Matches) -> (r: Result<Option<U>, A::Error>) {
        let OptionMap { arg, f } = self;
        match arg.get(matches) {
            Ok(Some(x)) => Ok(Some(f(x))),
            Ok(None) => Ok(None),
            Err(e) => Err(e),
        }
    }
}

/// Turns an absent optional value into `default_value`.
pub struct WithDefault<A, T> {
    pub arg: A,
    pub default_value: T,
}

impl<A, T> Arg for WithDefault<A, T> where A: Arg<Item = Option<T>> {
    type Item = T;

    type Error = A::Error;

    open spec fn switches(&self) -> Seq<SwitchModel> {
        self.arg.switches()
    }

    open spec fn title(&self) -> Seq<char> {
        self.arg.title()
    }

    open spec fn ready(&self) -> bool {
        self.arg.ready()
    }

    open spec fn outcome(&self, t: MatchTable, r: Result<T, A::Error>) -> bool {
        match r {
            Ok(v) => self.arg.outcome(t, Ok(Some(v))) || (self.arg.outcome(t, Ok(None)) && v
                == self.default_value),
            Err(e) => self.arg.outcome(t, Err(e)),
        }
    }

    fn update_switches<S: Switches>(&self, switches: &mut S) {
        self.arg.update_switches(switches);
    }

    fn name(&self) -> (r: String) {
        self.arg.name()
    }

    fn get(self, matches: &getopts::Matches) -> (r: Result<T, A::Error>) {
        let WithDefault { arg, default_value } = self;
        match arg.get(matches) {
            Ok(Some(v)) => Ok(v),
            Ok(None) => Ok(default_value),
            Err(e) => Err(e),
        }
    }
}

/// At most one of two optional descriptors may be given.
pub struct Choice<A, B> {
    pub a: A,
    pub b: B,
}

/// The error of a `Choice`: one side failed, or both were given.
#[derive(Debug)]
pub enum ChoiceError<A, B> {
    A(A),
    B(B),
    MultipleMutuallyExclusiveArgs { a: String, b: String },
}

impl<A, B, T> Arg for Choice<A, B> where A: Arg<Item = Option<T>>, B: Arg<Item = Option<T>> {
    type Item = Option<T>;

    type Error = ChoiceError<A::Error, B::Error>;

    open spec fn switches(&self) -> Seq<SwitchModel> {
        self.a.switches() + self.b.switches()
    }

    open spec fn title(&self) -> Seq<char> {
        "choose ("@ + self.a.title() + ") or ("@ + self.b.title() + ")"@
    }

    open spec fn ready(&self) -> bool {
        self.a.ready() && self.b.ready()
    }

    open spec fn outcome(&self, t: MatchTable, r: Result<Option<T>, ChoiceError<A::Error, B::Error>>) -> bool {
        match r {
            Ok(None) => self.a.outcome(t, Ok(None)) && self.b.outcome(t, Ok(None)),
            Ok(Some(x)) => (self.a.outcome(t, Ok(Some(x))) && self.b.outcome(t, Ok(None))) || (
            self.a.outcome(t, Ok(None)) && self.b.outcome(t, Ok(Some(x)))),
            Err(ChoiceError::A(e)) => self.a.outcome(t, Err(e)),
            Err(ChoiceError::B(e)) => (exists|x: Option<T>| self.a.outcome(t, Ok(x)))
                && self.b.outcome(t, Err(e)),
            Err(ChoiceError::MultipleMutuallyExclusiveArgs { a, b }) => {
                &&& a@ == self.a.title()
                &&& b@ == self.b.title()
                &&& exists|x: T| self.a.outcome(t, Ok(Some(x)))
                &&& exists|y: T| self.b.outcome(t, Ok(Some(y)))
            },
        }
    }

    fn update_switches<S: Switches>(&self, switches: &mut S) {
        proof {
            lemma_accepted_split::<S>(self.a.switches(), self.b.switches());
        }
        self.a.update_switches(switches);
        self.b.update_switches(switches);
        assert(final(switches).registered() =~= old(switches).registered() + self.switches());
    }

    fn name(&self) -> (r: String) {
        let an = self.a.name();
        let bn = self.b.name();
        let r = String::from_str("choose (");
        let r = r.concat(an.as_str());
        let r = r.concat(") or (");
        let r = r.concat(bn.as_str());
        r.concat(")")
    }

    fn get(self, matches: &getopts::Matches) -> (r: Result<Option<T>, ChoiceError<A::Error, B::Error>>) {
        proof {
            lemma_defines_split(matched(*matches), self.a.switches(), self.b.switches());
        }
        let a_name = self.a.name();
        let b_name = self.b.name();
        let ghost t = matched(*matches);
        let ghost ga = self.a;
        let ghost gb = self.b;
        let Choice { a, b } = self;
        match a.get(matches) {
            Err(e) => Err(ChoiceError::A(e)),
            Ok(Some(x)) => {
                assert(ga.outcome(t, Ok(Some(x))));
                match b.get(matches) {
                    Err(e) => Err(ChoiceError::B(e)),
                    Ok(Some(y)) => {
                        assert(gb.outcome(t, Ok(Some(y))));
                        Err(ChoiceError::MultipleMutuallyExclusiveArgs { a: a_name, b: b_name })
                    },
                    Ok(None) => Ok(Some(x)),
                }
            },
            Ok(None) => {
                assert(ga.outcome(t, Ok(None)));
                match b.get(matches) {
                    Err(e) => Err(ChoiceError::B(e)),
                    Ok(y) => Ok(y),
                }
            },
        }
    }
}

/// The error of a `Both`: which side failed.
#[derive(Debug)]
pub enum BothError<A, B> {
    A(A),
    B(B),
}

/// Two descriptors whose values are paired.
pub struct Both<A, B> {
    pub a: A,
    pub b: B,
}

impl<A, B> Arg for Both<A, B> where A: Arg, B: Arg {
    type Item = (A::Item, B::Item);

    type Error = BothError<A::Error, B::Error>;

    open spec fn switches(&self) -> Seq<SwitchModel> {
        self.a.switches() + self.b.switches()
    }

    open spec fn title(&self) -> Seq<char> {
        "("@ + self.a.title() + ") and ("@ + self.b.title() + ")"@
    }

    open spec fn ready(&self) -> bool {
        self.a.ready() && self.b.ready()
    }

    open spec fn outcome(&self, t: MatchTable, r: Result<(A::Item, B::Item), BothError<A::Error, B::Error>>) -> bool {
        match r {
            Ok((x, y)) => self.a.outcome(t, Ok(x)) && self.b.outcome(t, Ok(y)),
            Err(BothError::A(e)) => self.a.outcome(t, Err(e)),
            Err(BothError::B(e)) => (exists|x: A::Item| self.a.outcome(t, Ok(x))) && self.b.outcome(t, Err(e)),
        }
    }

    fn update_switches<S: Switches>(&self, switches: &mut S) {
        proof {
            lemma_accepted_split::<S>(self.a.switches(), self.b.switches());
        }
        self.a.update_switches(switches);
        self.b.update_switches(switches);
        assert(final(switches).registered() =~= old(switches).registered() + self.switches());
    }

    fn name(&self) -> (r: String) {
        let an = self.a.name();
        let bn = self.b.name();
        let r = String::from_str("(");
        let r = r.concat(an.as_str());
        let r = r.concat(") and (");
        let r = r.concat(bn.as_str());
        r.concat(")")
    }

    fn get(self, matches: &getopts::Matches) -> (r: Result<(A::Item, B::Item), BothError<A::Error, B::Error>>) {
        proof {
            lemma_defines_split(matched(*matches), self.a.switches(), self.b.switches());
        }
        let Both { a, b } = self;
        match a.get(matches) {
            Err(e) => Err(BothError::A(e)),
            Ok(x) => match b.get(matches) {
                Err(e) => Err(BothError::B(e)),
                Ok(y) => Ok((x, y)),
            },
        }
    }
}

/// Applies `f` to the value of a descriptor.
pub struct MapValue<A, F> {
    pub arg: A,
    pub f: F,
}

impl<A, U, F> Arg for MapValue<A, F> where A: Arg, F: FnOnce(A::Item) -> U {
    type Item = U;

    type Error = A::Error;

    open spec fn switches(&self) -> Seq<SwitchModel> {
        self.arg.switches()
    }

    open spec fn title(&self) -> Seq<char> {
        self.arg.title()
    }

    open spec fn ready(&self) -> bool {
        self.arg.ready() && forall|x: A::Item| self.f.requires((x,))
    }

    open spec fn outcome(&self, t: MatchTable, r: Result<U, A::Error>) -> bool {
        match r {
            Ok(u) => exists|x: A::Item| self.arg.outcome(t, Ok(x)) && self.f.ensures((x,), u),
            Err(e) => self.arg.outcome(t, Err(e)),
        }
    }

    fn update_switches<S: Switches>(&self, switches: &mut S) {
        self.arg.update_switches(switches);
    }

    fn name(&self) -> (r: String) {
        self.arg.name()
    }

    fn get(self, matches: &getopts::Matches) -> (r: Result<U, A::Error>) {
        let MapValue { arg, f } = self;
        match arg.get(matches) {
            Ok(x) => Ok(f(x)),
            Err(e) => Err(e),
        }
    }
}

/// Makes an optional descriptor mandatory.
pub struct Required<A> {
    pub arg: A,
}

/// The error of a `Required`: the inner descriptor failed, or gave nothing.
#[derive(Debug)]
pub enum RequiredError<A> {
    Arg(A),
    MissingRequiredArg { name: String },
}

impl<A, T> Arg for Required<A> where A: Arg<Item = Option<T>> {
    type Item = T;

    type Error = RequiredError<A::Error>;

    open spec fn switches(&self) -> Seq<SwitchModel> {
        self.arg.switches()
    }

    open spec fn title(&self) -> Seq<char> {
        self.arg.title()
    }

    open spec fn ready(&self) -> bool {
        self.arg.ready()
    }

    open spec fn outcome(&self, t: MatchTable, r: Result<T, RequiredError<A::Error>>) -> bool {
        match r {
            Ok(x) => self.arg.outcome(t, Ok(Some(x))),
            Err(RequiredError::Arg(e)) => self.arg.outcome(t, Err(e)),
            Err(RequiredError::MissingRequiredArg { name }) => name@ == self.arg.title()
                && self.arg.outcome(t, Ok(None)),
        }
    }

    fn update_switches<S: Switches>(&self, switches: &mut S) {
        self.arg.update_switches(switches);
    }

    fn name(&self) -> (r: String) {
        self.arg.name()
    }

    fn get(self, matches: &getopts::Matches) -> (r: Result<T, RequiredError<A::Error>>) {
        let name = self.arg.name();
        match self.arg.get(matches) {
            Err(e) => Err(RequiredError::Arg(e)),
            Ok(Some(x)) => Ok(x),
            Ok(None) => Err(RequiredError::MissingRequiredArg { name }),
        }
    }
}

/// Converts an optional string through a fallible function.
pub struct OptionConvertString<A, F> {
    pub arg: A,
    pub f: F,
}

/// The error of an `OptionConvertString`: the inner descriptor failed, or the
/// string it gave could not be converted.
#[derive(Debug)]
pub enum OptionConvertStringError<A, E> {
    Arg(A),
    FailedToConvert { name: String, arg_string: String, error: E },
}

impl<A, F, T, E> Arg for OptionConvertString<A, F> where
    A: Arg<Item = Option<String>>,
    F: FnOnce(&str) -> Result<T, E>,
{
    type Item = Option<T>;

    type Error = OptionConvertStringError<A::Error, E>;

    open spec fn switches(&self) -> Seq<SwitchModel> {
        self.arg.switches()
    }

    open spec fn title(&self) -> Seq<char> {
        self.arg.title()
    }

    open spec fn ready(&self) -> bool {
        self.arg.ready() && forall|s: &str| self.f.requires((s,))
    }

    open spec fn outcome(&self, t: MatchTable, r: Result<Option<T>, OptionConvertStringError<A::Error, E>>) -> bool {
        match r {
            Ok(None) => self.arg.outcome(t, Ok(None)),
            Ok(Some(v)) => exists|s: String, st: &str|
                st@ == s@ && self.arg.outcome(t, Ok(Some(s))) && self.f.ensures((st,), Ok::<T, E>(v)),
            Err(OptionConvertStringError::Arg(e)) => self.arg.outcome(t, Err(e)),
            Err(OptionConvertStringError::FailedToConvert { name, arg_string, error }) => {
                &&& name@ == self.arg.title()
                &&& self.arg.outcome(t, Ok(Some(arg_string)))
                &&& exists|st: &str| st@ == arg_string@ && self.f.ensures((st,), Err::<T, E>(error))
            },
        }
    }

    fn update_switches<S: Switches>(&self, switches: &mut S) {
        self.arg.update_switches(switches);
    }

    fn name(&self) -> (r: String) {
        assert(self.title() == self.arg.title());
        self.arg.name()
    }

    fn get(self, matches: &getopts::Matches) -> (r: Result<Option<T>, OptionConvertStringError<A::Error, E>>) {
        let name = self.name();
        let ghost t = matched(*matches);
        let ghost ga = self.arg;
        let OptionConvertString { arg, f } = self;
        match arg.get(matches) {
            Err(e) => Err(OptionConvertStringError::Arg(e)),
            Ok(None) => Ok(None),
            Ok(Some(arg_string)) => {
                let st = arg_string.as_str();
                match f(st) {
                    Ok(v) => {
                        assert(st@ == arg_string@ && ga.outcome(t, Ok(Some(arg_string))));
                        Ok(Some(v))
                    },
                    Err(error) => {
                        assert(st@ == arg_string@);
                        Err(OptionConvertStringError::FailedToConvert { name, arg_string, error })
                    },
                }
            },
        }
    }
}

} // verus!
