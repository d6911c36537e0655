use vstd::prelude::*;
use crate::arg::Never;
use crate::combinators::{BothError, ChoiceError, OptionConvertStringError, RequiredError};

verus! {

/// An error that can say in words what went wrong.
pub trait Describe {
    /// The message.
    spec fn text(&self) -> Seq<char>;

    fn describe(&self) -> (r: String)
        ensures
            r@ == self.text(),
    ;
}

impl Describe for Never {
    open spec fn text(&self) -> Seq<char> {
        Seq::empty()
    }

    fn describe(&self) -> (r: String) {
        String::new()
    }
}

impl Describe for String {
    open spec fn text(&self) -> Seq<char> {
        self@
    }

    fn describe(&self) -> (r: String) {
        self.clone()
    }
}

impl<A: Describe, B: Describe> Describe for BothError<A, B> {
    open spec fn text(&self) -> Seq<char> {
        match self {
            BothError::A(a) => a.text(),
            BothError::B(b) => b.text(),
        }
    }

    fn describe(&self) -> (r: String) {
        match self {
            BothError::A(a) => a.describe(),
            BothError::B(b) => b.describe(),
        }
    }
}

impl<A: Describe, B: Describe> Describe for ChoiceError<A, B> {
    open spec fn text(&self) -> Seq<char> {
        match self {
            ChoiceError::A(a) => a.text(),
            ChoiceError::B(b) => b.text(),
            ChoiceError::MultipleMutuallyExclusiveArgs { a, b } => "("@ + a@ + ") and ("@ + b@
                + ") are mutually exclusive"@,
        }
    }

    fn describe(&self) -> (r: String) {
        match self {
            ChoiceError::A(a) => a.describe(),
            ChoiceError::B(b) => b.describe(),
            ChoiceError::MultipleMutuallyExclusiveArgs { a, b } => {
                let r = String::from_str("(");
                let r = r.concat(a.as_str());
                let r = r.concat(") and (");
                let r = r.concat(b.as_str());
                r.concat(") are mutually exclusive")
            },
        }
    }
}

impl<A: Describe> Describe for RequiredError<A> {
    open spec fn text(&self) -> Seq<char> {
        match self {
            RequiredError::Arg(a) => a.text(),
            RequiredError::MissingRequiredArg { name } => "missing required argument: "@ + name@,
        }
    }

    fn describe(&self) -> (r: String) {
        match self {
            RequiredError::Arg(a) => a.describe(),
            RequiredError::MissingRequiredArg { name } => {
                let r = String::from_str("missing required argument: ");
                r.concat(name.as_str())
            },
        }
    }
}

impl<A: Describe, E: Describe> Describe for OptionConvertStringError<A, E> {
    open spec fn text(&self) -> Seq<char> {
        match self {
            OptionConvertStringError::Arg(a) => a.text(),
            OptionConvertStringError::FailedToConvert { name, arg_string, error } =>
                "failed to convert argument ("@ + name@ + "). \""@ + arg_string@
                + "\" could not be parsed (error: "@ + error.text() + ")"@,
        }
    }

    fn describe(&self) -> (r: String) {
        match self {
            OptionConvertStringError::Arg(a) => a.describe(),
            OptionConvertStringError::FailedToConvert { name, arg_string, error } => {
                let inner = error.describe();
                let r = String::from_str("failed to convert argument (");
                let r = r.concat(name.as_str());
                let r = r.concat("). \"");
                let r = r.concat(arg_string.as_str());
                let r = r.concat("\" could not be parsed (error: ");
                let r = r.concat(inner.as_str());
                r.concat(")")
            },
        }
    }
}

} // verus!
