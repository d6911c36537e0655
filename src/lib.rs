//! Command-line arguments declared as a tree of small typed descriptors.
//!
//! Each descriptor registers the switches it needs, names itself for error
//! messages, and extracts a typed value (or a typed error) from the switches
//! that the matching engine recognised. Combinators build bigger descriptors
//! out of smaller ones; a validation pass catches switches declared twice.

pub mod arg;
pub mod combinators;
pub mod describe;
pub mod engine;
pub mod laws;
pub mod switch;
pub mod validation;

pub use arg::{flag, Arg, Flag, Never, Opt, OrHelp, Value, WithHelp};
pub use combinators::{
    Both, BothError, Choice, ChoiceError, MapValue, OptionConvertString,
    OptionConvertStringError, OptionMap, Required, RequiredError, WithDefault,
};
pub use describe::Describe;
pub use engine::{ParseResult, TopLevelError, Usage};
pub use switch::{SwitchCommon, SwitchShape, Switches};
pub use validation::{Checker, Invalid};
pub use laws::{
    both_pairs_values, choice_of_two_options, default_fills_only_absence, help_wins,
    lemma_repeated_keys_exact, validate_on_two_checkers, validation_reports_shared_keys,
};
