use argcomb::{
    Arg, BothError, Checker, ChoiceError, Describe, Flag, Never, Opt, OptionConvertStringError, OrHelp,
    RequiredError, SwitchCommon, SwitchShape, Switches, TopLevelError, Value,
    validate_on_two_checkers,
};

fn number(short: &str, long: &str) -> impl Arg<Item = u32, Error = RequiredError<OptionConvertStringError<Never, std::num::ParseIntError>>> {
    Opt::new(short, long, "", "")
        .option_convert_string(|s| s.parse::<u32>())
        .required()
}

#[test]
fn basic() {
    assert_eq!(
        number("f", "foo")
            .parse_specified("".to_string(), &["--foo", "42"])
            .result
            .unwrap(),
        42
    );
}

#[test]
fn basic_macros() {
    assert_eq!(
        number("f", "foo")
            .both(number("b", "bar"))
            .map(|(a, b)| a + b)
            .parse_specified("".to_string(), &["--foo", "7", "--bar", "9"])
            .result
            .unwrap(),
        16
    );
}

#[test]
fn conversion_failure_names_switch_and_text() {
    let r = number("f", "foo")
        .parse_specified("".to_string(), &["--foo", "notanumber"])
        .result;
    match r {
        Err(TopLevelError::Other(RequiredError::Arg(OptionConvertStringError::FailedToConvert {
            name,
            arg_string,
            ..
        }))) => {
            assert_eq!(name, "foo");
            assert_eq!(arg_string, "notanumber");
        }
        _ => panic!("expected a conversion failure"),
    }
}

#[test]
fn missing_required_argument() {
    let r = number("f", "foo").parse_specified("".to_string(), &[]).result;
    match r {
        Err(TopLevelError::Other(RequiredError::MissingRequiredArg { name })) => {
            assert_eq!(name, "foo")
        }
        _ => panic!("expected a missing argument"),
    }
}

#[test]
fn both_pairs_in_either_order() {
    let r = number("f", "foo")
        .both(number("b", "bar"))
        .parse_specified("".to_string(), &["--foo", "7", "--bar", "9"])
        .result
        .unwrap();
    assert_eq!(r, (7, 9));
    let r = number("f", "foo")
        .both(number("b", "bar"))
        .parse_specified("".to_string(), &["--bar", "9", "--foo", "7"])
        .result
        .unwrap();
    assert_eq!(r, (7, 9));
}

#[test]
fn both_reports_first_failure() {
    let r = number("f", "foo")
        .both(number("b", "bar"))
        .parse_specified("".to_string(), &[])
        .result;
    assert!(matches!(r, Err(TopLevelError::Other(BothError::A(_)))));
    let r = number("f", "foo")
        .both(number("b", "bar"))
        .parse_specified("".to_string(), &["--foo", "1"])
        .result;
    assert!(matches!(r, Err(TopLevelError::Other(BothError::B(_)))));
}

fn two_choices() -> impl Arg<Item = Option<String>, Error = ChoiceError<Never, Never>> {
    Opt::new("a", "apple", "", "A").choice(Opt::new("b", "banana", "", "B"))
}

#[test]
fn choice_neither() {
    let r = two_choices().parse_specified("".to_string(), &[]).result.unwrap();
    assert_eq!(r, None);
}

#[test]
fn choice_one_side() {
    let r = two_choices().parse_specified("".to_string(), &["--apple", "x"]).result.unwrap();
    assert_eq!(r, Some("x".to_string()));
    let r = two_choices().parse_specified("".to_string(), &["-b", "y"]).result.unwrap();
    assert_eq!(r, Some("y".to_string()));
}

#[test]
fn choice_both_is_an_error() {
    let r = two_choices()
        .parse_specified("".to_string(), &["--apple", "x", "--banana", "y"])
        .result;
    match r {
        Err(TopLevelError::Other(ChoiceError::MultipleMutuallyExclusiveArgs { a, b })) => {
            assert_eq!(a, "apple");
            assert_eq!(b, "banana");
        }
        _ => panic!("expected a mutual-exclusion error"),
    }
}

#[test]
fn default_when_absent() {
    let r = Opt::new("n", "name", "", "NAME")
        .with_default("fallback".to_string())
        .parse_specified("".to_string(), &[])
        .result
        .unwrap();
    assert_eq!(r, "fallback");
}

#[test]
fn default_not_used_when_present() {
    let r = Opt::new("n", "name", "", "NAME")
        .with_default("fallback".to_string())
        .parse_specified("".to_string(), &["--name", "given"])
        .result
        .unwrap();
    assert_eq!(r, "given");
}

#[test]
fn help_wins_over_errors() {
    let r = number("f", "foo")
        .with_help_default()
        .parse_specified("".to_string(), &["--foo", "notanumber", "-h"])
        .result
        .unwrap();
    assert!(matches!(r, OrHelp::Help));
    let r = number("f", "foo")
        .with_help_default()
        .parse_specified("".to_string(), &["--help"])
        .result
        .unwrap();
    assert!(matches!(r, OrHelp::Help));
}

#[test]
fn help_absent_gives_value() {
    let r = number("f", "foo")
        .with_help_default()
        .parse_specified("".to_string(), &["--foo", "5"])
        .result
        .unwrap();
    assert!(matches!(r, OrHelp::Value(5)));
}

#[test]
fn unknown_switch_is_an_engine_error() {
    let r = Flag::new("v", "verbose", "")
        .parse_specified("".to_string(), &["--nope"])
        .result;
    assert!(matches!(r, Err(TopLevelError::Getopts(_))));
}

#[test]
fn flag_presence() {
    let r = Flag::new("v", "verbose", "").parse_specified("".to_string(), &["-v"]).result.unwrap();
    assert!(r);
    let r = Flag::new("v", "verbose", "").parse_specified("".to_string(), &[]).result.unwrap();
    assert!(!r);
}

#[test]
fn value_registers_nothing_and_gives_constant() {
    let v = Value::new("seven", 7u8);
    assert_eq!(v.name(), "seven");
    assert!(v.validate().is_none());
    assert_eq!(v.parse_specified("".to_string(), &[]).result.unwrap(), 7);
}

#[test]
fn option_map_applies_to_present_value_only() {
    let r = Opt::new("n", "name", "", "")
        .option_map(|s: String| s.len())
        .parse_specified("".to_string(), &["-n", "abcd"])
        .result
        .unwrap();
    assert_eq!(r, Some(4));
    let r = Opt::new("n", "name", "", "")
        .option_map(|s: String| s.len())
        .parse_specified("".to_string(), &[])
        .result
        .unwrap();
    assert_eq!(r, None);
}

#[test]
fn names_of_composites() {
    let both = Flag::new("a", "alpha", "").both(Flag::new("b", "beta", ""));
    assert_eq!(both.name(), "(alpha) and (beta)");
    let choice = Opt::new("a", "alpha", "", "").choice(Opt::new("b", "beta", "", ""));
    assert_eq!(choice.name(), "choose (alpha) or (beta)");
    let help = Flag::new("a", "alpha", "").with_help_default();
    assert_eq!(help.name(), "(alpha) with help");
}

#[test]
fn validation_accepts_distinct_keys() {
    let tree = Flag::new("a", "alpha", "").both(Flag::new("b", "beta", ""));
    assert!(tree.validate().is_none());
}

#[test]
fn validation_reports_shared_short_name() {
    let tree = Flag::new("a", "alpha", "").both(Flag::new("a", "again", ""));
    let inv = tree.validate().unwrap();
    assert_eq!(inv.keys, vec!["a".to_string()]);
}

#[test]
fn validation_reports_shared_long_name_without_short() {
    let tree = Flag::new("", "alpha", "")
        .both(Flag::new("", "alpha", ""))
        .both(Flag::new("", "alpha", ""));
    let inv = tree.validate().unwrap();
    assert_eq!(inv.keys, vec!["alpha".to_string()]);
}

#[test]
fn validation_uses_short_name_as_key() {
    let tree = Flag::new("a", "alpha", "").both(Flag::new("b", "alpha", ""));
    assert!(tree.validate().is_none());
}

#[test]
fn two_checkers_agree() {
    let tree = Flag::new("a", "alpha", "")
        .both(Flag::new("a", "again", ""))
        .both(Flag::new("", "long", ""));
    let mut first = Checker::new();
    let mut second = Checker::new();
    tree.update_switches(&mut first);
    tree.update_switches(&mut second);
    assert_eq!(first.invalid().unwrap().keys, second.invalid().unwrap().keys);
}

#[test]
fn checker_collects_every_repeated_key() {
    let mut c = Checker::new();
    c.add(SwitchCommon::new("x", "", ""), SwitchShape::Flag);
    c.add(SwitchCommon::new("", "yy", ""), SwitchShape::Flag);
    c.add(SwitchCommon::new("x", "other", ""), SwitchShape::Flag);
    c.add(SwitchCommon::new("", "yy", ""), SwitchShape::Opt { hint: "H".to_string() });
    c.add(SwitchCommon::new("x", "", ""), SwitchShape::Flag);
    assert_eq!(c.invalid().unwrap().keys, vec!["x".to_string(), "yy".to_string()]);
}

#[test]
fn key_prefers_short_name() {
    assert_eq!(SwitchCommon::new("s", "long", "").key_to_search_in_matches(), "s");
    assert_eq!(SwitchCommon::new("", "long", "").key_to_search_in_matches(), "long");
}

#[test]
fn usage_text_lists_switches() {
    let res = Opt::new("f", "foo", "the foo", "FOO").parse_specified("prog".to_string(), &[]);
    let text = res.usage.render();
    assert!(text.starts_with("Usage: prog [options]\n\nOptions:\n"));
    assert!(text.ends_with("\n"));
    assert!(text.contains("--foo FOO"));
    assert!(text.contains("the foo"));
}

#[test]
fn never_result_ok() {
    assert_eq!(Never::result_ok(Ok::<u8, Never>(3)), 3);
}

#[test]
fn messages_compose_names_and_text() {
    let r = Opt::new("f", "foo", "", "")
        .option_convert_string(|s| s.parse::<u32>().map_err(|e| e.to_string()))
        .required()
        .parse_specified("".to_string(), &[])
        .result;
    match r {
        Err(TopLevelError::Other(e)) => {
            assert_eq!(e.describe(), "missing required argument: foo")
        }
        _ => panic!("expected a missing argument"),
    }
    let r = two_choices()
        .parse_specified("".to_string(), &["-a", "x", "-b", "y"])
        .result;
    match r {
        Err(TopLevelError::Other(e)) => {
            assert_eq!(e.describe(), "(apple) and (banana) are mutually exclusive")
        }
        _ => panic!("expected a mutual-exclusion error"),
    }
    let r = Opt::new("f", "foo", "", "")
        .option_convert_string(|s| s.parse::<u32>().map_err(|e| e.to_string()))
        .parse_specified("".to_string(), &["-f", "zz"])
        .result;
    match r {
        Err(TopLevelError::Other(e)) => assert_eq!(
            e.describe(),
            "failed to convert argument (foo). \"zz\" could not be parsed (error: invalid digit found in string)"
        ),
        _ => panic!("expected a conversion failure"),
    }
}

#[test]
fn checker_takes_names_the_engine_would_refuse() {
    let tree = Flag::new("ab", "x", "").both(Flag::new("ab", "", ""));
    let inv = tree.validate().unwrap();
    assert_eq!(inv.keys, vec!["ab".to_string()]);
}

#[test]
fn two_fresh_checkers_report_alike() {
    let tree = Flag::new("a", "alpha", "")
        .both(Flag::new("a", "again", ""))
        .both(Flag::new("", "long", ""))
        .both(Flag::new("", "long", ""));
    let (first, second) = validate_on_two_checkers(&tree);
    assert_eq!(first.unwrap().keys, vec!["a".to_string(), "long".to_string()]);
    assert_eq!(second.unwrap().keys, vec!["a".to_string(), "long".to_string()]);
    let (first, second) = validate_on_two_checkers(&Flag::new("a", "alpha", ""));
    assert!(first.is_none() && second.is_none());
}
