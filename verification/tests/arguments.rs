use ddi::args::{
    parse_arguments, plan, plan_for, split_option, unparse_args, ActionPlan, Arguments,
    OverrideFlag,
};

fn strings(tokens: &[&str]) -> Vec<String> {
    tokens.iter().map(|token| token.to_string()).collect()
}

#[test]
fn discard_useless() {
    let args = vec!["if=test".to_string(), "asd".to_string()];
    let parsed = parse_arguments(&args);
    assert!(!parsed.contains_key("asd"));
}

#[test]
fn discard_if_version() {
    let args = vec!["if=test".to_string(), "--version".to_string()];
    let parsed = parse_arguments(&args);
    assert!(!parsed.contains_key("if=test"));
}

#[test]
fn discard_if_help() {
    let args = vec!["if=test".to_string(), "--help".to_string()];
    let parsed = parse_arguments(&args);
    assert!(!parsed.contains_key("if=test"));
}

#[test]
fn options_are_kept_with_key_and_value() {
    let parsed = parse_arguments(&strings(&["if=test", "asd", "bs=4M"]));
    assert_eq!(parsed.flag(), None);
    assert_eq!(parsed.len(), 2);
    assert!(parsed.contains_key("if"));
    assert!(parsed.contains_key("bs"));
    assert_eq!(parsed.get("if"), Some(&"test".to_string()));
    assert_eq!(parsed.get("bs"), Some(&"4M".to_string()));
    assert_eq!(parsed.get("asd"), None);
}

#[test]
fn version_flag_discards_options_before_and_behind() {
    let parsed = parse_arguments(&strings(&["if=test", "--version", "of=/dev/sda"]));
    assert_eq!(parsed.flag(), Some(OverrideFlag::Version));
    assert_eq!(parsed.len(), 0);
    assert!(!parsed.contains_key("if"));
    assert!(!parsed.contains_key("of"));
    assert_eq!(parsed, Arguments::only(OverrideFlag::Version));
}

#[test]
fn help_flag_discards_options_before_and_behind() {
    let parsed = parse_arguments(&strings(&["of=/dev/sda", "--help", "if=test"]));
    assert_eq!(parsed.flag(), Some(OverrideFlag::Help));
    assert_eq!(parsed.len(), 0);
}

#[test]
fn first_flag_wins_over_a_later_one() {
    let first = parse_arguments(&strings(&["--help", "--version"]));
    assert_eq!(first.flag(), Some(OverrideFlag::Help));
    let second = parse_arguments(&strings(&["--version", "x=y", "--help"]));
    assert_eq!(second.flag(), Some(OverrideFlag::Version));
}

#[test]
fn repeated_key_keeps_last_value_in_first_place() {
    let parsed = parse_arguments(&strings(&["if=a", "of=b", "if=c"]));
    assert_eq!(parsed.len(), 2);
    assert_eq!(parsed.get("if"), Some(&"c".to_string()));
    assert_eq!(parsed.get("of"), Some(&"b".to_string()));
    assert_eq!(unparse_args(&parsed), "if=c of=b");
}

#[test]
fn no_arguments_give_nothing() {
    let parsed = parse_arguments(&Vec::new());
    assert_eq!(parsed, Arguments::new());
    assert_eq!(parsed.len(), 0);
    assert_eq!(parsed.flag(), None);
    assert_eq!(unparse_args(&parsed), "");
    assert_eq!(parsed.tokens(), Vec::<String>::new());
}

#[test]
fn split_option_takes_key_and_value() {
    assert_eq!(split_option("if=test"), Some(("if".to_string(), "test".to_string())));
    assert_eq!(split_option("of=/dev/sda"), Some(("of".to_string(), "/dev/sda".to_string())));
}

#[test]
fn split_option_rejects_a_token_without_equals() {
    assert_eq!(split_option("asd"), None);
    assert_eq!(split_option(""), None);
    assert_eq!(split_option("--help"), None);
}

#[test]
fn split_option_edges() {
    assert_eq!(split_option("="), Some((String::new(), String::new())));
    assert_eq!(split_option("a="), Some(("a".to_string(), String::new())));
    assert_eq!(split_option("=b"), Some((String::new(), "b".to_string())));
    assert_eq!(split_option("a=b=c"), Some(("a".to_string(), "b".to_string())));
    assert_eq!(split_option("a=="), Some(("a".to_string(), String::new())));
    assert_eq!(split_option("clé=välue"), Some(("clé".to_string(), "välue".to_string())));
}

#[test]
fn flag_with_a_value_is_an_option() {
    let parsed = parse_arguments(&strings(&["--help=x", "of=/dev/sda"]));
    assert_eq!(parsed.flag(), None);
    assert_eq!(parsed.get("--help"), Some(&"x".to_string()));
    assert_eq!(unparse_args(&parsed), "--help=x of=/dev/sda");
}

#[test]
fn flags_read_and_print() {
    assert_eq!(OverrideFlag::read("--version"), Some(OverrideFlag::Version));
    assert_eq!(OverrideFlag::read("--help"), Some(OverrideFlag::Help));
    assert_eq!(OverrideFlag::read("--helpx"), None);
    assert_eq!(OverrideFlag::read("-help"), None);
    assert_eq!(OverrideFlag::read(""), None);
    assert_eq!(OverrideFlag::Version.text(), "--version");
    assert_eq!(OverrideFlag::Help.text(), "--help");
}

#[test]
fn unparse_joins_pairs_with_single_spaces() {
    let parsed = parse_arguments(&strings(&["if=/dev/zero", "of=/tmp/x", "bs=1M", "count=3"]));
    assert_eq!(unparse_args(&parsed), "if=/dev/zero of=/tmp/x bs=1M count=3");
    assert_eq!(
        parsed.tokens(),
        strings(&["if=/dev/zero", "of=/tmp/x", "bs=1M", "count=3"])
    );
}

#[test]
fn unparse_of_one_pair_has_no_space() {
    let parsed = parse_arguments(&strings(&["if=test"]));
    assert_eq!(unparse_args(&parsed), "if=test");
}

#[test]
fn unparse_of_a_flag_is_the_flag() {
    assert_eq!(unparse_args(&Arguments::only(OverrideFlag::Version)), "--version");
    assert_eq!(unparse_args(&Arguments::only(OverrideFlag::Help)), "--help");
    assert_eq!(Arguments::only(OverrideFlag::Help).tokens(), strings(&["--help"]));
}

#[test]
fn unparse_keeps_a_value_with_spaces_in_one_token() {
    let parsed = parse_arguments(&strings(&["of=/mnt/my disk/img "]));
    assert_eq!(unparse_args(&parsed), "of=/mnt/my disk/img ");
    assert_eq!(parsed.tokens(), strings(&["of=/mnt/my disk/img "]));
}

#[test]
fn insert_replaces_and_appends() {
    let mut arguments = Arguments::new();
    arguments.insert("a".to_string(), "1".to_string());
    arguments.insert("b".to_string(), "2".to_string());
    arguments.insert("a".to_string(), "3".to_string());
    assert_eq!(arguments.len(), 2);
    assert_eq!(arguments.get("a"), Some(&"3".to_string()));
    assert_eq!(unparse_args(&arguments), "a=3 b=2");
}

#[test]
fn plan_is_gated_on_the_output_target() {
    let plan = plan(&strings(&["of=/tmp/img.dd"]));
    assert_eq!(
        plan,
        ActionPlan::GatedExecution {
            target: "/tmp/img.dd".to_string(),
            passthrough: "of=/tmp/img.dd".to_string(),
        }
    );
}

#[test]
fn plan_without_output_target_is_unconditional() {
    let plan = plan(&strings(&["if=/dev/zero", "count=1"]));
    assert_eq!(
        plan,
        ActionPlan::UnconditionalExecution { passthrough: "if=/dev/zero count=1".to_string() }
    );
}

#[test]
fn plan_of_help_ignores_the_output_target() {
    let plan = plan(&strings(&["--help", "of=/dev/sda"]));
    assert_eq!(plan, ActionPlan::UnconditionalExecution { passthrough: "--help".to_string() });
}

#[test]
fn plan_of_version_behind_the_output_target() {
    let plan = plan(&strings(&["of=/dev/sda", "if=x", "--version"]));
    assert_eq!(plan, ActionPlan::UnconditionalExecution { passthrough: "--version".to_string() });
}

#[test]
fn plan_is_the_same_with_and_without_a_plain_token() {
    let with = plan(&strings(&["ddi", "of=/dev/sda", "junk", "if=x"]));
    let without = plan(&strings(&["of=/dev/sda", "if=x"]));
    assert_eq!(with, without);
    assert_eq!(
        with,
        ActionPlan::GatedExecution {
            target: "/dev/sda".to_string(),
            passthrough: "of=/dev/sda if=x".to_string(),
        }
    );
}

#[test]
fn plan_takes_the_last_output_target() {
    let plan = plan(&strings(&["of=/dev/sda", "of=/dev/sdb"]));
    assert_eq!(
        plan,
        ActionPlan::GatedExecution {
            target: "/dev/sdb".to_string(),
            passthrough: "of=/dev/sdb".to_string(),
        }
    );
}

#[test]
fn plan_for_separated_arguments() {
    let mut arguments = Arguments::new();
    arguments.insert("of".to_string(), "".to_string());
    assert_eq!(
        plan_for(&arguments),
        ActionPlan::GatedExecution { target: String::new(), passthrough: "of=".to_string() }
    );
    assert_eq!(
        plan_for(&Arguments::new()),
        ActionPlan::UnconditionalExecution { passthrough: String::new() }
    );
}
