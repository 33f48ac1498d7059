use beeline::config::{
    default_datapoints_limit, default_true, ApiKey, BeeConfig, BeeConfigError, CommandOutput,
    DisplayConfig, KeyLookup, Prompt, TuiConfig,
};
use beeline::goal::{normalize, normalize_action, GoalType, GoalTypeParseError};
use beeline::text::{
    blank, is_space_char, lower_char, same_text, strip_separators, to_lower, trim,
};

fn ran(success: bool, stdout: &str, stderr: &str) -> KeyLookup {
    KeyLookup::CommandRan(CommandOutput {
        success,
        stdout: stdout.to_string(),
        stderr: stderr.to_string(),
    })
}

fn nobody() -> Prompt {
    Prompt { interactive: false, path: "/etc/bee.toml".to_string(), entered: String::new() }
}

fn answer(text: &str) -> Prompt {
    Prompt { interactive: true, path: "/etc/bee.toml".to_string(), entered: text.to_string() }
}

#[test]
fn resolves_literal_key() {
    let key = ApiKey::Literal(" literal ".to_string());
    assert_eq!(key.resolve(&KeyLookup::Nothing).unwrap(), "literal");
}

#[test]
fn resolves_env_key() {
    let key = ApiKey::Env { env: "BEECONFIG_TEST_KEY".to_string() };
    let found = KeyLookup::EnvValue(Some("envvalue".to_string()));
    assert_eq!(key.resolve(&found).unwrap(), "envvalue");
}

#[test]
fn resolves_cmd_key() {
    let key = ApiKey::Cmd { cmd: "printf 'cmdvalue'".to_string() };
    assert_eq!(key.resolve(&ran(true, "cmdvalue", "")).unwrap(), "cmdvalue");
}

#[test]
fn cmd_empty_output_is_error() {
    let key = ApiKey::Cmd { cmd: "printf ''".to_string() };
    let err = key.resolve(&ran(true, "", "")).unwrap_err();
    assert!(matches!(err, BeeConfigError::CommandEmpty { .. }));
}

#[test]
fn blank_keys_are_missing() {
    assert_eq!(
        ApiKey::Literal("  \n".to_string()).resolve(&KeyLookup::Nothing),
        Err(BeeConfigError::MissingApiKey)
    );
    assert_eq!(
        ApiKey::Env { env: "V".to_string() }.resolve(&KeyLookup::EnvValue(Some(" ".to_string()))),
        Err(BeeConfigError::MissingApiKey)
    );
}

#[test]
fn unset_variable_is_named() {
    let key = ApiKey::Env { env: "V".to_string() };
    let missing = Err(BeeConfigError::MissingEnv { env: "V".to_string() });
    assert_eq!(key.resolve(&KeyLookup::EnvValue(None)), missing);
    assert_eq!(key.resolve(&KeyLookup::Nothing), missing);
}

#[test]
fn command_faults() {
    let key = ApiKey::Cmd { cmd: "pass bee".to_string() };
    assert_eq!(
        key.resolve(&ran(false, "ignored", " no such entry\n")),
        Err(BeeConfigError::CommandFailed {
            cmd: "pass bee".to_string(),
            message: "no such entry".to_string(),
        })
    );
    assert_eq!(
        key.resolve(&ran(true, " \n", "")),
        Err(BeeConfigError::CommandEmpty { cmd: "pass bee".to_string() })
    );
    assert_eq!(
        key.resolve(&KeyLookup::CommandNotRun("sh: not found".to_string())),
        Err(BeeConfigError::CommandExec {
            cmd: "pass bee".to_string(),
            source: "sh: not found".to_string(),
        })
    );
    assert_eq!(key.resolve(&ran(true, "\tsecret\n", "warning")).unwrap(), "secret");
}

#[test]
fn defaults() {
    assert!(default_true());
    assert_eq!(default_datapoints_limit(), 20);
    assert_eq!(
        DisplayConfig::default(),
        DisplayConfig { show_pledge: true, show_last_value: false, datapoints_limit: 20 }
    );
    assert_eq!(TuiConfig::default(), TuiConfig { refresh_on_start: true });
    let config = BeeConfig::default();
    assert_eq!(config.api_key, ApiKey::Literal(String::new()));
    assert_eq!(config.default_user, None);
    assert!(config.needs_onboarding());
}

#[test]
fn configuration_with_a_key_is_ready() {
    let mut config = BeeConfig::default();
    config.api_key = ApiKey::Literal("k".to_string());
    assert!(!config.needs_onboarding());
    assert_eq!(config.api_key(&KeyLookup::Nothing).unwrap(), "k");
    let ready = config.load_or_onboard(&KeyLookup::Nothing, &nobody()).unwrap();
    assert_eq!(ready.api_key, ApiKey::Literal("k".to_string()));
}

#[test]
fn configuration_with_a_pointer_is_checked() {
    let mut config = BeeConfig::default();
    config.api_key = ApiKey::Env { env: "V".to_string() };
    assert!(!config.needs_onboarding());
    assert_eq!(
        config.load_or_onboard(&KeyLookup::EnvValue(None), &answer("typed")),
        Err(BeeConfigError::MissingEnv { env: "V".to_string() })
    );
    let mut config = BeeConfig::default();
    config.api_key = ApiKey::Env { env: "V".to_string() };
    let ready =
        config.load_or_onboard(&KeyLookup::EnvValue(Some("k".to_string())), &nobody()).unwrap();
    assert_eq!(ready.api_key, ApiKey::Env { env: "V".to_string() });
}

#[test]
fn missing_key_is_asked_for() {
    let ready = BeeConfig::default().load_or_onboard(&KeyLookup::Nothing, &answer(" typed \n"));
    assert_eq!(ready.unwrap().api_key, ApiKey::Literal("typed".to_string()));
    assert_eq!(
        BeeConfig::default().load_or_onboard(&KeyLookup::Nothing, &answer("\n")),
        Err(BeeConfigError::MissingApiKey)
    );
    assert_eq!(
        BeeConfig::default().load_or_onboard(&KeyLookup::Nothing, &nobody()),
        Err(BeeConfigError::NonInteractive { path: "/etc/bee.toml".to_string() })
    );
    assert_eq!(
        BeeConfig::default().onboard_api_key(&answer("k")).unwrap().api_key,
        ApiKey::Literal("k".to_string())
    );
}

#[test]
fn goal_types_have_names() {
    let all = [
        (GoalType::Hustler, "hustler"),
        (GoalType::Biker, "biker"),
        (GoalType::Fatloser, "fatloser"),
        (GoalType::Gainer, "gainer"),
        (GoalType::Inboxer, "inboxer"),
        (GoalType::Drinker, "drinker"),
        (GoalType::Custom, "custom"),
    ];
    for (goal_type, name) in all {
        assert_eq!(goal_type.as_str(), name);
        assert_eq!(GoalType::from_str(name), Ok(goal_type));
    }
}

#[test]
fn goal_types_are_read_leniently() {
    assert_eq!(GoalType::from_str("Hustler"), Ok(GoalType::Hustler));
    assert_eq!(GoalType::from_str("  fat-loser "), Ok(GoalType::Fatloser));
    assert_eq!(GoalType::from_str("FAT LOSER"), Ok(GoalType::Fatloser));
    assert_eq!(GoalType::from_str("in-box er"), Ok(GoalType::Inboxer));
    assert_eq!(
        GoalType::from_str("fat_loser"),
        Err(GoalTypeParseError { value: "fat_loser".to_string() })
    );
    assert_eq!(GoalType::from_str(""), Err(GoalTypeParseError { value: String::new() }));
}

#[test]
fn unknown_goal_type_is_quoted() {
    let fault = GoalType::from_str(" Runner ").unwrap_err();
    assert_eq!(fault.value, " Runner ");
    assert_eq!(
        fault.message(),
        "invalid goal type ' Runner '; expected one of: hustler, biker, fatloser, gainer, inboxer, drinker, custom"
    );
}

#[test]
fn actions_are_compared_without_separators() {
    assert_eq!(normalize_action(" Goal-Create "), "goalcreate");
    assert_eq!(normalize_action("cancel_stepdown"), "cancelstepdown");
    assert_eq!(normalize_action("list archived"), "listarchived");
    assert_eq!(normalize_action("ADD"), "add");
    assert_eq!(normalize_action(""), "");
    assert_eq!(normalize("cancel_step-down"), "cancel_stepdown");
}

#[test]
fn white_space_is_what_the_language_calls_so() {
    for code in 0..=0x10FFFFu32 {
        if let Some(c) = char::from_u32(code) {
            assert_eq!(is_space_char(c), c.is_whitespace(), "{code:x}");
            assert_eq!(lower_char(c), c.to_ascii_lowercase(), "{code:x}");
        }
    }
}

#[test]
fn trimming() {
    for text in ["", " ", "a", " a", "a ", "  a b  ", "\t\na\u{a0}", "\u{3000}x\u{2003}y\u{85}", " \r\n "] {
        assert_eq!(trim(text), text.trim(), "{text:?}");
        assert_eq!(blank(text), text.trim().is_empty(), "{text:?}");
    }
}

#[test]
fn lower_case_and_separators() {
    assert_eq!(to_lower("Fat-LOSER É"), "fat-loser É");
    assert_eq!(strip_separators("a b-c_d", false), "abc_d");
    assert_eq!(strip_separators("a b-c_d", true), "abcd");
    assert_eq!(strip_separators(" - ", true), "");
    assert!(same_text("abc", "abc"));
    assert!(!same_text("abc", "abd"));
    assert!(!same_text("abc", "ab"));
    assert!(same_text("", ""));
}
