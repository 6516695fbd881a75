use guildsync::Command;
use guildsync::DiscordCommand;
use guildsync::DocumentShape;
use guildsync::FormatCommand;
use guildsync::GuildFormat;
use guildsync::JsonField;
use guildsync::KubeCommand;
use guildsync::KubeLocalCommand;
use guildsync::KubeRemoteCommand;
use guildsync::SshCommand;
use guildsync::TerminalCommand;
use guildsync::TerminalOpenCodeCommand;
use guildsync::ValidationError;
use guildsync::ValidationSummary;
use guildsync::action_for;
use guildsync::evaluate;
use guildsync::validate_format;

fn summary(
    format: Option<&str>,
    version: Option<u64>,
    format_declared: bool,
) -> ValidationSummary {
    ValidationSummary { format: format.map(|s| s.to_string()), version, format_declared }
}

#[test]
fn empty_object_accepted() {
    assert_eq!(validate_format("{}", None), Ok(summary(None, None, false)));
    assert_eq!(validate_format("{}", Some(GuildFormat::Dump)), Ok(summary(None, None, false)));
    assert_eq!(validate_format("{}", Some(GuildFormat::Upload)), Ok(summary(None, None, false)));
}

#[test]
fn unrelated_fields_ignored() {
    assert_eq!(
        validate_format("{\"other\": true, \"extra\": [1, 2]}", None),
        Ok(summary(None, None, false))
    );
}

#[test]
fn absent_format_not_compared_against_expected() {
    assert_eq!(
        validate_format("{\"other\":true}", Some(GuildFormat::Upload)),
        Ok(summary(None, None, false))
    );
}

#[test]
fn declared_dump_reported() {
    assert_eq!(
        validate_format("{\"format\":\"dump\"}", None),
        Ok(summary(Some("dump"), None, true))
    );
}

#[test]
fn declared_upload_reported() {
    assert_eq!(
        validate_format("{\"format\":\"upload\"}", None),
        Ok(summary(Some("upload"), None, true))
    );
}

#[test]
fn upload_against_expected_dump_mismatch() {
    assert_eq!(
        validate_format("{\"format\":\"upload\"}", Some(GuildFormat::Dump)),
        Err(ValidationError::FormatMismatch {
            expected: "dump".to_string(),
            found: "upload".to_string(),
        })
    );
}

#[test]
fn dump_against_expected_upload_mismatch() {
    assert_eq!(
        validate_format("{\"format\":\"dump\"}", Some(GuildFormat::Upload)),
        Err(ValidationError::FormatMismatch {
            expected: "upload".to_string(),
            found: "dump".to_string(),
        })
    );
}

#[test]
fn dump_against_expected_dump_accepted() {
    assert_eq!(
        validate_format("{\"format\":\"dump\"}", Some(GuildFormat::Dump)),
        Ok(summary(Some("dump"), None, true))
    );
}

#[test]
fn unknown_format_reported_with_value() {
    assert_eq!(
        validate_format("{\"format\":\"zip\"}", None),
        Err(ValidationError::UnknownFormat("zip".to_string()))
    );
}

#[test]
fn numeric_format_not_a_string() {
    assert_eq!(
        validate_format("{\"format\":42}", None),
        Err(ValidationError::FormatNotString)
    );
}

#[test]
fn bad_format_reported_before_bad_version() {
    assert_eq!(
        validate_format("{\"format\":42,\"version\":\"x\"}", Some(GuildFormat::Dump)),
        Err(ValidationError::FormatNotString)
    );
}

#[test]
fn mismatch_reported_before_bad_version() {
    assert_eq!(
        validate_format("{\"format\":\"upload\",\"version\":1.5}", Some(GuildFormat::Dump)),
        Err(ValidationError::FormatMismatch {
            expected: "dump".to_string(),
            found: "upload".to_string(),
        })
    );
}

#[test]
fn negative_version_invalid() {
    assert_eq!(
        validate_format("{\"version\":-1}", None),
        Err(ValidationError::InvalidVersionType)
    );
}

#[test]
fn string_version_invalid() {
    assert_eq!(
        validate_format("{\"version\":\"1\"}", None),
        Err(ValidationError::InvalidVersionType)
    );
}

#[test]
fn fractional_version_invalid() {
    assert_eq!(
        validate_format("{\"version\":1.5}", None),
        Err(ValidationError::InvalidVersionType)
    );
}

#[test]
fn oversized_version_invalid() {
    assert_eq!(
        validate_format("{\"version\":18446744073709551616}", None),
        Err(ValidationError::InvalidVersionType)
    );
}

#[test]
fn version_reported() {
    assert_eq!(validate_format("{\"version\":7}", None), Ok(summary(None, Some(7), false)));
}

#[test]
fn version_bounds_accepted() {
    assert_eq!(validate_format("{\"version\":0}", None), Ok(summary(None, Some(0), false)));
    assert_eq!(
        validate_format("{\"version\":18446744073709551615}", None),
        Ok(summary(None, Some(18446744073709551615), false))
    );
}

#[test]
fn full_example_summary() {
    assert_eq!(
        validate_format("{\"format\":\"dump\",\"version\":3}", None),
        Ok(summary(Some("dump"), Some(3), true))
    );
}

#[test]
fn non_object_top_level_rejected() {
    for text in ["[1,2,3]", "\"hello\"", "42", "null", "true"] {
        assert_eq!(
            validate_format(text, None),
            Err(ValidationError::NotObject),
            "input: {}",
            text
        );
        assert_eq!(
            validate_format(text, Some(GuildFormat::Dump)),
            Err(ValidationError::NotObject),
            "input: {}",
            text
        );
    }
}

#[test]
fn malformed_json_is_a_parse_error() {
    for text in ["{\"a\":1,}", "{a:1}", "", "{\"format\":\"dump\"", "nul"] {
        let r = validate_format(text, None);
        assert!(matches!(r, Err(ValidationError::Parse(_))), "input: {}", text);
    }
}

#[test]
fn parse_error_carries_a_message() {
    match validate_format("{a:1}", None) {
        Err(ValidationError::Parse(message)) => assert!(!message.is_empty()),
        other => panic!("expected a parse error, got {:?}", other),
    }
}

#[test]
fn repeated_validation_agrees() {
    let text = "{\"format\":\"dump\",\"version\":3}";
    assert_eq!(validate_format(text, None), validate_format(text, None));
    let bad = "{\"version\":1.5}";
    assert_eq!(validate_format(bad, None), validate_format(bad, None));
}

#[test]
fn evaluate_applies_rules_to_a_shape() {
    let doc = DocumentShape {
        is_object: true,
        format: JsonField::Text("dump".to_string()),
        version: JsonField::UInt(3),
    };
    assert_eq!(evaluate(&doc, None), Ok(summary(Some("dump"), Some(3), true)));
    let not_object = DocumentShape {
        is_object: false,
        format: JsonField::Missing,
        version: JsonField::Missing,
    };
    assert_eq!(evaluate(&not_object, None), Err(ValidationError::NotObject));
    let bad_format = DocumentShape {
        is_object: true,
        format: JsonField::UInt(42),
        version: JsonField::Missing,
    };
    assert_eq!(evaluate(&bad_format, None), Err(ValidationError::FormatNotString));
}

#[test]
fn format_tokens() {
    assert_eq!(GuildFormat::Dump.as_str(), "dump");
    assert_eq!(GuildFormat::Upload.as_str(), "upload");
}

#[test]
fn action_names() {
    let validate = Command::Format {
        command: FormatCommand::Validate { input: "a.json".to_string(), format: None },
    };
    assert_eq!(action_for(&validate), "format.validate");
    let export = Command::Discord {
        command: DiscordCommand::Export { guild: 1, out: "dump.json".to_string() },
    };
    assert_eq!(action_for(&export), "discord.export");
    let import = Command::Discord {
        command: DiscordCommand::Import {
            input: "dump.json".to_string(),
            guild: 1,
            dry_run: true,
        },
    };
    assert_eq!(action_for(&import), "discord.import");
    let attach = Command::Terminal {
        command: TerminalCommand::Opencode {
            command: TerminalOpenCodeCommand::Attach { tmux: None },
        },
    };
    assert_eq!(action_for(&attach), "terminal.opencode.attach");
    assert_eq!(
        action_for(&Command::Kube { command: KubeCommand::Local { command: KubeLocalCommand::Up } }),
        "kube.local.up"
    );
    assert_eq!(
        action_for(
            &Command::Kube { command: KubeCommand::Local { command: KubeLocalCommand::Down } }
        ),
        "kube.local.down"
    );
    assert_eq!(
        action_for(
            &Command::Kube { command: KubeCommand::Local { command: KubeLocalCommand::Status } }
        ),
        "kube.local.status"
    );
    assert_eq!(
        action_for(&Command::Kube {
            command: KubeCommand::Remote {
                command: KubeRemoteCommand::Test { context: "c".to_string() },
            },
        }),
        "kube.remote.test"
    );
    assert_eq!(
        action_for(&Command::Kube {
            command: KubeCommand::Remote {
                command: KubeRemoteCommand::Deploy { context: "c".to_string() },
            },
        }),
        "kube.remote.deploy"
    );
    let exec = Command::Ssh {
        command: SshCommand::Exec { host: "h".to_string(), cmd: vec!["ls".to_string()] },
    };
    assert_eq!(action_for(&exec), "ssh.exec");
}
