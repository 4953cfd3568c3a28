use expend::cli::{
    confirmed, file_name, file_path, per_diem_command, user_context, CredentialSource, Mode, Post,
    PostSubcommands, Refusal,
};
use expend::perdiem::Kind;
use expend::{
    from_date_string, Categories, Category, Command, Context, Country, Error, SyntaxProblem, Tag,
    Tags, TimePeriod, UserContext, Weekday,
};
use std::path::{Path, PathBuf};

fn post(user_id: Option<&str>, user_secret: Option<&str>) -> Post {
    Post {
        user_id: user_id.map(|s| s.to_string()),
        user_secret: user_secret.map(|s| s.to_string()),
        yes: false,
        dry_run: false,
        no_keychain: false,
        clear_keychain_entry: false,
        context_from: None,
        weekdate: None,
        cmd: PostSubcommands::FromFile {
            context: None,
            payload_type: "create".to_string(),
            input: PathBuf::from("payload.json"),
        },
    }
}

fn user() -> UserContext {
    UserContext {
        project: "P".to_string(),
        email: "me@example.com".to_string(),
        country: Country::Germany,
        destination: None,
        categories: Categories {
            per_diems: Category {
                name: "Per Diem".to_string(),
            },
        },
        tags: Tags {
            travel: Tag {
                name: "Travel".to_string(),
                billable: true,
            },
        },
    }
}

#[test]
fn cli_credentials_from_arguments() {
    assert_eq!(
        post(Some("id"), Some("secret")).credentials(),
        Ok(CredentialSource::Given {
            user: "id".to_string(),
            secret: "secret".to_string()
        })
    );
    assert_eq!(post(Some("id"), None).credentials(), Err(Refusal::MissingSecret));
    assert_eq!(post(None, Some("secret")).credentials(), Err(Refusal::MissingUser));
}

#[test]
fn cli_credentials_from_keychain_or_prompt() {
    let mut args = post(None, None);
    assert_eq!(
        args.credentials(),
        Ok(CredentialSource::Keychain { clear: false })
    );
    args.clear_keychain_entry = true;
    assert_eq!(
        args.credentials(),
        Ok(CredentialSource::Keychain { clear: true })
    );
    args.no_keychain = true;
    assert_eq!(args.credentials(), Ok(CredentialSource::Prompt));
    args.clear_keychain_entry = false;
    assert_eq!(args.credentials(), Ok(CredentialSource::Prompt));
}

#[test]
fn cli_mode_from_flags() {
    let mut args = post(None, None);
    assert_eq!(args.mode(), Ok(Mode::Confirm));
    args.yes = true;
    assert_eq!(args.mode(), Ok(Mode::AutoConfirm));
    args.dry_run = true;
    assert_eq!(args.mode(), Err(Refusal::ConflictingModes));
    args.yes = false;
    assert_eq!(args.mode(), Ok(Mode::DryRun));
}

#[test]
fn cli_before_post() {
    assert_eq!(Mode::DryRun.before_post(true), Err(Refusal::DryRun));
    assert_eq!(Mode::DryRun.before_post(false), Err(Refusal::DryRun));
    assert_eq!(Mode::AutoConfirm.before_post(true), Ok(false));
    assert_eq!(Mode::AutoConfirm.before_post(false), Ok(false));
    assert_eq!(Mode::Confirm.before_post(true), Ok(true));
    assert_eq!(Mode::Confirm.before_post(false), Err(Refusal::NoTerminal));
}

#[test]
fn cli_confirmed_takes_a_y() {
    for yes in ["y", "Y", "y\n", "  Y \r\n", "\ty"] {
        assert_eq!(confirmed(yes), Ok(()));
    }
    for no in ["", "\n", "n", "yes", "y y", "yy", "j", " - y"] {
        assert_eq!(confirmed(no), Err(Refusal::Declined));
    }
}

#[test]
fn cli_refusal_messages() {
    assert_eq!(
        Refusal::ConflictingModes.message(),
        "--auto-confirm and --dry-run are mutually exclusive."
    );
    assert_eq!(
        Refusal::MissingSecret.message(),
        "Please provide the secret as well with --user-secret."
    );
    assert_eq!(
        Refusal::MissingUser.message(),
        "Please provide the user as well with --user-id."
    );
    assert_eq!(Refusal::DryRun.message(), "Aborted before post due to dry-run mode.");
    assert_eq!(
        Refusal::NoTerminal.message(),
        "Cannot prompt if stdin is not a tty. Use -y to auto-confirm the operation."
    );
    assert_eq!(Refusal::Declined.message(), "Aborted by user");
}

#[test]
fn cli_file_path_joins_directory_and_file_name() {
    assert_eq!(file_name("default"), "default.json");
    assert_eq!(file_name(""), ".json");
    assert_eq!(
        file_path(Path::new("some").join("dir").as_path(), "default"),
        Path::new("some").join("dir").join("default.json")
    );
    assert_eq!(
        file_path(Path::new(""), "work.v2"),
        PathBuf::from("work.v2.json")
    );
}

#[test]
fn cli_per_diem_command() {
    let weekdate = Some(from_date_string("2018-09-25").unwrap());
    let command = per_diem_command(
        user(),
        weekdate,
        "tue, thu ",
        "Lunch",
        true,
        Some("offsite".to_string()),
    )
    .unwrap();
    match command {
        Command::PerDiem(ctx, period, kind, mode) => {
            assert_eq!(
                ctx,
                Context {
                    user: user(),
                    reference_date: weekdate,
                    comment: Some("offsite".to_string())
                }
            );
            assert_eq!(period, TimePeriod::Days(vec![Weekday::Tuesday, Weekday::Thursday]));
            assert_eq!(kind, Kind::Lunch);
            assert_eq!(mode, expend::perdiem::Mode::Subtract);
        }
        Command::Payload(..) => panic!("per diems expected"),
    }
    let added = per_diem_command(user(), None, "weekdays", "fullday", false, None).unwrap();
    assert!(matches!(
        added,
        Command::PerDiem(_, TimePeriod::Weekdays, Kind::FullDay, expend::perdiem::Mode::Add)
    ));
}

#[test]
fn cli_per_diem_command_reports_the_first_error() {
    let result = per_diem_command(user(), None, "a-b-c", "nothing", false, None);
    assert_eq!(
        result.err(),
        Some(Error::InvalidTimePeriodSyntax {
            input: "a-b-c".to_string(),
            problem: SyntaxProblem::TooManyDays
        })
    );
    let result = per_diem_command(user(), None, "mon", "nothing", false, None);
    assert_eq!(
        result.err(),
        Some(Error::InvalidKind {
            input: "nothing".to_string()
        })
    );
}

#[test]
fn cli_user_context() {
    assert_eq!(
        user_context(
            "P".to_string(),
            "me@example.com".to_string(),
            "Germany",
            "Travel".to_string(),
            false,
            "Per Diem".to_string(),
        ),
        Ok(user())
    );
    let unbillable = user_context(
        "P".to_string(),
        "me@example.com".to_string(),
        "germany",
        "Travel".to_string(),
        true,
        "Per Diem".to_string(),
    )
    .unwrap();
    assert!(!unbillable.tags.travel.billable);
    assert_eq!(
        user_context(
            String::new(),
            String::new(),
            "Atlantis",
            String::new(),
            false,
            String::new()
        ),
        Err(Error::InvalidCountry {
            input: "Atlantis".to_string()
        })
    );
}
