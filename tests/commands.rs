use bodhi_cli::overrides::OverrideBatch;
use bodhi_cli::{
    password_source, requirements_field, update_source, BaseCommand, BodhiCommand, BuildSource, CommandKind,
    Format, Karma, KeyringLookup, PasswordSource, QueryAction, Server, UpdateSeverity,
};

fn s(text: &str) -> String {
    String::from(text)
}

fn base(subcommand: BodhiCommand) -> BaseCommand {
    BaseCommand {
        staging: false,
        bodhi_url: None,
        login_url: None,
        no_store_password: false,
        ignore_keyring: false,
        verbose: false,
        subcommand,
    }
}

fn empty_update_query(format: Option<Format>, force: bool) -> BodhiCommand {
    BodhiCommand::QueryUpdates {
        alias: None,
        bugs: None,
        builds: None,
        critpath: None,
        content_type: None,
        format,
        locked: None,
        modified_before: None,
        modified_since: None,
        packages: None,
        pushed: None,
        pushed_before: None,
        pushed_since: None,
        releases: None,
        request: None,
        severity: None,
        status: None,
        submitted_before: None,
        submitted_since: None,
        suggestion: None,
        update_type: None,
        users: None,
        force,
    }
}

#[test]
fn authentication_per_subcommand() {
    let comment = base(BodhiCommand::Comment { update: s("FEDORA-2024-1a2b3c4d5e"), text: s("works for me"), karma: None });
    assert!(comment.authenticated());
    assert!(base(BodhiCommand::ExpireOverride { nvr: s("foo-1.0-1.fc40") }).authenticated());
    assert!(base(BodhiCommand::WaiveTests { alias: s("a"), comment: s("c"), tests: None }).authenticated());
    assert!(!base(BodhiCommand::ReleaseList { format: None }).authenticated());
    assert!(!base(BodhiCommand::ComposeList { format: Some(Format::JSON) }).authenticated());
    assert!(!base(empty_update_query(None, false)).authenticated());
    assert!(!base(BodhiCommand::ReleaseInfo { release: s("F40"), format: None }).authenticated());
}

#[test]
fn authentication_ignores_parameters() {
    let a = base(BodhiCommand::Comment { update: s("A"), text: s("x"), karma: None });
    let mut b = base(BodhiCommand::Comment { update: s("B"), text: s("y"), karma: Some(Karma::Negative) });
    b.staging = true;
    b.no_store_password = true;
    assert_eq!(a.authenticated(), b.authenticated());
    assert_eq!(a.subcommand.kind(), CommandKind::Comment);
    assert_eq!(a.authenticated(), a.authenticated());
}

#[test]
fn keyring_only_for_logins() {
    let mut c = base(BodhiCommand::ExpireOverride { nvr: s("n") });
    assert!(c.needs_keyring());
    c.no_store_password = true;
    assert!(!c.needs_keyring());
    assert!(!base(BodhiCommand::ReleaseList { format: None }).needs_keyring());
}

#[test]
fn server_selection() {
    assert_eq!(base(BodhiCommand::ReleaseList { format: None }).server(), Ok(Server::Production));
    let mut c = base(BodhiCommand::ReleaseList { format: None });
    c.staging = true;
    assert_eq!(c.server(), Ok(Server::Staging));
    c.bodhi_url = Some(s("https://b.example"));
    let err = c.server().unwrap_err();
    assert!(err.starts_with("Conflicting server options"));
    c.staging = false;
    assert!(c.server().is_err());
    c.login_url = Some(s("https://l.example"));
    assert_eq!(
        c.server(),
        Ok(Server::Custom { bodhi_url: s("https://b.example"), login_url: s("https://l.example") })
    );
}

#[test]
fn update_needs_exactly_one_source() {
    assert_eq!(
        update_source(Some(vec![s("a-1-1")]), Some(s("f40-build-side-1"))).err(),
        Some(s("Both builds and koji tag specified."))
    );
    assert_eq!(update_source(None, None).err(), Some(s("Neither builds nor koji tag specified.")));
    assert!(matches!(update_source(Some(vec![s("a-1-1")]), None), Ok(BuildSource::Builds(b)) if b == vec![s("a-1-1")]));
    assert!(matches!(update_source(None, Some(s("tag"))), Ok(BuildSource::Tag(t)) if t == "tag"));
}

#[test]
fn requirements_are_joined() {
    let reqs = vec![s("dist.rpmdeplint"), s("dist.abicheck")];
    assert_eq!(requirements_field(Some(&reqs), true), Some(s("dist.rpmdeplint,dist.abicheck")));
    assert_eq!(requirements_field(Some(&vec![]), true), None);
    assert_eq!(requirements_field(Some(&vec![]), false), Some(s("")));
    assert_eq!(requirements_field(Some(&vec![s("")]), true), None);
    assert_eq!(requirements_field(Some(&vec![s(""), s("")]), true), Some(s(",")));
    assert_eq!(requirements_field(None, false), None);
}

#[test]
fn unfiltered_query_is_refused() {
    assert_eq!(empty_update_query(None, false).query_action(), Some(QueryAction::Refuse));
    let overrides = BodhiCommand::QueryOverrides {
        builds: None,
        expired: None,
        format: None,
        releases: None,
        users: None,
        force: false,
    };
    assert_eq!(overrides.query_action(), Some(QueryAction::Refuse));
}

#[test]
fn forced_or_filtered_query_runs() {
    assert_eq!(empty_update_query(None, true).query_action(), Some(QueryAction::Run { progress: true }));
    assert_eq!(
        empty_update_query(Some(Format::JSON), true).query_action(),
        Some(QueryAction::Run { progress: false })
    );
    let filtered = BodhiCommand::QueryOverrides {
        builds: None,
        expired: Some(false),
        format: Some(Format::Plain),
        releases: None,
        users: None,
        force: false,
    };
    assert_eq!(filtered.query_action(), Some(QueryAction::Run { progress: true }));
    assert!(filtered.has_query_filter());
    let mut by_severity = empty_update_query(Some(Format::JSON), false);
    if let BodhiCommand::QueryUpdates { severity, .. } = &mut by_severity {
        *severity = Some(UpdateSeverity::High);
    }
    assert_eq!(by_severity.query_action(), Some(QueryAction::Run { progress: false }));
    assert_eq!(BodhiCommand::ReleaseList { format: None }.query_action(), None);
}

#[test]
fn output_format_defaults_to_plain() {
    assert_eq!(BodhiCommand::ReleaseList { format: None }.output_format(), Format::Plain);
    assert_eq!(BodhiCommand::ReleaseList { format: Some(Format::JSON) }.output_format(), Format::JSON);
    assert_eq!(BodhiCommand::ExpireOverride { nvr: s("n") }.output_format(), Format::Plain);
}

#[test]
fn batch_stops_at_first_failure() {
    let mut batch = OverrideBatch::new(vec![s("A"), s("B"), s("C")]);
    assert_eq!(batch.next_build(), Some(&s("A")));
    batch.record(true);
    assert_eq!(batch.next_build(), Some(&s("B")));
    batch.record(false);
    assert_eq!(batch.next_build(), None);
    assert_eq!(batch.created_count(), 1);
    assert_eq!(batch.failed_build(), Some(&s("B")));
}

#[test]
fn batch_creates_every_override() {
    let mut batch = OverrideBatch::new(vec![s("A"), s("B")]);
    while batch.next_build().is_some() {
        batch.record(true);
    }
    assert_eq!(batch.created_count(), 2);
    assert_eq!(batch.failed_build(), None);
    let empty = OverrideBatch::new(vec![]);
    assert_eq!(empty.next_build(), None);
}

#[test]
fn password_sources() {
    assert!(matches!(password_source(true, false, KeyringLookup::Found(s("pw"))), PasswordSource::Prompt));
    assert!(matches!(password_source(false, false, KeyringLookup::Unavailable), PasswordSource::Prompt));
    assert!(matches!(password_source(false, true, KeyringLookup::Unavailable), PasswordSource::Prompt));
    assert!(matches!(
        password_source(false, true, KeyringLookup::Found(s("pw"))),
        PasswordSource::PromptAndStore { replace: true }
    ));
    assert!(matches!(password_source(false, false, KeyringLookup::Found(s("pw"))), PasswordSource::Stored(p) if p == "pw"));
    assert!(matches!(
        password_source(false, false, KeyringLookup::Unreadable),
        PasswordSource::PromptAndStore { replace: true }
    ));
    assert!(matches!(
        password_source(false, true, KeyringLookup::Skipped),
        PasswordSource::PromptAndStore { replace: true }
    ));
    assert!(matches!(
        password_source(false, false, KeyringLookup::Missing),
        PasswordSource::PromptAndStore { replace: false }
    ));
}
