use bodhi_cli::converters::{severity_from_folded, update_type_from_folded};
use bodhi_cli::{
    op_str_to_op_content_type, op_str_to_op_date, op_str_to_op_karma, op_str_to_op_severity,
    op_str_to_op_update_request, op_str_to_op_update_status, op_str_to_op_update_suggestion,
    op_str_to_op_update_type, op_str_vec_to_op_release_vec, str_to_compose_request, ComposeRequest,
    ContentType, Format, Karma, UpdateRequest, UpdateSeverity, UpdateStatus, UpdateSuggestion, UpdateType,
};

fn s(text: &str) -> String {
    String::from(text)
}

#[test]
fn severity_any_case() {
    assert_eq!(op_str_to_op_severity(Some(&s("LOW"))), Ok(Some(UpdateSeverity::Low)));
    assert_eq!(op_str_to_op_severity(Some(&s("Urgent"))), Ok(Some(UpdateSeverity::Urgent)));
    assert_eq!(op_str_to_op_severity(Some(&s("unspecified"))), Ok(Some(UpdateSeverity::Unspecified)));
    assert_eq!(op_str_to_op_severity(None), Ok(None));
}

#[test]
fn severity_rejects_unknown() {
    assert_eq!(
        op_str_to_op_severity(Some(&s("Critical"))),
        Err(s("Not a recognised value for severity: Critical"))
    );
}

#[test]
fn content_type_values() {
    assert_eq!(op_str_to_op_content_type(Some(&s("RPM"))), Ok(Some(ContentType::RPM)));
    assert_eq!(op_str_to_op_content_type(Some(&s("flatpak"))), Ok(Some(ContentType::Flatpak)));
    assert_eq!(op_str_to_op_content_type(Some(&s("Module"))), Ok(Some(ContentType::Module)));
    assert_eq!(op_str_to_op_content_type(Some(&s("container"))), Ok(Some(ContentType::Container)));
    assert_eq!(op_str_to_op_content_type(Some(&s("deb"))), Err(s("Not a recognised content type: deb")));
}

#[test]
fn update_request_values() {
    assert_eq!(op_str_to_op_update_request(Some(&s("Obsolete"))), Ok(Some(UpdateRequest::Obsolete)));
    assert_eq!(op_str_to_op_update_request(Some(&s("REVOKE"))), Ok(Some(UpdateRequest::Revoke)));
    assert_eq!(op_str_to_op_update_request(Some(&s("stable"))), Ok(Some(UpdateRequest::Stable)));
    assert_eq!(op_str_to_op_update_request(Some(&s("testing"))), Ok(Some(UpdateRequest::Testing)));
    assert_eq!(op_str_to_op_update_request(Some(&s("unpush"))), Ok(Some(UpdateRequest::Unpush)));
    assert_eq!(
        op_str_to_op_update_request(Some(&s("push"))),
        Err(s("Not a recognised value for update request: push"))
    );
}

#[test]
fn update_status_values() {
    assert_eq!(op_str_to_op_update_status(Some(&s("Side_Tag_Active"))), Ok(Some(UpdateStatus::SideTagActive)));
    assert_eq!(op_str_to_op_update_status(Some(&s("side_tag_expired"))), Ok(Some(UpdateStatus::SideTagExpired)));
    assert_eq!(op_str_to_op_update_status(Some(&s("pending"))), Ok(Some(UpdateStatus::Pending)));
    assert_eq!(op_str_to_op_update_status(Some(&s("UNPUSHED"))), Ok(Some(UpdateStatus::Unpushed)));
    assert_eq!(
        op_str_to_op_update_status(Some(&s("side-tag-active"))),
        Err(s("Not a recognised value for status: side-tag-active"))
    );
}

#[test]
fn update_suggestion_values() {
    assert_eq!(op_str_to_op_update_suggestion(Some(&s("Reboot"))), Ok(Some(UpdateSuggestion::Reboot)));
    assert_eq!(op_str_to_op_update_suggestion(Some(&s("logout"))), Ok(Some(UpdateSuggestion::Logout)));
    assert_eq!(
        op_str_to_op_update_suggestion(Some(&s("restart"))),
        Err(s("Not a recognised value for suggestion: restart"))
    );
}

#[test]
fn update_type_values() {
    assert_eq!(op_str_to_op_update_type(Some(&s("BugFix"))), Ok(Some(UpdateType::BugFix)));
    assert_eq!(op_str_to_op_update_type(Some(&s("newpackage"))), Ok(Some(UpdateType::NewPackage)));
    assert_eq!(op_str_to_op_update_type(Some(&s("SECURITY"))), Ok(Some(UpdateType::Security)));
    assert_eq!(
        op_str_to_op_update_type(Some(&s("new package"))),
        Err(s("Not a recognised value for update type: new package"))
    );
}

#[test]
fn karma_values() {
    assert_eq!(op_str_to_op_karma(Some(&s("+1"))), Ok(Some(Karma::Positive)));
    assert_eq!(op_str_to_op_karma(Some(&s("1"))), Ok(Some(Karma::Positive)));
    assert_eq!(op_str_to_op_karma(Some(&s("0"))), Ok(Some(Karma::Neutral)));
    assert_eq!(op_str_to_op_karma(Some(&s("-1"))), Ok(Some(Karma::Negative)));
    assert_eq!(op_str_to_op_karma(None), Ok(None));
    assert_eq!(op_str_to_op_karma(Some(&s("+2"))), Err(s("Not a recognised value for karma: +2")));
}

#[test]
fn compose_request_any_case() {
    assert_eq!(str_to_compose_request("stable"), Ok(ComposeRequest::Stable));
    assert_eq!(str_to_compose_request("Stable"), Ok(ComposeRequest::Stable));
    assert_eq!(str_to_compose_request("TESTING"), Ok(ComposeRequest::Testing));
    assert_eq!(
        str_to_compose_request("Pending"),
        Err(s("Not a recognised value for compose request: Pending"))
    );
}

#[test]
fn date_values() {
    assert!(matches!(op_str_to_op_date(Some(&s("2024-01-15"))), Ok(Some(_))));
    assert!(matches!(op_str_to_op_date(Some(&s("2024-01-15 10:20:30"))), Ok(Some(_))));
    assert!(matches!(op_str_to_op_date(None), Ok(None)));
    assert_eq!(
        op_str_to_op_date(Some(&s("15/01/2024"))).err(),
        Some(s("Date in invalid format: 15/01/2024"))
    );
}

#[test]
fn release_lists() {
    let ok = op_str_vec_to_op_release_vec(Some(&vec![s("F38"), s("EPEL-9"), s("F36C")])).unwrap().unwrap();
    let names: Vec<String> = ok.iter().map(|r| r.to_string()).collect();
    assert_eq!(names, vec![s("F38"), s("EPEL-9"), s("F36C")]);
    assert!(matches!(op_str_vec_to_op_release_vec(None), Ok(None)));
    assert_eq!(
        op_str_vec_to_op_release_vec(Some(&vec![s("F38"), s("F1"), s("nonsense")])).err(),
        Some(s("Invalid value for FedoraRelease: F1"))
    );
    assert_eq!(
        op_str_vec_to_op_release_vec(Some(&vec![s("")])).err(),
        Some(s("Invalid value for FedoraRelease: (empty string)"))
    );
    assert_eq!(op_str_vec_to_op_release_vec(Some(&vec![])).unwrap().unwrap().len(), 0);
}

#[test]
fn format_values() {
    assert_eq!(Format::from_text("JSON"), Ok(Format::JSON));
    assert_eq!(Format::from_text("Plain"), Ok(Format::Plain));
    assert_eq!("json".parse::<Format>(), Ok(Format::JSON));
    assert_eq!(Format::from_text("yaml"), Err(s("Not a recognised value for format: yaml")));
    assert_eq!(Format::from_folded("plain", "PLAIN"), Ok(Format::Plain));
}

#[test]
fn format_parse_agrees_with_from_text() {
    for text in ["json", "JSON", "Plain", "plain", "xml", ""] {
        assert_eq!(text.parse::<Format>(), Format::from_text(text));
    }
    assert_eq!("Json".parse::<Format>(), Ok(Format::JSON));
    assert_eq!("csv".parse::<Format>(), Err(s("Not a recognised value for format: csv")));
}

#[test]
fn folded_readers_take_lowercase_text() {
    assert_eq!(severity_from_folded("high", "HIGH"), Ok(UpdateSeverity::High));
    assert_eq!(
        severity_from_folded("HIGH", "HIGH"),
        Err(s("Not a recognised value for severity: HIGH"))
    );
    assert_eq!(update_type_from_folded("enhancement", "Enhancement"), Ok(UpdateType::Enhancement));
}
