//! Coercion of raw command-line text into typed filter values.

use vstd::prelude::*;

verus! {

/// What `str::to_lowercase` returns for the given characters.
pub uninterp spec fn lower_of(s: Seq<char>) -> Seq<char>;

/// Relies on `str::to_lowercase`: the result depends on the characters alone,
/// and an empty string stays empty.
#[verifier::external_body]
pub(crate) fn lowercase(s: &str) -> (r: String)
    ensures
        r@ == lower_of(s@),
        s@.len() == 0 ==> r@.len() == 0,
{
    s.to_lowercase()
}

/// Character-wise equality of two strings.
pub fn text_eq(a: &str, b: &str) -> (r: bool)
    ensures
        r == (a@ == b@),
{
    let n = a.unicode_len();
    if n != b.unicode_len() {
        return false;
    }
    let mut i: usize = 0;
    while i < n
        invariant
            n == a@.len(),
            n == b@.len(),
            i <= n,
            a@.subrange(0, i as int) == b@.subrange(0, i as int),
        decreases n - i,
    {
        if a.get_char(i) != b.get_char(i) {
            assert(a@[i as int] != b@[i as int]);
            return false;
        }
        assert(a@.subrange(0, i + 1) == a@.subrange(0, i as int).push(a@[i as int]));
        assert(b@.subrange(0, i + 1) == b@.subrange(0, i as int).push(b@[i as int]));
        i = i + 1;
    }
    assert(a@ == a@.subrange(0, n as int));
    assert(b@ == b@.subrange(0, n as int));
    true
}

/// A value under a label: `"<label>: <value>"`.
pub open spec fn labelled(prefix: Seq<char>, value: Seq<char>) -> Seq<char> {
    prefix + ": "@ + value
}

/// Builds a value under a label.
pub fn labelled_text(prefix: &str, value: &str) -> (r: String)
    ensures
        r@ == labelled(prefix@, value@),
{
    let r = String::from_str(prefix);
    let r = r.concat(": ");
    let r = r.concat(value);
    proof {
        reveal_strlit(": ");
    }
    r
}

/// A value under a label ends with the value itself: every rejection of a
/// coercion names the text that was rejected.
pub proof fn lemma_labelled_ends_with_value(label: Seq<char>, value: Seq<char>)
    ensures
        labelled(label, value).len() == label.len() + 2 + value.len(),
        labelled(label, value).subrange((label.len() + 2) as int, labelled(label, value).len() as int) == value,
{
    reveal_strlit(": ");
    let t = labelled(label, value);
    assert(t.subrange((label.len() + 2) as int, t.len() as int) =~= value);
}

/// Update severity.
#[derive(Clone, Copy, Debug, PartialEq, Eq, Structural)]
pub enum UpdateSeverity {
    Unspecified,
    Low,
    Medium,
    High,
    Urgent,
}

/// The severity that lowercase text names, if any.
pub open spec fn severity_of(t: Seq<char>) -> Option<UpdateSeverity> {
    if t == "unspecified"@ {
        Some(UpdateSeverity::Unspecified)
    } else if t == "low"@ {
        Some(UpdateSeverity::Low)
    } else if t == "medium"@ {
        Some(UpdateSeverity::Medium)
    } else if t == "high"@ {
        Some(UpdateSeverity::High)
    } else if t == "urgent"@ {
        Some(UpdateSeverity::Urgent)
    } else {
        None
    }
}

/// Reads a severity from already lowercased text; `given` is the text as typed.
pub fn severity_from_folded(folded: &str, given: &str) -> (r: Result<UpdateSeverity, String>)
    ensures
        match severity_of(folded@) {
            Some(v) => r == Ok::<UpdateSeverity, String>(v),
            None => r is Err && r->Err_0@ == labelled("Not a recognised value for severity"@, given@),
        },
{
    if text_eq(folded, "unspecified") {
        Ok(UpdateSeverity::Unspecified)
    } else if text_eq(folded, "low") {
        Ok(UpdateSeverity::Low)
    } else if text_eq(folded, "medium") {
        Ok(UpdateSeverity::Medium)
    } else if text_eq(folded, "high") {
        Ok(UpdateSeverity::High)
    } else if text_eq(folded, "urgent") {
        Ok(UpdateSeverity::Urgent)
    } else {
        Err(labelled_text("Not a recognised value for severity", given))
    }
}

/// The kind of content an update ships.
#[derive(Clone, Copy, Debug, PartialEq, Eq, Structural)]
pub enum ContentType {
    RPM,
    Module,
    Flatpak,
    Container,
}

/// The content type that lowercase text names, if any.
pub open spec fn content_type_of(t: Seq<char>) -> Option<ContentType> {
    if t == "rpm"@ {
        Some(ContentType::RPM)
    } else if t == "module"@ {
        Some(ContentType::Module)
    } else if t == "flatpak"@ {
        Some(ContentType::Flatpak)
    } else if t == "container"@ {
        Some(ContentType::Container)
    } else {
        None
    }
}

/// Reads a content type from already lowercased text; `given` is the text as typed.
pub fn content_type_from_folded(folded: &str, given: &str) -> (r: Result<ContentType, String>)
    ensures
        match content_type_of(folded@) {
            Some(v) => r == Ok::<ContentType, String>(v),
            None => r is Err && r->Err_0@ == labelled("Not a recognised content type"@, given@),
        },
{
    if text_eq(folded, "rpm") {
        Ok(ContentType::RPM)
    } else if text_eq(folded, "module") {
        Ok(ContentType::Module)
    } else if text_eq(folded, "flatpak") {
        Ok(ContentType::Flatpak)
    } else if text_eq(folded, "container") {
        Ok(ContentType::Container)
    } else {
        Err(labelled_text("Not a recognised content type", given))
    }
}

/// A requested status transition of an update.
#[derive(Clone, Copy, Debug, PartialEq, Eq, Structural)]
pub enum UpdateRequest {
    Obsolete,
    Revoke,
    Stable,
    Testing,
    Unpush,
}

/// The update request that lowercase text names, if any.
pub open spec fn update_request_of(t: Seq<char>) -> Option<UpdateRequest> {
    if t == "obsolete"@ {
        Some(UpdateRequest::Obsolete)
    } else if t == "revoke"@ {
        Some(UpdateRequest::Revoke)
    } else if t == "stable"@ {
        Some(UpdateRequest::Stable)
    } else if t == "testing"@ {
        Some(UpdateRequest::Testing)
    } else if t == "unpush"@ {
        Some(UpdateRequest::Unpush)
    } else {
        None
    }
}

/// Reads an update request from already lowercased text; `given` is the text as typed.
pub fn update_request_from_folded(folded: &str, given: &str) -> (r: Result<UpdateRequest, String>)
    ensures
        match update_request_of(folded@) {
            Some(v) => r == Ok::<UpdateRequest, String>(v),
            None => r is Err && r->Err_0@ == labelled("Not a recognised value for update request"@, given@),
        },
{
    if text_eq(folded, "obsolete") {
        Ok(UpdateRequest::Obsolete)
    } else if text_eq(folded, "revoke") {
        Ok(UpdateRequest::Revoke)
    } else if text_eq(folded, "stable") {
        Ok(UpdateRequest::Stable)
    } else if text_eq(folded, "testing") {
        Ok(UpdateRequest::Testing)
    } else if text_eq(folded, "unpush") {
        Ok(UpdateRequest::Unpush)
    } else {
        Err(labelled_text("Not a recognised value for update request", given))
    }
}

/// The status of an update.
#[derive(Clone, Copy, Debug, PartialEq, Eq, Structural)]
pub enum UpdateStatus {
    Obsolete,
    Pending,
    SideTagActive,
    SideTagExpired,
    Stable,
    Testing,
    Unpushed,
}

/// The update status that lowercase text names, if any.
pub open spec fn update_status_of(t: Seq<char>) -> Option<UpdateStatus> {
    if t == "obsolete"@ {
        Some(UpdateStatus::Obsolete)
    } else if t == "pending"@ {
        Some(UpdateStatus::Pending)
    } else if t == "side_tag_active"@ {
        Some(UpdateStatus::SideTagActive)
    } else if t == "side_tag_expired"@ {
        Some(UpdateStatus::SideTagExpired)
    } else if t == "stable"@ {
        Some(UpdateStatus::Stable)
    } else if t == "testing"@ {
        Some(UpdateStatus::Testing)
    } else if t == "unpushed"@ {
        Some(UpdateStatus::Unpushed)
    } else {
        None
    }
}

/// Reads an update status from already lowercased text; `given` is the text as typed.
pub fn update_status_from_folded(folded: &str, given: &str) -> (r: Result<UpdateStatus, String>)
    ensures
        match update_status_of(folded@) {
            Some(v) => r == Ok::<UpdateStatus, String>(v),
            None => r is Err && r->Err_0@ == labelled("Not a recognised value for status"@, given@),
        },
{
    if text_eq(folded, "obsolete") {
        Ok(UpdateStatus::Obsolete)
    } else if text_eq(folded, "pending") {
        Ok(UpdateStatus::Pending)
    } else if text_eq(folded, "side_tag_active") {
        Ok(UpdateStatus::SideTagActive)
    } else if text_eq(folded, "side_tag_expired") {
        Ok(UpdateStatus::SideTagExpired)
    } else if text_eq(folded, "stable") {
        Ok(UpdateStatus::Stable)
    } else if text_eq(folded, "testing") {
        Ok(UpdateStatus::Testing)
    } else if text_eq(folded, "unpushed") {
        Ok(UpdateStatus::Unpushed)
    } else {
        Err(labelled_text("Not a recognised value for status", given))
    }
}

/// What a user is advised to do after installing an update.
#[derive(Clone, Copy, Debug, PartialEq, Eq, Structural)]
pub enum UpdateSuggestion {
    Unspecified,
    Reboot,
    Logout,
}

/// The update suggestion that lowercase text names, if any.
pub open spec fn update_suggestion_of(t: Seq<char>) -> Option<UpdateSuggestion> {
    if t == "unspecified"@ {
        Some(UpdateSuggestion::Unspecified)
    } else if t == "reboot"@ {
        Some(UpdateSuggestion::Reboot)
    } else if t == "logout"@ {
        Some(UpdateSuggestion::Logout)
    } else {
        None
    }
}

/// Reads an update suggestion from already lowercased text; `given` is the text as typed.
pub fn update_suggestion_from_folded(folded: &str, given: &str) -> (r: Result<UpdateSuggestion, String>)
    ensures
        match update_suggestion_of(folded@) {
            Some(v) => r == Ok::<UpdateSuggestion, String>(v),
            None => r is Err && r->Err_0@ == labelled("Not a recognised value for suggestion"@, given@),
        },
{
    if text_eq(folded, "unspecified") {
        Ok(UpdateSuggestion::Unspecified)
    } else if text_eq(folded, "reboot") {
        Ok(UpdateSuggestion::Reboot)
    } else if text_eq(folded, "logout") {
        Ok(UpdateSuggestion::Logout)
    } else {
        Err(labelled_text("Not a recognised value for suggestion", given))
    }
}

/// The type of an update.
#[derive(Clone, Copy, Debug, PartialEq, Eq, Structural)]
pub enum UpdateType {
    Unspecified,
    Enhancement,
    NewPackage,
    BugFix,
    Security,
}

/// The update type that lowercase text names, if any.
pub open spec fn update_type_of(t: Seq<char>) -> Option<UpdateType> {
    if t == "unspecified"@ {
        Some(UpdateType::Unspecified)
    } else if t == "enhancement"@ {
        Some(UpdateType::Enhancement)
    } else if t == "newpackage"@ {
        Some(UpdateType::NewPackage)
    } else if t == "bugfix"@ {
        Some(UpdateType::BugFix)
    } else if t == "security"@ {
        Some(UpdateType::Security)
    } else {
        None
    }
}

/// Reads an update type from already lowercased text; `given` is the text as typed.
pub fn update_type_from_folded(folded: &str, given: &str) -> (r: Result<UpdateType, String>)
    ensures
        match update_type_of(folded@) {
            Some(v) => r == Ok::<UpdateType, String>(v),
            None => r is Err && r->Err_0@ == labelled("Not a recognised value for update type"@, given@),
        },
{
    if text_eq(folded, "unspecified") {
        Ok(UpdateType::Unspecified)
    } else if text_eq(folded, "enhancement") {
        Ok(UpdateType::Enhancement)
    } else if text_eq(folded, "newpackage") {
        Ok(UpdateType::NewPackage)
    } else if text_eq(folded, "bugfix") {
        Ok(UpdateType::BugFix)
    } else if text_eq(folded, "security") {
        Ok(UpdateType::Security)
    } else {
        Err(labelled_text("Not a recognised value for update type", given))
    }
}

/// Coerces optional text, in any letter case, into a severity; absent text is no filter.
pub fn op_str_to_op_severity(op_string: Option<&String>) -> (r: Result<Option<UpdateSeverity>, String>)
    ensures
        match op_string {
            None => r == Ok::<Option<UpdateSeverity>, String>(None),
            Some(s) => match severity_of(lower_of(s@)) {
                Some(v) => r == Ok::<Option<UpdateSeverity>, String>(Some(v)),
                None => r is Err && r->Err_0@ == labelled("Not a recognised value for severity"@, s@),
            },
        },
{
    match op_string {
        Some(string) => {
            let folded = lowercase(string.as_str());
            match severity_from_folded(folded.as_str(), string.as_str()) {
                Ok(v) => Ok(Some(v)),
                Err(e) => Err(e),
            }
        },
        None => Ok(None),
    }
}

/// Coerces optional text, in any letter case, into a content type; absent text is no filter.
pub fn op_str_to_op_content_type(op_string: Option<&String>) -> (r: Result<Option<ContentType>, String>)
    ensures
        match op_string {
            None => r == Ok::<Option<ContentType>, String>(None),
            Some(s) => match content_type_of(lower_of(s@)) {
                Some(v) => r == Ok::<Option<ContentType>, String>(Some(v)),
                None => r is Err && r->Err_0@ == labelled("Not a recognised content type"@, s@),
            },
        },
{
    match op_string {
        Some(string) => {
            let folded = lowercase(string.as_str());
            match content_type_from_folded(folded.as_str(), string.as_str()) {
                Ok(v) => Ok(Some(v)),
                Err(e) => Err(e),
            }
        },
        None => Ok(None),
    }
}

/// Coerces optional text, in any letter case, into an update request; absent text is no filter.
pub fn op_str_to_op_update_request(op_string: Option<&String>) -> (r: Result<Option<UpdateRequest>, String>)
    ensures
        match op_string {
            None => r == Ok::<Option<UpdateRequest>, String>(None),
            Some(s) => match update_request_of(lower_of(s@)) {
                Some(v) => r == Ok::<Option<UpdateRequest>, String>(Some(v)),
                None => r is Err && r->Err_0@ == labelled("Not a recognised value for update request"@, s@),
            },
        },
{
    match op_string {
        Some(string) => {
            let folded = lowercase(string.as_str());
            match update_request_from_folded(folded.as_str(), string.as_str()) {
                Ok(v) => Ok(Some(v)),
                Err(e) => Err(e),
            }
        },
        None => Ok(None),
    }
}

/// Coerces optional text, in any letter case, into an update status; absent text is no filter.
pub fn op_str_to_op_update_status(op_string: Option<&String>) -> (r: Result<Option<UpdateStatus>, String>)
    ensures
        match op_string {
            None => r == Ok::<Option<UpdateStatus>, String>(None),
            Some(s) => match update_status_of(lower_of(s@)) {
                Some(v) => r == Ok::<Option<UpdateStatus>, String>(Some(v)),
                None => r is Err && r->Err_0@ == labelled("Not a recognised value for status"@, s@),
            },
        },
{
    match op_string {
        Some(string) => {
            let folded = lowercase(string.as_str());
            match update_status_from_folded(folded.as_str(), string.as_str()) {
                Ok(v) => Ok(Some(v)),
                Err(e) => Err(e),
            }
        },
        None => Ok(None),
    }
}

/// Coerces optional text, in any letter case, into an update suggestion; absent text is no filter.
pub fn op_str_to_op_update_suggestion(op_string: Option<&String>) -> (r: Result<Option<UpdateSuggestion>, String>)
    ensures
        match op_string {
            None => r == Ok::<Option<UpdateSuggestion>, String>(None),
            Some(s) => match update_suggestion_of(lower_of(s@)) {
                Some(v) => r == Ok::<Option<UpdateSuggestion>, String>(Some(v)),
                None => r is Err && r->Err_0@ == labelled("Not a recognised value for suggestion"@, s@),
            },
        },
{
    match op_string {
        Some(string) => {
            let folded = lowercase(string.as_str());
            match update_suggestion_from_folded(folded.as_str(), string.as_str()) {
                Ok(v) => Ok(Some(v)),
                Err(e) => Err(e),
            }
        },
        None => Ok(None),
    }
}

/// Coerces optional text, in any letter case, into an update type; absent text is no filter.
pub fn op_str_to_op_update_type(op_string: Option<&String>) -> (r: Result<Option<UpdateType>, String>)
    ensures
        match op_string {
            None => r == Ok::<Option<UpdateType>, String>(None),
            Some(s) => match update_type_of(lower_of(s@)) {
                Some(v) => r == Ok::<Option<UpdateType>, String>(Some(v)),
                None => r is Err && r->Err_0@ == labelled("Not a recognised value for update type"@, s@),
            },
        },
{
    match op_string {
        Some(string) => {
            let folded = lowercase(string.as_str());
            match update_type_from_folded(folded.as_str(), string.as_str()) {
                Ok(v) => Ok(Some(v)),
                Err(e) => Err(e),
            }
        },
        None => Ok(None),
    }
}


/// A feedback vote attached to a comment.
#[derive(Clone, Copy, Debug, PartialEq, Eq, Structural)]
pub enum Karma {
    Positive,
    Neutral,
    Negative,
}

/// The karma that text names, if any; the match is exact.
pub open spec fn karma_of(t: Seq<char>) -> Option<Karma> {
    if t == "1"@ || t == "+1"@ {
        Some(Karma::Positive)
    } else if t == "0"@ {
        Some(Karma::Neutral)
    } else if t == "-1"@ {
        Some(Karma::Negative)
    } else {
        None
    }
}

/// Coerces optional text into a karma vote: `1` or `+1`, `0`, `-1`.
pub fn op_str_to_op_karma(op_string: Option<&String>) -> (r: Result<Option<Karma>, String>)
    ensures
        match op_string {
            None => r == Ok::<Option<Karma>, String>(None),
            Some(s) => match karma_of(s@) {
                Some(v) => r == Ok::<Option<Karma>, String>(Some(v)),
                None => r is Err && r->Err_0@ == labelled("Not a recognised value for karma"@, s@),
            },
        },
{
    match op_string {
        Some(string) => {
            let t = string.as_str();
            if text_eq(t, "1") || text_eq(t, "+1") {
                Ok(Some(Karma::Positive))
            } else if text_eq(t, "0") {
                Ok(Some(Karma::Neutral))
            } else if text_eq(t, "-1") {
                Ok(Some(Karma::Negative))
            } else {
                Err(labelled_text("Not a recognised value for karma", t))
            }
        },
        None => Ok(None),
    }
}

/// The target of a compose.
#[derive(Clone, Copy, Debug, PartialEq, Eq, Structural)]
pub enum ComposeRequest {
    Stable,
    Testing,
}

/// The compose request that lowercase text names, if any.
pub open spec fn compose_request_of(t: Seq<char>) -> Option<ComposeRequest> {
    if t == "stable"@ {
        Some(ComposeRequest::Stable)
    } else if t == "testing"@ {
        Some(ComposeRequest::Testing)
    } else {
        None
    }
}

/// Reads a compose request from already lowercased text; `given` is the text as typed.
pub fn compose_request_from_folded(folded: &str, given: &str) -> (r: Result<ComposeRequest, String>)
    ensures
        match compose_request_of(folded@) {
            Some(v) => r == Ok::<ComposeRequest, String>(v),
            None => r is Err && r->Err_0@ == labelled("Not a recognised value for compose request"@, given@),
        },
{
    if text_eq(folded, "stable") {
        Ok(ComposeRequest::Stable)
    } else if text_eq(folded, "testing") {
        Ok(ComposeRequest::Testing)
    } else {
        Err(labelled_text("Not a recognised value for compose request", given))
    }
}

/// Coerces text, in any letter case, into a compose request: `stable` or `testing`.
pub fn str_to_compose_request(request: &str) -> (r: Result<ComposeRequest, String>)
    ensures
        match compose_request_of(lower_of(request@)) {
            Some(v) => r == Ok::<ComposeRequest, String>(v),
            None => r is Err && r->Err_0@ == labelled("Not a recognised value for compose request"@, request@),
        },
{
    let folded = lowercase(request);
    compose_request_from_folded(folded.as_str(), request)
}

#[verifier::external_type_specification]
#[verifier::external_body]
pub struct ExBodhiDate(bodhi::BodhiDate);

#[verifier::external_type_specification]
#[verifier::external_body]
pub struct ExFedoraRelease(bodhi::FedoraRelease);

/// What `bodhi::BodhiDate::try_from` makes of the given text: a date, or
/// nothing where the text is not in the service's date format.
pub uninterp spec fn parsed_date(s: Seq<char>) -> Option<bodhi::BodhiDate>;

/// Relies on `bodhi::BodhiDate::try_from(&str)`, which parses
/// `%Y-%m-%d %H:%M:%S` in UTC, first appending ` 00:00:00` to any text of
/// ten bytes, and depends on the text alone.
#[verifier::external_body]
fn parse_date(s: &str) -> (r: Option<bodhi::BodhiDate>)
    ensures
        r == parsed_date(s@),
{
    bodhi::BodhiDate::try_from(s).ok()
}

/// Coerces optional text into a date of the service's format.
pub fn op_str_to_op_date(op_string: Option<&String>) -> (r: Result<Option<bodhi::BodhiDate>, String>)
    ensures
        match op_string {
            None => r == Ok::<Option<bodhi::BodhiDate>, String>(None),
            Some(s) => match parsed_date(s@) {
                Some(d) => r == Ok::<Option<bodhi::BodhiDate>, String>(Some(d)),
                None => r is Err && r->Err_0@ == labelled("Date in invalid format"@, s@),
            },
        },
{
    match op_string {
        Some(date) => match parse_date(date.as_str()) {
            Some(value) => Ok(Some(value)),
            None => Err(labelled_text("Date in invalid format", date.as_str())),
        },
        None => Ok(None),
    }
}

/// What `bodhi::FedoraRelease::try_from` makes of the given text: a release,
/// or nothing where the text names no valid release.
pub uninterp spec fn parsed_release(s: Seq<char>) -> Option<bodhi::FedoraRelease>;

/// The text of a rejected release identifier, as `bodhi::InvalidValueError`
/// displays it.
pub open spec fn release_rejection(s: Seq<char>) -> Seq<char> {
    labelled(
        "Invalid value for FedoraRelease"@,
        if s.len() == 0 {
            "(empty string)"@
        } else {
            s
        },
    )
}

/// Relies on `bodhi::FedoraRelease::try_from(&str)`, which depends on the text
/// alone and, on failure, returns an error that displays as
/// `Invalid value for FedoraRelease: <text>` (`(empty string)` for empty text).
#[verifier::external_body]
fn parse_release(s: &str) -> (r: Result<bodhi::FedoraRelease, String>)
    ensures
        match parsed_release(s@) {
            Some(v) => r == Ok::<bodhi::FedoraRelease, String>(v),
            None => r is Err && r->Err_0@ == release_rejection(s@),
        },
{
    bodhi::FedoraRelease::try_from(s).map_err(|error| error.to_string())
}

/// Whether `v[k]` is the first text of `v` that names no release.
pub open spec fn first_invalid_release(v: Seq<String>, k: int) -> bool {
    &&& 0 <= k < v.len()
    &&& parsed_release(v[k]@) is None
    &&& forall|j: int| 0 <= j < k ==> (#[trigger] parsed_release(v[j]@)) is Some
}

/// Whether every text of `v` names a release.
pub open spec fn all_releases(v: Seq<String>) -> bool {
    forall|i: int| 0 <= i < v.len() ==> (#[trigger] parsed_release(v[i]@)) is Some
}

/// Coerces an optional list of release identifiers element by element,
/// stopping at the first that is not valid.
pub fn op_str_vec_to_op_release_vec(op_vec: Option<&Vec<String>>) -> (r: Result<Option<Vec<bodhi::FedoraRelease>>, String>)
    ensures
        match op_vec {
            None => r == Ok::<Option<Vec<bodhi::FedoraRelease>>, String>(None),
            Some(v) => {
                &&& r is Ok <==> all_releases(v@)
                &&& r is Ok ==> r->Ok_0 is Some && r->Ok_0->Some_0@.len() == v@.len()
                    && forall|i: int| 0 <= i < v@.len() ==>
                        Some(#[trigger] r->Ok_0->Some_0@[i]) == parsed_release(v@[i]@)
                &&& r is Err ==> exists|k: int| first_invalid_release(v@, k)
                    && r->Err_0@ == release_rejection(v@[k]@)
            },
        },
{
    match op_vec {
        Some(strings) => {
            let mut result: Vec<bodhi::FedoraRelease> = Vec::new();
            let mut i: usize = 0;
            while i < strings.len()
                invariant
                    op_vec == Some(strings),
                    i <= strings@.len(),
                    result@.len() == i,
                    forall|j: int| 0 <= j < i ==> Some(#[trigger] result@[j]) == parsed_release(strings@[j]@),
                decreases strings@.len() - i,
            {
                match parse_release(strings[i].as_str()) {
                    Ok(value) => result.push(value),
                    Err(error) => {
                        proof {
                            assert forall|j: int| 0 <= j < i implies (#[trigger] parsed_release(strings@[j]@)) is Some by {
                                assert(Some(result@[j]) == parsed_release(strings@[j]@));
                            }
                            assert(first_invalid_release(strings@, i as int));
                        }
                        return Err(error);
                    },
                };
                i = i + 1;
            }
            proof {
                assert forall|j: int| 0 <= j < strings@.len() implies (#[trigger] parsed_release(strings@[j]@)) is Some by {
                    assert(Some(result@[j]) == parsed_release(strings@[j]@));
                }
            }
            Ok(Some(result))
        },
        None => Ok(None),
    }
}

} // verus!
