//! The command model: output formats, subcommands and their parameters,
//! the authentication each needs, and the choice of server.

use vstd::prelude::*;

use crate::converters::{
    lower_of, lowercase, labelled, labelled_text, text_eq, ComposeRequest, ContentType, Karma,
    UpdateRequest, UpdateSeverity, UpdateStatus, UpdateSuggestion, UpdateType,
};

verus! {

/// How results are printed.
#[derive(Clone, Copy, Debug, PartialEq, Eq, Structural)]
pub enum Format {
    JSON,
    Plain,
}

/// The format that lowercase text names, if any.
pub open spec fn format_of(t: Seq<char>) -> Option<Format> {
    if t == "json"@ {
        Some(Format::JSON)
    } else if t == "plain"@ {
        Some(Format::Plain)
    } else {
        None
    }
}

impl Format {
    /// Reads a format from already lowercased text; `given` is the text as typed.
    pub fn from_folded(folded: &str, given: &str) -> (r: Result<Format, String>)
        ensures
            match format_of(folded@) {
                Some(v) => r == Ok::<Format, String>(v),
                None => r is Err && r->Err_0@ == labelled("Not a recognised value for format"@, given@),
            },
    {
        if text_eq(folded, "json") {
            Ok(Format::JSON)
        } else if text_eq(folded, "plain") {
            Ok(Format::Plain)
        } else {
            Err(labelled_text("Not a recognised value for format", given))
        }
    }

    /// Reads a format, `plain` or `json`, in any letter case.
    pub fn from_text(value: &str) -> (r: Result<Format, String>)
        ensures
            match format_of(lower_of(value@)) {
                Some(v) => r == Ok::<Format, String>(v),
                None => r is Err && r->Err_0@ == labelled("Not a recognised value for format"@, value@),
            },
    {
        let folded = lowercase(value);
        Format::from_folded(folded.as_str(), value)
    }
}

impl std::str::FromStr for Format {
    type Err = String;

    fn from_str(s: &str) -> (r: Result<Format, String>)
        ensures
            match format_of(lower_of(s@)) {
                Some(v) => r == Ok::<Format, String>(v),
                None => r is Err && r->Err_0@ == labelled("Not a recognised value for format"@, s@),
            },
    {
        Format::from_text(s)
    }
}


/// One invocation of the client: global options and one subcommand.
#[derive(Debug)]
pub struct BaseCommand {
    /// Use the staging instance of the service.
    pub staging: bool,
    /// Explicit server URL; goes together with `login_url`.
    pub bodhi_url: Option<String>,
    /// Explicit OpenID endpoint URL; goes together with `bodhi_url`.
    pub login_url: Option<String>,
    /// Do not keep the password in the session keyring.
    pub no_store_password: bool,
    /// Ignore a password stored in the session keyring.
    pub ignore_keyring: bool,
    /// Print more about what happens.
    pub verbose: bool,
    /// What to do.
    pub subcommand: BodhiCommand,
}

/// The subcommands and their parameters.
#[derive(Debug)]
pub enum BodhiCommand {
    /// Comment on an update.
    Comment { update: String, text: String, karma: Option<Karma> },
    /// Information about one compose.
    ComposeInfo { release: bodhi::FedoraRelease, request: ComposeRequest, format: Option<Format> },
    /// The running composes.
    ComposeList { format: Option<Format> },
    /// Create a buildroot override.
    CreateOverride { nvr: String, duration: u32, notes: String },
    /// Create buildroot overrides for every build of an update.
    CreateUpdateOverride { alias: String, duration: u32, notes: String },
    /// Create an update.
    CreateUpdate {
        autokarma: Option<bool>,
        autotime: Option<bool>,
        bugs: Option<Vec<u32>>,
        builds: Option<Vec<String>>,
        close_bugs: Option<bool>,
        display_name: Option<String>,
        from_tag: Option<String>,
        notes: String,
        require_bugs: Option<bool>,
        require_testcases: Option<bool>,
        requirements: Option<Vec<String>>,
        severity: Option<UpdateSeverity>,
        stable_days: Option<u32>,
        stable_karma: Option<i32>,
        suggestion: Option<UpdateSuggestion>,
        unstable_karma: Option<i32>,
        update_type: Option<UpdateType>,
    },
    /// Edit a buildroot override.
    EditOverride { nvr: String, duration: u32, notes: String },
    /// Edit an update.
    EditUpdate {
        alias: String,
        add_bugs: Option<Vec<u32>>,
        add_builds: Option<Vec<String>>,
        autokarma: Option<bool>,
        autotime: Option<bool>,
        close_bugs: Option<bool>,
        display_name: Option<String>,
        notes: Option<String>,
        remove_bugs: Option<Vec<u32>>,
        remove_builds: Option<Vec<String>>,
        requirements: Option<Vec<String>>,
        severity: Option<UpdateSeverity>,
        stable_days: Option<u32>,
        stable_karma: Option<i32>,
        suggestion: Option<UpdateSuggestion>,
        unstable_karma: Option<i32>,
        update_type: Option<UpdateType>,
    },
    /// Expire a buildroot override.
    ExpireOverride { nvr: String },
    /// List buildroot overrides.
    QueryOverrides {
        builds: Option<Vec<String>>,
        expired: Option<bool>,
        format: Option<Format>,
        releases: Option<Vec<bodhi::FedoraRelease>>,
        users: Option<Vec<String>>,
        force: bool,
    },
    /// List updates.
    QueryUpdates {
        alias: Option<String>,
        bugs: Option<Vec<u32>>,
        builds: Option<Vec<String>>,
        critpath: Option<bool>,
        content_type: Option<ContentType>,
        format: Option<Format>,
        locked: Option<bool>,
        modified_before: Option<bodhi::BodhiDate>,
        modified_since: Option<bodhi::BodhiDate>,
        packages: Option<Vec<String>>,
        pushed: Option<bool>,
        pushed_before: Option<bodhi::BodhiDate>,
        pushed_since: Option<bodhi::BodhiDate>,
        releases: Option<Vec<bodhi::FedoraRelease>>,
        request: Option<UpdateRequest>,
        severity: Option<UpdateSeverity>,
        status: Option<UpdateStatus>,
        submitted_before: Option<bodhi::BodhiDate>,
        submitted_since: Option<bodhi::BodhiDate>,
        suggestion: Option<UpdateSuggestion>,
        update_type: Option<UpdateType>,
        users: Option<Vec<String>>,
        force: bool,
    },
    /// Information about one release.
    ReleaseInfo { release: String, format: Option<Format> },
    /// The active releases.
    ReleaseList { format: Option<Format> },
    /// Ask for a status transition of an update.
    UpdateRequest { alias: String, request: UpdateRequest },
    /// Waive test results of an update.
    WaiveTests { alias: String, comment: String, tests: Option<Vec<String>> },
}

/// The subcommand of a command, without its parameters.
#[derive(Clone, Copy, Debug, PartialEq, Eq, Structural)]
pub enum CommandKind {
    Comment,
    ComposeInfo,
    ComposeList,
    CreateOverride,
    CreateUpdateOverride,
    CreateUpdate,
    EditOverride,
    EditUpdate,
    ExpireOverride,
    QueryOverrides,
    QueryUpdates,
    ReleaseInfo,
    ReleaseList,
    UpdateRequest,
    WaiveTests,
}

/// Whether a subcommand talks to the service as a logged-in user.
pub open spec fn kind_requires_auth(k: CommandKind) -> bool {
    match k {
        CommandKind::Comment => true,
        CommandKind::ComposeInfo => false,
        CommandKind::ComposeList => false,
        CommandKind::CreateOverride => true,
        CommandKind::CreateUpdateOverride => true,
        CommandKind::CreateUpdate => true,
        CommandKind::EditOverride => true,
        CommandKind::EditUpdate => true,
        CommandKind::ExpireOverride => true,
        CommandKind::QueryOverrides => false,
        CommandKind::QueryUpdates => false,
        CommandKind::ReleaseInfo => false,
        CommandKind::ReleaseList => false,
        CommandKind::UpdateRequest => true,
        CommandKind::WaiveTests => true,
    }
}

impl BodhiCommand {
    /// The subcommand, without its parameters.
    pub open spec fn kind_of(&self) -> CommandKind {
        match self {
            BodhiCommand::Comment { .. } => CommandKind::Comment,
            BodhiCommand::ComposeInfo { .. } => CommandKind::ComposeInfo,
            BodhiCommand::ComposeList { .. } => CommandKind::ComposeList,
            BodhiCommand::CreateOverride { .. } => CommandKind::CreateOverride,
            BodhiCommand::CreateUpdateOverride { .. } => CommandKind::CreateUpdateOverride,
            BodhiCommand::CreateUpdate { .. } => CommandKind::CreateUpdate,
            BodhiCommand::EditOverride { .. } => CommandKind::EditOverride,
            BodhiCommand::EditUpdate { .. } => CommandKind::EditUpdate,
            BodhiCommand::ExpireOverride { .. } => CommandKind::ExpireOverride,
            BodhiCommand::QueryOverrides { .. } => CommandKind::QueryOverrides,
            BodhiCommand::QueryUpdates { .. } => CommandKind::QueryUpdates,
            BodhiCommand::ReleaseInfo { .. } => CommandKind::ReleaseInfo,
            BodhiCommand::ReleaseList { .. } => CommandKind::ReleaseList,
            BodhiCommand::UpdateRequest { .. } => CommandKind::UpdateRequest,
            BodhiCommand::WaiveTests { .. } => CommandKind::WaiveTests,
        }
    }

    /// The subcommand, without its parameters.
    pub fn kind(&self) -> (r: CommandKind)
        ensures
            r == self.kind_of(),
    {
        match self {
            BodhiCommand::Comment { .. } => CommandKind::Comment,
            BodhiCommand::ComposeInfo { .. } => CommandKind::ComposeInfo,
            BodhiCommand::ComposeList { .. } => CommandKind::ComposeList,
            BodhiCommand::CreateOverride { .. } => CommandKind::CreateOverride,
            BodhiCommand::CreateUpdateOverride { .. } => CommandKind::CreateUpdateOverride,
            BodhiCommand::CreateUpdate { .. } => CommandKind::CreateUpdate,
            BodhiCommand::EditOverride { .. } => CommandKind::EditOverride,
            BodhiCommand::EditUpdate { .. } => CommandKind::EditUpdate,
            BodhiCommand::ExpireOverride { .. } => CommandKind::ExpireOverride,
            BodhiCommand::QueryOverrides { .. } => CommandKind::QueryOverrides,
            BodhiCommand::QueryUpdates { .. } => CommandKind::QueryUpdates,
            BodhiCommand::ReleaseInfo { .. } => CommandKind::ReleaseInfo,
            BodhiCommand::ReleaseList { .. } => CommandKind::ReleaseList,
            BodhiCommand::UpdateRequest { .. } => CommandKind::UpdateRequest,
            BodhiCommand::WaiveTests { .. } => CommandKind::WaiveTests,
        }
    }
}

impl BaseCommand {
    /// Whether this invocation has to log in to the service; decided by the
    /// subcommand alone.
    pub fn authenticated(&self) -> (r: bool)
        ensures
            r == kind_requires_auth(self.subcommand.kind_of()),
    {
        match self.subcommand {
            BodhiCommand::Comment { .. } => true,
            BodhiCommand::ComposeInfo { .. } => false,
            BodhiCommand::ComposeList { .. } => false,
            BodhiCommand::CreateOverride { .. } => true,
            BodhiCommand::CreateUpdateOverride { .. } => true,
            BodhiCommand::CreateUpdate { .. } => true,
            BodhiCommand::EditOverride { .. } => true,
            BodhiCommand::EditUpdate { .. } => true,
            BodhiCommand::ExpireOverride { .. } => true,
            BodhiCommand::QueryOverrides { .. } => false,
            BodhiCommand::QueryUpdates { .. } => false,
            BodhiCommand::ReleaseInfo { .. } => false,
            BodhiCommand::ReleaseList { .. } => false,
            BodhiCommand::UpdateRequest { .. } => true,
            BodhiCommand::WaiveTests { .. } => true,
        }
    }
}

impl BaseCommand {
    /// Whether the session keyring is consulted for the password: only for
    /// a login, and not where the user asked to keep nothing there.
    pub fn needs_keyring(&self) -> (r: bool)
        ensures
            r == (kind_requires_auth(self.subcommand.kind_of()) && !self.no_store_password),
    {
        self.authenticated() && !self.no_store_password
    }
}

/// Whether a login is needed is the same for any two commands with the same
/// subcommand, whatever their parameters and global options.
pub proof fn lemma_authentication_by_subcommand(a: BaseCommand, b: BaseCommand)
    requires
        a.subcommand.kind_of() == b.subcommand.kind_of(),
    ensures
        kind_requires_auth(a.subcommand.kind_of()) == kind_requires_auth(b.subcommand.kind_of()),
{
}

/// The service instance to talk to.
#[derive(Debug, PartialEq, Eq)]
pub enum Server {
    /// The production instance.
    Production,
    /// The staging instance.
    Staging,
    /// An instance at explicit server and login URLs.
    Custom { bodhi_url: String, login_url: String },
}

impl BaseCommand {
    /// The server selected by the global options: production by default, the
    /// staging instance, or an explicit pair of URLs; any other combination is
    /// a configuration error.
    pub fn server(&self) -> (r: Result<Server, String>)
        ensures
            match (self.staging, self.bodhi_url, self.login_url) {
                (false, None, None) => r == Ok::<Server, String>(Server::Production),
                (true, None, None) => r == Ok::<Server, String>(Server::Staging),
                (false, Some(u), Some(l)) => r is Ok && (match r->Ok_0 {
                    Server::Custom { bodhi_url, login_url } => bodhi_url@ == u@ && login_url@ == l@,
                    _ => false,
                }),
                _ => r is Err && r->Err_0@ == conflicting_servers(),
            },
    {
        match (self.staging, &self.bodhi_url, &self.login_url) {
            (false, None, None) => Ok(Server::Production),
            (true, None, None) => Ok(Server::Staging),
            (false, Some(url), Some(login)) => Ok(Server::Custom { bodhi_url: url.clone(), login_url: login.clone() }),
            _ => {
                let msg = String::from_str(
                    "Conflicting server options: give either --staging, or both --bodhi-url and --login-url.",
                );
                Err(msg)
            },
        }
    }
}

/// The text of the error for inconsistent server options.
pub open spec fn conflicting_servers() -> Seq<char> {
    "Conflicting server options: give either --staging, or both --bodhi-url and --login-url."@
}

} // verus!
