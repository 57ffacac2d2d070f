//! Planning of requests: where a new update's builds come from, the
//! requirements field, and the guard against unfiltered queries.

use vstd::prelude::*;

use crate::cli::{BodhiCommand, Format};

verus! {

/// Where the builds of a new update come from.
#[derive(Debug)]
pub enum BuildSource {
    /// An explicit list of builds.
    Builds(Vec<String>),
    /// Every build of a build-system tag.
    Tag(String),
}

/// The text of the error when both sources of builds are given.
pub open spec fn both_sources() -> Seq<char> {
    "Both builds and koji tag specified."@
}

/// The text of the error when no source of builds is given.
pub open spec fn no_source() -> Seq<char> {
    "Neither builds nor koji tag specified."@
}

/// Picks the source of a new update's builds: exactly one of an explicit
/// build list and a tag must be given.
pub fn update_source(builds: Option<Vec<String>>, from_tag: Option<String>) -> (r: Result<BuildSource, String>)
    ensures
        match (builds, from_tag) {
            (Some(b), None) => r matches Ok(BuildSource::Builds(x)) && x == b,
            (None, Some(t)) => r matches Ok(BuildSource::Tag(x)) && x == t,
            (Some(_), Some(_)) => r is Err && r->Err_0@ == both_sources(),
            (None, None) => r is Err && r->Err_0@ == no_source(),
        },
{
    match (builds, from_tag) {
        (Some(b), None) => Ok(BuildSource::Builds(b)),
        (None, Some(t)) => Ok(BuildSource::Tag(t)),
        (Some(_), Some(_)) => Err(String::from_str("Both builds and koji tag specified.")),
        (None, None) => Err(String::from_str("Neither builds nor koji tag specified.")),
    }
}

/// The texts of a list of strings.
pub open spec fn texts(v: Seq<String>) -> Seq<Seq<char>> {
    v.map_values(|s: String| s@)
}

/// The items joined with commas between them.
pub open spec fn comma_joined(v: Seq<Seq<char>>) -> Seq<char>
    decreases v.len(),
{
    if v.len() == 0 {
        Seq::empty()
    } else if v.len() == 1 {
        v[0]
    } else {
        comma_joined(v.drop_last()) + ","@ + v.last()
    }
}

/// Joins the items with commas between them.
pub fn join_with_commas(items: &Vec<String>) -> (r: String)
    ensures
        r@ == comma_joined(texts(items@)),
{
    let mut acc = String::new();
    let mut i: usize = 0;
    proof {
        reveal_strlit(",");
    }
    while i < items.len()
        invariant
            i <= items@.len(),
            acc@ == comma_joined(texts(items@).take(i as int)),
        decreases items@.len() - i,
    {
        let ghost t = texts(items@);
        if i > 0 {
            acc.append(",");
        }
        acc.append(items[i].as_str());
        proof {
            assert(t.take(i + 1).drop_last() == t.take(i as int));
            if i == 0 {
                assert(t.take(1).len() == 1);
            }
        }
        i = i + 1;
    }
    proof {
        assert(texts(items@).take(items@.len() as int) == texts(items@));
    }
    acc
}

/// The requirements field of a request: the list joined with commas, left
/// out where there is no list, or where `drop_empty` is set and the joined
/// text is empty.
pub fn requirements_field(requirements: Option<&Vec<String>>, drop_empty: bool) -> (r: Option<String>)
    ensures
        match requirements {
            None => r is None,
            Some(v) => if drop_empty && comma_joined(texts(v@)).len() == 0 {
                r is None
            } else {
                r is Some && r->Some_0@ == comma_joined(texts(v@))
            },
        },
{
    match requirements {
        None => None,
        Some(v) => {
            let joined = join_with_commas(v);
            if drop_empty && joined.unicode_len() == 0 {
                None
            } else {
                Some(joined)
            }
        },
    }
}


/// What to do with a listing query.
#[derive(Clone, Copy, Debug, PartialEq, Eq, Structural)]
pub enum QueryAction {
    /// Do not query: the query has no filter and was not forced; print a
    /// warning and finish successfully.
    Refuse,
    /// Query, reporting progress per page where `progress` is set.
    Run { progress: bool },
}

/// The output format a command asked for, plain where it named none.
pub open spec fn format_or_plain(f: Option<Format>) -> Format {
    match f {
        Some(v) => v,
        None => Format::Plain,
    }
}

impl BodhiCommand {
    /// Whether a listing query names at least one filter.
    pub open spec fn query_filtered(&self) -> bool {
        match self {
            BodhiCommand::QueryOverrides { builds, expired, releases, users, .. } =>
                builds is Some || expired is Some || releases is Some || users is Some,
            BodhiCommand::QueryUpdates {
                alias, bugs, builds, critpath, content_type, locked, modified_before, modified_since,
                packages, pushed, pushed_before, pushed_since, releases, request, severity, status,
                submitted_before, submitted_since, suggestion, update_type, users, ..
            } => alias is Some || bugs is Some || builds is Some || critpath is Some
                || content_type is Some || locked is Some || modified_before is Some
                || modified_since is Some || packages is Some || pushed is Some
                || pushed_before is Some || pushed_since is Some || releases is Some
                || request is Some || severity is Some || status is Some
                || submitted_before is Some || submitted_since is Some || suggestion is Some
                || update_type is Some || users is Some,
            _ => false,
        }
    }

    /// The format a command prints in, plain where it named none; plain for
    /// commands without a format option.
    pub open spec fn format_of_command(&self) -> Format {
        match self {
            BodhiCommand::ComposeInfo { format, .. } => format_or_plain(*format),
            BodhiCommand::ComposeList { format } => format_or_plain(*format),
            BodhiCommand::QueryOverrides { format, .. } => format_or_plain(*format),
            BodhiCommand::QueryUpdates { format, .. } => format_or_plain(*format),
            BodhiCommand::ReleaseInfo { format, .. } => format_or_plain(*format),
            BodhiCommand::ReleaseList { format } => format_or_plain(*format),
            _ => Format::Plain,
        }
    }

    /// The format a command prints in.
    pub fn output_format(&self) -> (r: Format)
        ensures
            r == self.format_of_command(),
    {
        let f = match self {
            BodhiCommand::ComposeInfo { format, .. } => *format,
            BodhiCommand::ComposeList { format } => *format,
            BodhiCommand::QueryOverrides { format, .. } => *format,
            BodhiCommand::QueryUpdates { format, .. } => *format,
            BodhiCommand::ReleaseInfo { format, .. } => *format,
            BodhiCommand::ReleaseList { format } => *format,
            _ => None,
        };
        match f {
            Some(v) => v,
            None => Format::Plain,
        }
    }

    /// Whether a listing query names at least one filter.
    pub fn has_query_filter(&self) -> (r: bool)
        ensures
            r == self.query_filtered(),
    {
        match self {
            BodhiCommand::QueryOverrides { builds, expired, releases, users, .. } => {
                let mut long_running = true;
                if builds.is_some() {
                    long_running = false;
                }
                if expired.is_some() {
                    long_running = false;
                }
                if releases.is_some() {
                    long_running = false;
                }
                if users.is_some() {
                    long_running = false;
                }
                !long_running
            },
            BodhiCommand::QueryUpdates {
                alias, bugs, builds, critpath, content_type, locked, modified_before, modified_since,
                packages, pushed, pushed_before, pushed_since, releases, request, severity, status,
                submitted_before, submitted_since, suggestion, update_type, users, ..
            } => {
                alias.is_some() || bugs.is_some() || builds.is_some() || critpath.is_some()
                    || content_type.is_some() || locked.is_some() || modified_before.is_some()
                    || modified_since.is_some() || packages.is_some() || pushed.is_some()
                    || pushed_before.is_some() || pushed_since.is_some() || releases.is_some()
                    || request.is_some() || severity.is_some() || status.is_some()
                    || submitted_before.is_some() || submitted_since.is_some()
                    || suggestion.is_some() || update_type.is_some() || users.is_some()
            },
            _ => false,
        }
    }

    /// What to do with a listing query: refuse one with no filter unless it
    /// is forced, and report progress only in plain output. `None` for the
    /// other subcommands.
    pub fn query_action(&self) -> (r: Option<QueryAction>)
        ensures
            match self {
                BodhiCommand::QueryOverrides { force, .. } | BodhiCommand::QueryUpdates { force, .. } =>
                    if !self.query_filtered() && !*force {
                        r == Some(QueryAction::Refuse)
                    } else {
                        r == Some(QueryAction::Run { progress: self.format_of_command() == Format::Plain })
                    },
                _ => r is None,
            },
    {
        let force = match self {
            BodhiCommand::QueryOverrides { force, .. } => *force,
            BodhiCommand::QueryUpdates { force, .. } => *force,
            _ => {
                return None;
            },
        };
        if !self.has_query_filter() && !force {
            Some(QueryAction::Refuse)
        } else {
            let progress = match self.output_format() {
                Format::Plain => true,
                Format::JSON => false,
            };
            Some(QueryAction::Run { progress })
        }
    }
}

} // verus!
