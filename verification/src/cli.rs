//! What the command line tool decides, apart from what it reads and sends.
//!
//! The types here hold the arguments of the tool as plain values. The
//! functions say what follows from them: where the credentials come from,
//! whether to ask before posting, which command is meant.

use crate::command::Command;
use crate::context::{Categories, Category, Country, Tag, Tags, UserContext};
use crate::date::Date;
use crate::error::{Error, ErrorView};
use crate::perdiem::Kind;
use crate::text::{lowercase, matches_lowercase, to_chars, trim, trim_range};
use crate::timeperiod::{period_of, TimePeriod};
use std::path::{Path, PathBuf};
use vstd::prelude::*;
use vstd::string::StringExecFns;

verus! {

/// `std::path::PathBuf`, of which nothing is read here.
#[verifier::external_type_specification]
#[verifier::external_body]
pub struct ExPathBuf(PathBuf);

/// `std::path::Path`, of which nothing is read here.
#[verifier::external_type_specification]
#[verifier::external_body]
pub struct ExPath(Path);

/// What the tool is asked to do.
#[derive(Debug, PartialEq, Eq)]
pub enum Args {
    /// Ask for credentials and store them.
    Authenticate,
    /// Send something to the service.
    Post(Post),
    /// Look at contexts, or change them.
    Context(Context),
}

/// The arguments of `post`.
#[derive(Debug, PartialEq, Eq)]
pub struct Post {
    pub user_id: Option<String>,
    pub user_secret: Option<String>,
    /// Post without asking.
    pub yes: bool,
    /// Show what would be posted, and post nothing.
    pub dry_run: bool,
    /// Neither read credentials from the keychain nor store them there.
    pub no_keychain: bool,
    /// Forget the credentials that the keychain holds.
    pub clear_keychain_entry: bool,
    /// The directory of the contexts, if it is not the usual one.
    pub context_from: Option<PathBuf>,
    /// A day of the week that per diems are for.
    pub weekdate: Option<Date>,
    pub cmd: PostSubcommands,
}

/// What `post` can send.
#[derive(Debug, PartialEq, Eq)]
pub enum PostSubcommands {
    /// Per diems of a kind for a selection of days.
    PerDiem {
        context: String,
        time_period: String,
        kind: String,
        subtract: bool,
        comment: Option<String>,
    },
    /// A payload read from a file.
    FromFile { context: Option<String>, payload_type: String, input: PathBuf },
}

/// The arguments of `context`.
#[derive(Debug, PartialEq, Eq)]
pub struct Context {
    /// The directory of the contexts, if it is not the usual one.
    pub from: Option<PathBuf>,
    pub cmd: ContextSubcommand,
}

/// What `context` can do.
#[derive(Debug, PartialEq, Eq)]
pub enum ContextSubcommand {
    /// Name the contexts that there are.
    List,
    /// Write a context, new or in place of one of that name.
    Store {
        name: String,
        country: String,
        project: String,
        email: String,
        travel_tag_name: String,
        travel_unbillable: bool,
        category_per_diems_name: String,
    },
    /// Show a context.
    Get { name: String },
}

/// How far the tool goes before it posts.
#[derive(Debug, Clone, Copy, PartialEq, Eq, Structural)]
pub enum Mode {
    /// Show the payload and stop.
    DryRun,
    /// Post without asking.
    AutoConfirm,
    /// Ask, and post on a yes.
    Confirm,
}

/// Why the tool stops before it has posted.
#[derive(Debug, Clone, Copy, PartialEq, Eq, Structural)]
pub enum Refusal {
    /// Both `--auto-confirm` and `--dry-run` were given.
    ConflictingModes,
    /// A user id came without a secret.
    MissingSecret,
    /// A secret came without a user id.
    MissingUser,
    /// It was a dry run.
    DryRun,
    /// There is nobody to ask: standard input is no terminal.
    NoTerminal,
    /// The user said no.
    Declined,
}

/// Where the credentials come from.
#[derive(Debug, Clone, PartialEq, Eq)]
pub enum CredentialSource {
    /// They were given as arguments.
    Given { user: String, secret: String },
    /// The keychain, cleared first if `clear` is set. What it does not hold
    /// is asked for, and stored in it.
    Keychain { clear: bool },
    /// They are asked for, and not stored.
    Prompt,
}

/// A [`CredentialSource`] with its texts as sequences of characters.
pub ghost enum CredentialSourceView {
    Given { user: Seq<char>, secret: Seq<char> },
    Keychain { clear: bool },
    Prompt,
}

impl View for CredentialSource {
    type V = CredentialSourceView;

    open spec fn view(&self) -> CredentialSourceView {
        match *self {
            CredentialSource::Given { user, secret } => CredentialSourceView::Given {
                user: user@,
                secret: secret@,
            },
            CredentialSource::Keychain { clear } => CredentialSourceView::Keychain { clear },
            CredentialSource::Prompt => CredentialSourceView::Prompt,
        }
    }
}

impl Refusal {
    /// The sentence that tells the user why.
    pub open spec fn text(self) -> Seq<char> {
        match self {
            Refusal::ConflictingModes => "--auto-confirm and --dry-run are mutually exclusive."@,
            Refusal::MissingSecret => "Please provide the secret as well with --user-secret."@,
            Refusal::MissingUser => "Please provide the user as well with --user-id."@,
            Refusal::DryRun => "Aborted before post due to dry-run mode."@,
            Refusal::NoTerminal => "Cannot prompt if stdin is not a tty. Use -y to auto-confirm the operation."@,
            Refusal::Declined => "Aborted by user"@,
        }
    }

    /// The sentence that tells the user why.
    pub fn message(&self) -> (text: &'static str)
        ensures
            text@ == self.text(),
    {
        match self {
            Refusal::ConflictingModes => "--auto-confirm and --dry-run are mutually exclusive.",
            Refusal::MissingSecret => "Please provide the secret as well with --user-secret.",
            Refusal::MissingUser => "Please provide the user as well with --user-id.",
            Refusal::DryRun => "Aborted before post due to dry-run mode.",
            Refusal::NoTerminal => "Cannot prompt if stdin is not a tty. Use -y to auto-confirm the operation.",
            Refusal::Declined => "Aborted by user",
        }
    }
}

/// Where the credentials come from, by the arguments: from the arguments
/// where both are there, from nowhere where only one is, else from the
/// keychain or, without it, from the user.
pub open spec fn credential_source(
    user_id: Option<String>,
    user_secret: Option<String>,
    no_keychain: bool,
    clear_keychain_entry: bool,
) -> Result<CredentialSourceView, Refusal> {
    match (user_id, user_secret) {
        (Some(user), Some(secret)) => Ok(
            CredentialSourceView::Given { user: user@, secret: secret@ },
        ),
        (Some(_), None) => Err(Refusal::MissingSecret),
        (None, Some(_)) => Err(Refusal::MissingUser),
        (None, None) => if no_keychain {
            Ok(CredentialSourceView::Prompt)
        } else {
            Ok(CredentialSourceView::Keychain { clear: clear_keychain_entry })
        },
    }
}

/// How far to go, by the two flags. Together they contradict each other.
pub open spec fn mode_of(dry_run: bool, yes: bool) -> Result<Mode, Refusal> {
    if dry_run && yes {
        Err(Refusal::ConflictingModes)
    } else if dry_run {
        Ok(Mode::DryRun)
    } else if yes {
        Ok(Mode::AutoConfirm)
    } else {
        Ok(Mode::Confirm)
    }
}

/// Whether `answer` says yes: a `y` or `Y`, with nothing but whitespace
/// around it.
pub open spec fn says_yes(answer: Seq<char>) -> bool {
    lowercase(trim(answer)) == "y"@
}

impl Post {
    /// Where the credentials come from.
    pub fn credentials(&self) -> (source: Result<CredentialSource, Refusal>)
        ensures
            match credential_source(
                self.user_id,
                self.user_secret,
                self.no_keychain,
                self.clear_keychain_entry,
            ) {
                Ok(expected) => source matches Ok(s) && s@ == expected,
                Err(refusal) => source == Err::<CredentialSource, Refusal>(refusal),
            },
    {
        match (&self.user_id, &self.user_secret) {
            (Some(user), Some(secret)) => Ok(
                CredentialSource::Given { user: user.clone(), secret: secret.clone() },
            ),
            (Some(_), None) => Err(Refusal::MissingSecret),
            (None, Some(_)) => Err(Refusal::MissingUser),
            (None, None) => if self.no_keychain {
                Ok(CredentialSource::Prompt)
            } else {
                Ok(CredentialSource::Keychain { clear: self.clear_keychain_entry })
            },
        }
    }

    /// How far to go before posting.
    pub fn mode(&self) -> (mode: Result<Mode, Refusal>)
        ensures
            mode == mode_of(self.dry_run, self.yes),
    {
        match (self.dry_run, self.yes) {
            (true, true) => Err(Refusal::ConflictingModes),
            (true, false) => Ok(Mode::DryRun),
            (false, true) => Ok(Mode::AutoConfirm),
            (false, false) => Ok(Mode::Confirm),
        }
    }
}

impl Mode {
    /// What to do once the payload has been shown: `Ok(true)` to ask the
    /// user, `Ok(false)` to post at once. A dry run ends here, and so does a
    /// run that would have to ask while standard input is no terminal.
    pub fn before_post(&self, stdin_is_tty: bool) -> (ask: Result<bool, Refusal>)
        ensures
            ask == match *self {
                Mode::DryRun => Err::<bool, Refusal>(Refusal::DryRun),
                Mode::AutoConfirm => Ok(false),
                Mode::Confirm => if stdin_is_tty {
                    Ok(true)
                } else {
                    Err(Refusal::NoTerminal)
                },
            },
    {
        match self {
            Mode::DryRun => Err(Refusal::DryRun),
            Mode::AutoConfirm => Ok(false),
            Mode::Confirm => if stdin_is_tty {
                Ok(true)
            } else {
                Err(Refusal::NoTerminal)
            },
        }
    }
}

/// Reads the user's answer to the question whether to post.
pub fn confirmed(answer: &str) -> (go: Result<(), Refusal>)
    ensures
        says_yes(answer@) ==> go is Ok,
        !says_yes(answer@) ==> go == Err::<(), Refusal>(Refusal::Declined),
{
    let chars = to_chars(answer);
    assert(chars@.subrange(0, chars.len() as int) == answer@);
    let (lo, hi) = trim_range(&chars, 0, chars.len());
    if matches_lowercase(&chars, lo, hi, "y") {
        Ok(())
    } else {
        Err(Refusal::Declined)
    }
}

/// The per diems that the arguments ask for, as a command. The selection of
/// days is read first, then the kind; the first of them that cannot be read
/// is the error.
pub fn per_diem_command(
    user: UserContext,
    weekdate: Option<Date>,
    time_period: &str,
    kind: &str,
    subtract: bool,
    comment: Option<String>,
) -> (command: Result<Command, Error>)
    ensures
        match period_of(time_period@) {
            Err(error) => command matches Err(e) && e@ == error,
            Ok(selection) => match Kind::named(kind@) {
                None => command matches Err(e) && e@ == (ErrorView::InvalidKind { input: kind@ }),
                Some(k) => {
                    &&& command matches Ok(Command::PerDiem(ctx, period, parsed, sign))
                    &&& ctx == (crate::context::Context { user, reference_date: weekdate, comment })
                    &&& period@ == selection
                    &&& parsed == k
                    &&& sign == if subtract {
                        crate::perdiem::Mode::Subtract
                    } else {
                        crate::perdiem::Mode::Add
                    }
                },
            },
        },
        command matches Ok(made) ==> made.wf(),
{
    let period = match TimePeriod::parse(time_period) {
        Ok(period) => period,
        Err(error) => {
            return Err(error);
        },
    };
    let kind = match Kind::parse(kind) {
        Ok(kind) => kind,
        Err(error) => {
            return Err(error);
        },
    };
    let sign = if subtract {
        crate::perdiem::Mode::Subtract
    } else {
        crate::perdiem::Mode::Add
    };
    let ctx = crate::context::Context { user, reference_date: weekdate, comment };
    Ok(Command::PerDiem(ctx, period, kind, sign))
}

/// The settings of a user, from the arguments that write a context. Fails where
/// the country is not known.
pub fn user_context(
    project: String,
    email: String,
    country: &str,
    travel_tag_name: String,
    travel_unbillable: bool,
    category_per_diems_name: String,
) -> (made: Result<UserContext, Error>)
    ensures
        match Country::named(country@) {
            Some(c) => made matches Ok(user) && user == (UserContext {
                project,
                email,
                country: c,
                destination: None,
                categories: Categories { per_diems: Category { name: category_per_diems_name } },
                tags: Tags { travel: Tag { name: travel_tag_name, billable: !travel_unbillable } },
            }),
            None => made matches Err(e) && e@ == (ErrorView::InvalidCountry { input: country@ }),
        },
{
    let country = match Country::parse(country) {
        Ok(country) => country,
        Err(error) => {
            return Err(error);
        },
    };
    Ok(
        UserContext {
            project,
            email,
            country,
            destination: None,
            categories: Categories { per_diems: Category { name: category_per_diems_name } },
            tags: Tags { travel: Tag { name: travel_tag_name, billable: !travel_unbillable } },
        },
    )
}

/// The name of the file that holds the context called `name`.
pub open spec fn context_file_name(name: Seq<char>) -> Seq<char> {
    name + ".json"@
}

/// The name of the file that holds the context called `name`.
pub fn file_name(name: &str) -> (file: String)
    ensures
        file@ == context_file_name(name@),
{
    let mut file = String::from_str(name);
    file.append(".json");
    file
}

/// Calls `Path::join`, which adjoins `file` to `directory`. How the result
/// is written depends on the platform, and nothing is claimed of it.
#[verifier::external_body]
fn join(directory: &Path, file: &str) -> PathBuf {
    directory.join(file)
}

/// The path of the file in `directory` that holds the context called
/// `name`: `directory` with [`file_name`] of `name` adjoined.
pub fn file_path(directory: &Path, name: &str) -> PathBuf {
    let file = file_name(name);
    join(directory, file.as_str())
}

} // verus!
