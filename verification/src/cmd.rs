//! What the commands share: the reasons for which one refuses to run, the
//! form of its output, and the texts it prints.

use vstd::prelude::*;
use vstd::string::StringExecFns;

verus! {

/// Why a command refused to run, before it reached the service.
#[derive(Clone, Copy, Debug, PartialEq, Eq, Structural)]
pub enum CmdError {
    /// No instance name was given and none can be asked for.
    InstanceNameRequired,
    /// No organization was given and none can be asked for.
    OrganizationRequired,
    /// No project was given and none can be asked for.
    ProjectRequired,
    /// No description was given and none can be asked for.
    DescriptionRequired,
    /// No number of CPUs was given and none can be asked for.
    CpusRequired,
    /// No amount of memory was given and none can be asked for.
    MemoryRequired,
    /// The command destroys or interrupts something, was not confirmed, and
    /// cannot ask.
    ConfirmRequired,
    /// A list was asked for with a limit below one.
    LimitTooSmall,
}

/// The form in which a command prints what the service returned.
#[derive(Clone, Copy, Debug, PartialEq, Eq, Structural)]
pub enum Output {
    /// The plain JSON of the result.
    Json,
    /// A table for a reader.
    Table,
}

/// How a list command fetches its items.
#[derive(Clone, Copy, Debug, PartialEq, Eq, Structural)]
pub enum Fetch {
    /// Every page.
    All,
    /// One page of at most so many items.
    Page(u32),
}

/// The order of a list by name.
#[derive(Clone, Copy, Debug, PartialEq, Eq, Structural)]
pub enum NameSortMode {
    /// By name, ascending.
    NameAscending,
}

impl Default for NameSortMode {
    fn default() -> (mode: NameSortMode)
        ensures
            mode == NameSortMode::NameAscending,
    {
        NameSortMode::NameAscending
    }
}

impl CmdError {
    /// The text of the error.
    pub open spec fn text(&self) -> Seq<char> {
        match self {
            CmdError::InstanceNameRequired => "[instance_name] required in non-interactive mode"@,
            CmdError::OrganizationRequired => "--organization,-o required in non-interactive mode"@,
            CmdError::ProjectRequired => "--project,-p required in non-interactive mode"@,
            CmdError::DescriptionRequired => "--description,-D required in non-interactive mode"@,
            CmdError::CpusRequired => "--cpus,-c required in non-interactive mode"@,
            CmdError::MemoryRequired => "--memory,m required in non-interactive mode"@,
            CmdError::ConfirmRequired => "--confirm required when not running interactively"@,
            CmdError::LimitTooSmall => "--limit must be greater than 0"@,
        }
    }

    /// The text of the error, as the user reads it.
    pub fn message(&self) -> (res: &'static str)
        ensures
            res@ == self.text(),
    {
        match self {
            CmdError::InstanceNameRequired => "[instance_name] required in non-interactive mode",
            CmdError::OrganizationRequired => "--organization,-o required in non-interactive mode",
            CmdError::ProjectRequired => "--project,-p required in non-interactive mode",
            CmdError::DescriptionRequired => "--description,-D required in non-interactive mode",
            CmdError::CpusRequired => "--cpus,-c required in non-interactive mode",
            CmdError::MemoryRequired => "--memory,m required in non-interactive mode",
            CmdError::ConfirmRequired => "--confirm required when not running interactively",
            CmdError::LimitTooSmall => "--limit must be greater than 0",
        }
    }
}

/// The form of output that the `--json` flag selects.
pub fn output_for(json: bool) -> (output: Output)
    ensures
        output == (if json {
            Output::Json
        } else {
            Output::Table
        }),
{
    if json {
        Output::Json
    } else {
        Output::Table
    }
}

/// What `--confirm` and the terminal allow: a command that was not confirmed
/// runs only where it can ask.
pub fn check_confirm(confirm: bool, can_prompt: bool) -> (res: Result<(), CmdError>)
    ensures
        res == (if !can_prompt && !confirm {
            Err::<(), CmdError>(CmdError::ConfirmRequired)
        } else {
            Ok::<(), CmdError>(())
        }),
{
    if !can_prompt && !confirm {
        Err(CmdError::ConfirmRequired)
    } else {
        Ok(())
    }
}

/// What `--limit` and `--paginate` ask for: every page, or one page of
/// `limit` items. A limit below one is refused.
pub fn fetch_for(limit: u32, paginate: bool) -> (res: Result<Fetch, CmdError>)
    ensures
        res == (if limit < 1 {
            Err::<Fetch, CmdError>(CmdError::LimitTooSmall)
        } else if paginate {
            Ok::<Fetch, CmdError>(Fetch::All)
        } else {
            Ok::<Fetch, CmdError>(Fetch::Page(limit))
        }),
{
    if limit < 1 {
        Err(CmdError::LimitTooSmall)
    } else if paginate {
        Ok(Fetch::All)
    } else {
        Ok(Fetch::Page(limit))
    }
}

/// The full name of a project: its organization, a slash, its own name.
pub open spec fn full_name_of(organization: Seq<char>, project: Seq<char>) -> Seq<char> {
    organization + "/"@ + project
}

/// The full name of a project.
pub fn full_name(organization: &str, project: &str) -> (name: String)
    ensures
        name@ == full_name_of(organization@, project@),
{
    let mut name = organization.to_owned();
    name.append("/");
    name.append(project);
    name
}

/// The line that reports what was done to a thing: the icon, the deed, the
/// name of the thing, a joining word and the place, with a space between
/// each two.
pub open spec fn report_of(
    icon: Seq<char>,
    deed: Seq<char>,
    name: Seq<char>,
    joint: Seq<char>,
    place: Seq<char>,
) -> Seq<char> {
    icon + " "@ + deed + " "@ + name + " "@ + joint + " "@ + place
}

/// The line that reports what was done to a thing.
pub fn report(icon: &str, deed: &str, name: &str, joint: &str, place: &str) -> (line: String)
    ensures
        line@ == report_of(icon@, deed@, name@, joint@, place@),
{
    let mut line = icon.to_owned();
    line.append(" ");
    line.append(deed);
    line.append(" ");
    line.append(name);
    line.append(" ");
    line.append(joint);
    line.append(" ");
    line.append(place);
    line
}

/// The question that asks the user to confirm a deed by typing a name.
pub open spec fn confirm_prompt_of(name: Seq<char>, deed: Seq<char>) -> Seq<char> {
    "Type "@ + name + " to confirm "@ + deed + ":"@
}

/// The question that asks the user to confirm a deed by typing a name.
pub fn confirm_prompt(name: &str, deed: &str) -> (prompt: String)
    ensures
        prompt@ == confirm_prompt_of(name@, deed@),
{
    let mut prompt = "Type ".to_owned();
    prompt.append(name);
    prompt.append(" to confirm ");
    prompt.append(deed);
    prompt.append(":");
    prompt
}

/// Whether what the user typed confirms: whether it is `expected` once the
/// whitespace at either end is dropped.
pub fn confirms(input: &str, expected: &str) -> (yes: bool)
    ensures
        yes == (crate::text::trimmed(input@) == expected@),
{
    crate::text::trim(input).to_owned() == expected.to_owned()
}

/// The address of a thing in the web console of a host.
pub open spec fn web_url_of(host: Seq<char>, name: Seq<char>) -> Seq<char> {
    "https://"@ + host + "/"@ + name
}

/// The address of a thing in the web console of a host.
pub fn web_url(host: &str, name: &str) -> (url: String)
    ensures
        url@ == web_url_of(host@, name@),
{
    let mut url = "https://".to_owned();
    url.append(host);
    url.append("/");
    url.append(name);
    url
}

} // verus!
