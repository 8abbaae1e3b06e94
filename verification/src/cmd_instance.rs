//! The commands on instances: create, list, edit, view and delete them,
//! list their disks, and start, stop and reboot them.
//!
//! A command here decides; it neither asks the user nor reaches the service.
//! Its caller does both, led by what the command answers.

use crate::cmd::{
    check_confirm, confirm_prompt, confirm_prompt_of, confirms, fetch_for, full_name,
    full_name_of, output_for, report, report_of, web_url, web_url_of, CmdError, Fetch,
    NameSortMode, Output,
};
use crate::text::trimmed;
use vstd::prelude::*;

verus! {

/// Create, list, edit, view, and delete instances. Additionally, start,
/// stop, and reboot instances.
#[derive(Clone, Debug)]
pub struct CmdInstance {
    pub subcmd: SubCommand,
}

/// The commands on instances.
#[derive(Clone, Debug)]
pub enum SubCommand {
    Create(CmdInstanceCreate),
    Delete(CmdInstanceDelete),
    Disks(CmdInstanceDisks),
    Edit(CmdInstanceEdit),
    List(CmdInstanceList),
    Start(CmdInstanceStart),
    Stop(CmdInstanceStop),
    Reboot(CmdInstanceReboot),
    View(CmdInstanceView),
}

/// Create a new instance. What is not given is asked for, where the terminal
/// allows it. The instance name is used as the hostname where none is given.
#[derive(Clone, Debug)]
pub struct CmdInstanceCreate {
    /// The name of the instance to create.
    pub instance: String,
    /// The project that will hold the instance.
    pub project: String,
    /// The organization that holds the project.
    pub organization: String,
    /// The description for the instance.
    pub description: String,
    /// The hostname for the instance.
    pub hostname: String,
    /// The memory to allocate for the instance, in bytes.
    pub memory: i64,
    /// The number of CPUs to allocate for the instance.
    pub cpus: i64,
}

/// Delete an instance.
#[derive(Clone, Debug)]
pub struct CmdInstanceDelete {
    /// The instance to delete. Can be an ID or name.
    pub instance: String,
    /// The project to delete the instance from.
    pub project: String,
    /// The organization that holds the project.
    pub organization: String,
    /// Confirm deletion without prompting.
    pub confirm: bool,
}

/// List the disks attached to an instance.
#[derive(Clone, Debug)]
pub struct CmdInstanceDisks {
    /// The instance to view the disks for.
    pub instance: String,
    /// The project that holds the instance.
    pub project: String,
    /// The organization to view the project.
    pub organization: String,
    /// Open a project in the browser.
    pub web: bool,
    /// Output JSON.
    pub json: bool,
}

/// Edit instance settings.
#[derive(Clone, Debug)]
pub struct CmdInstanceEdit {}

/// List instances.
#[derive(Clone, Debug)]
pub struct CmdInstanceList {
    /// The project that holds the instances.
    pub project: String,
    /// The organization that holds the project.
    pub organization: String,
    /// The order in which to sort the results.
    pub sort_by: NameSortMode,
    /// Maximum number of items to list.
    pub limit: u32,
    /// Make additional HTTP requests to fetch all pages.
    pub paginate: bool,
    /// Output JSON.
    pub json: bool,
}

/// Start an instance.
#[derive(Clone, Debug)]
pub struct CmdInstanceStart {
    /// The instance to start. Can be an ID or name.
    pub instance: String,
    /// The project that holds the instance.
    pub project: String,
    /// The organization that holds the project.
    pub organization: String,
}

/// Stop an instance.
#[derive(Clone, Debug)]
pub struct CmdInstanceStop {
    /// The instance to stop. Can be an ID or name.
    pub instance: String,
    /// The project that holds the instance.
    pub project: String,
    /// The organization that holds the project.
    pub organization: String,
    /// Confirm stop without prompting.
    pub confirm: bool,
}

/// Reboot an instance.
#[derive(Clone, Debug)]
pub struct CmdInstanceReboot {
    /// The instance to reboot. Can be an ID or name.
    pub instance: String,
    /// The project that holds the instance.
    pub project: String,
    /// The organization that holds the project.
    pub organization: String,
    /// Confirm reboot without prompting.
    pub confirm: bool,
}

/// View an instance.
#[derive(Clone, Debug)]
pub struct CmdInstanceView {
    /// The instance to view. Can be an ID or name.
    pub instance: String,
    /// The project that holds the instance.
    pub project: String,
    /// The organization that holds the project.
    pub organization: String,
    /// Open the instance in the browser.
    pub web: bool,
    /// Output JSON.
    pub json: bool,
}

/// What `create` does next, in the order in which it does it.
#[derive(Clone, Copy, Debug, PartialEq, Eq, Structural)]
pub enum CreateStep {
    /// Ask for the organization.
    AskOrganization,
    /// Fetch the projects of the organization and let the user choose one.
    ChooseProject,
    /// Ask for the name of the instance.
    AskName,
    /// Ask for the description.
    AskDescription,
    /// Ask for the hostname.
    AskHostname,
    /// Ask for the amount of memory.
    AskMemory,
    /// Ask for the number of CPUs.
    AskCpus,
    /// Send the request to the service.
    Submit,
}

/// What came back from a step: a text that the user typed or chose, or a
/// number that the user typed.
#[derive(Clone, Debug)]
pub enum Answer {
    Text(String),
    Number(i64),
}

/// A `create` under way: the command as far as it is filled in, the step that
/// is due, and whether the name was asked for.
#[derive(Clone, Debug)]
pub struct CreateSession {
    pub cmd: CmdInstanceCreate,
    pub step: CreateStep,
    pub named: bool,
}

/// What is sent to the service to create an instance.
#[derive(Clone, Debug)]
pub struct InstanceRequest {
    pub name: String,
    pub description: String,
    pub hostname: String,
    pub memory: i64,
    pub ncpus: i64,
}

/// What `view` does.
#[derive(Clone, Debug)]
pub enum ViewPlan {
    /// Open the address in a browser.
    Browse(String),
    /// Fetch the instance and print it in the given form.
    Show(Output),
}

impl CreateStep {
    /// The place of the step in the order of the steps.
    pub open spec fn rank(self) -> int {
        match self {
            CreateStep::AskOrganization => 0,
            CreateStep::ChooseProject => 1,
            CreateStep::AskName => 2,
            CreateStep::AskDescription => 3,
            CreateStep::AskHostname => 4,
            CreateStep::AskMemory => 5,
            CreateStep::AskCpus => 6,
            CreateStep::Submit => 7,
        }
    }

    /// The step that comes after this one. Nothing comes after `Submit`.
    pub open spec fn next(self) -> CreateStep {
        match self {
            CreateStep::AskOrganization => CreateStep::ChooseProject,
            CreateStep::ChooseProject => CreateStep::AskName,
            CreateStep::AskName => CreateStep::AskDescription,
            CreateStep::AskDescription => CreateStep::AskHostname,
            CreateStep::AskHostname => CreateStep::AskMemory,
            CreateStep::AskMemory => CreateStep::AskCpus,
            CreateStep::AskCpus => CreateStep::Submit,
            CreateStep::Submit => CreateStep::Submit,
        }
    }

    /// The step that comes after this one.
    pub fn following(&self) -> (step: CreateStep)
        ensures
            step == self.next(),
    {
        match self {
            CreateStep::AskOrganization => CreateStep::ChooseProject,
            CreateStep::ChooseProject => CreateStep::AskName,
            CreateStep::AskName => CreateStep::AskDescription,
            CreateStep::AskDescription => CreateStep::AskHostname,
            CreateStep::AskHostname => CreateStep::AskMemory,
            CreateStep::AskMemory => CreateStep::AskCpus,
            CreateStep::AskCpus => CreateStep::Submit,
            CreateStep::Submit => CreateStep::Submit,
        }
    }

    /// The question of the step, for the steps that ask one.
    pub open spec fn prompt_text(self) -> Option<Seq<char>> {
        match self {
            CreateStep::AskOrganization => Some("Project organization:"@),
            CreateStep::ChooseProject => Some("Select project:"@),
            CreateStep::AskName => Some("Instance name:"@),
            CreateStep::AskDescription => Some("Instance description:"@),
            CreateStep::AskHostname => Some("Instance hostname:"@),
            CreateStep::AskMemory => Some("Instance memory:"@),
            CreateStep::AskCpus => Some("Instance CPUs:"@),
            CreateStep::Submit => None,
        }
    }

    /// The question of the step, for the steps that ask one.
    pub fn prompt(&self) -> (res: Option<&'static str>)
        ensures
            match res {
                Some(text) => self.prompt_text() == Some(text@),
                None => self.prompt_text() is None,
            },
    {
        match self {
            CreateStep::AskOrganization => Some("Project organization:"),
            CreateStep::ChooseProject => Some("Select project:"),
            CreateStep::AskName => Some("Instance name:"),
            CreateStep::AskDescription => Some("Instance description:"),
            CreateStep::AskHostname => Some("Instance hostname:"),
            CreateStep::AskMemory => Some("Instance memory:"),
            CreateStep::AskCpus => Some("Instance CPUs:"),
            CreateStep::Submit => None,
        }
    }
}

impl CmdInstanceCreate {
    /// What a terminal that cannot ask misses, in the order in which it is
    /// looked for: the name, the organization, the project, the description,
    /// the CPUs, the memory.
    pub open spec fn missing(&self) -> Option<CmdError> {
        if self.instance@.len() == 0 {
            Some(CmdError::InstanceNameRequired)
        } else if self.organization@.len() == 0 {
            Some(CmdError::OrganizationRequired)
        } else if self.project@.len() == 0 {
            Some(CmdError::ProjectRequired)
        } else if self.description@.len() == 0 {
            Some(CmdError::DescriptionRequired)
        } else if self.cpus == 0 {
            Some(CmdError::CpusRequired)
        } else if self.memory == 0 {
            Some(CmdError::MemoryRequired)
        } else {
            None
        }
    }

    /// Whether the command can run: where the terminal cannot ask, nothing
    /// may be missing.
    pub fn check(&self, can_prompt: bool) -> (res: Result<(), CmdError>)
        ensures
            res == (if can_prompt || self.missing() is None {
                Ok::<(), CmdError>(())
            } else {
                Err::<(), CmdError>(self.missing()->Some_0)
            }),
    {
        if can_prompt {
            Ok(())
        } else if self.instance.as_str().is_empty() {
            Err(CmdError::InstanceNameRequired)
        } else if self.organization.as_str().is_empty() {
            Err(CmdError::OrganizationRequired)
        } else if self.project.as_str().is_empty() {
            Err(CmdError::ProjectRequired)
        } else if self.description.as_str().is_empty() {
            Err(CmdError::DescriptionRequired)
        } else if self.cpus == 0 {
            Err(CmdError::CpusRequired)
        } else if self.memory == 0 {
            Err(CmdError::MemoryRequired)
        } else {
            Ok(())
        }
    }

    /// Whether a step has something to do. The organization, the project and
    /// the name are asked for where they are missing. The description, the
    /// hostname, the memory and the CPUs are asked for only where they are
    /// missing and the name was asked for too (`named`).
    pub open spec fn asks(&self, step: CreateStep, named: bool) -> bool {
        match step {
            CreateStep::AskOrganization => self.organization@.len() == 0,
            CreateStep::ChooseProject => self.project@.len() == 0,
            CreateStep::AskName => self.instance@.len() == 0,
            CreateStep::AskDescription => named && self.description@.len() == 0,
            CreateStep::AskHostname => named && self.hostname@.len() == 0,
            CreateStep::AskMemory => named && self.memory == 0,
            CreateStep::AskCpus => named && self.cpus == 0,
            CreateStep::Submit => true,
        }
    }

    /// The step that is due: the first from `from` on that has something to
    /// do.
    pub open spec fn due(&self, from: CreateStep, named: bool) -> CreateStep
        decreases 7 - from.rank(),
    {
        if self.asks(from, named) {
            from
        } else {
            self.due(from.next(), named)
        }
    }

    /// The step to take next: the first from `from` on that has something to
    /// do. `named` says whether the name was asked for.
    pub fn next_step(&self, from: CreateStep, named: bool) -> (step: CreateStep)
        ensures
            step == self.due(from, named),
            from.rank() <= step.rank(),
    {
        let mut step = from;
        loop
            invariant
                from.rank() <= step.rank(),
                self.due(from, named) == self.due(step, named),
            ensures
                from.rank() <= step.rank(),
                step == self.due(from, named),
            decreases 7 - step.rank(),
        {
            let due = match step {
                CreateStep::AskOrganization => self.organization.as_str().is_empty(),
                CreateStep::ChooseProject => self.project.as_str().is_empty(),
                CreateStep::AskName => self.instance.as_str().is_empty(),
                CreateStep::AskDescription => named && self.description.as_str().is_empty(),
                CreateStep::AskHostname => named && self.hostname.as_str().is_empty(),
                CreateStep::AskMemory => named && self.memory == 0,
                CreateStep::AskCpus => named && self.cpus == 0,
                CreateStep::Submit => true,
            };
            if due {
                break;
            }
            step = step.following();
        }
        step
    }

    /// The command after an answer to a step is stored: a text for the
    /// organization, the project, the name, the description and the
    /// hostname, a number for the memory and the CPUs. No other answer fits.
    pub open spec fn with_answer(self, step: CreateStep, answer: Answer) -> Option<
        CmdInstanceCreate,
    > {
        match (step, answer) {
            (CreateStep::AskOrganization, Answer::Text(t)) => Some(
                CmdInstanceCreate { organization: t, ..self },
            ),
            (CreateStep::ChooseProject, Answer::Text(t)) => Some(
                CmdInstanceCreate { project: t, ..self },
            ),
            (CreateStep::AskName, Answer::Text(t)) => Some(
                CmdInstanceCreate { instance: t, ..self },
            ),
            (CreateStep::AskDescription, Answer::Text(t)) => Some(
                CmdInstanceCreate { description: t, ..self },
            ),
            (CreateStep::AskHostname, Answer::Text(t)) => Some(
                CmdInstanceCreate { hostname: t, ..self },
            ),
            (CreateStep::AskMemory, Answer::Number(n)) => Some(
                CmdInstanceCreate { memory: n, ..self },
            ),
            (CreateStep::AskCpus, Answer::Number(n)) => Some(CmdInstanceCreate { cpus: n, ..self }),
            _ => None,
        }
    }

    /// The hostname that the instance gets: the one given, or the name of the
    /// instance where none is given.
    pub open spec fn hostname_of(&self) -> Seq<char> {
        if self.hostname@.len() == 0 {
            self.instance@
        } else {
            self.hostname@
        }
    }

    /// What is sent to the service.
    pub fn request(&self) -> (body: InstanceRequest)
        ensures
            body.name@ == self.instance@,
            body.description@ == self.description@,
            body.hostname@ == self.hostname_of(),
            body.memory == self.memory,
            body.ncpus == self.cpus,
    {
        let hostname = if self.hostname.as_str().is_empty() {
            self.instance.clone()
        } else {
            self.hostname.clone()
        };
        InstanceRequest {
            name: self.instance.clone(),
            description: self.description.clone(),
            hostname,
            memory: self.memory,
            ncpus: self.cpus,
        }
    }

    /// The line that reports the new instance.
    pub fn created_message(&self, icon: &str) -> (line: String)
        ensures
            line@ == report_of(
                icon@,
                "Successfully created instance"@,
                self.instance@,
                "in"@,
                full_name_of(self.organization@, self.project@),
            ),
    {
        let place = full_name(self.organization.as_str(), self.project.as_str());
        report(icon, "Successfully created instance", self.instance.as_str(), "in", place.as_str())
    }
}

impl CreateSession {
    /// Starts a `create`: refused where something is missing that cannot be
    /// asked for, else at the first step that has something to do.
    pub fn begin(cmd: CmdInstanceCreate, can_prompt: bool) -> (res: Result<
        CreateSession,
        CmdError,
    >)
        ensures
            match res {
                Ok(session) => {
                    &&& can_prompt || cmd.missing() is None
                    &&& session.cmd == cmd
                    &&& !session.named
                    &&& session.step == cmd.due(CreateStep::AskOrganization, false)
                },
                Err(e) => !can_prompt && cmd.missing() == Some(e),
            },
    {
        match cmd.check(can_prompt) {
            Err(e) => Err(e),
            Ok(()) => {
                let step = cmd.next_step(CreateStep::AskOrganization, false);
                Ok(CreateSession { cmd, step, named: false })
            },
        }
    }

    /// Takes the answer to the step that is due: stores it, notes whether the
    /// name was asked for, and goes on to the next step that has something to
    /// do. An answer that does not fit the step is not accepted and changes
    /// nothing. Every accepted answer brings the session nearer to `Submit`.
    pub fn answer(&mut self, answer: Answer) -> (accepted: bool)
        ensures
            match old(self).cmd.with_answer(old(self).step, answer) {
                Some(cmd) => {
                    &&& accepted
                    &&& final(self).cmd == cmd
                    &&& final(self).named == (old(self).named || old(self).step
                        == CreateStep::AskName)
                    &&& final(self).step == cmd.due(old(self).step.next(), final(self).named)
                    &&& final(self).step.rank() > old(self).step.rank()
                },
                None => !accepted && *final(self) == *old(self),
            },
    {
        match (self.step, answer) {
            (CreateStep::AskOrganization, Answer::Text(t)) => {
                self.cmd.organization = t;
            },
            (CreateStep::ChooseProject, Answer::Text(t)) => {
                self.cmd.project = t;
            },
            (CreateStep::AskName, Answer::Text(t)) => {
                self.cmd.instance = t;
                self.named = true;
            },
            (CreateStep::AskDescription, Answer::Text(t)) => {
                self.cmd.description = t;
            },
            (CreateStep::AskHostname, Answer::Text(t)) => {
                self.cmd.hostname = t;
            },
            (CreateStep::AskMemory, Answer::Number(n)) => {
                self.cmd.memory = n;
            },
            (CreateStep::AskCpus, Answer::Number(n)) => {
                self.cmd.cpus = n;
            },
            _ => {
                return false;
            },
        }
        self.step = self.cmd.next_step(self.step.following(), self.named);
        true
    }
}

impl CmdInstanceDelete {
    /// Whether the command can run: it must be confirmed, or able to ask.
    pub fn check(&self, can_prompt: bool) -> (res: Result<(), CmdError>)
        ensures
            res == (if !can_prompt && !self.confirm {
                Err::<(), CmdError>(CmdError::ConfirmRequired)
            } else {
                Ok::<(), CmdError>(())
            }),
    {
        check_confirm(self.confirm, can_prompt)
    }

    /// The question that asks for the confirmation.
    pub fn confirm_prompt(&self) -> (prompt: String)
        ensures
            prompt@ == confirm_prompt_of(self.instance@, "deletion"@),
    {
        confirm_prompt(self.instance.as_str(), "deletion")
    }

    /// Whether what the user typed confirms the deletion: whether it is the
    /// name of the instance, whitespace at either end aside.
    pub fn confirms(&self, input: &str) -> (yes: bool)
        ensures
            yes == (trimmed(input@) == self.instance@),
    {
        confirms(input, self.instance.as_str())
    }

    /// The line that reports the deletion.
    pub fn deleted_message(&self, icon: &str) -> (line: String)
        ensures
            line@ == report_of(
                icon@,
                "Deleted instance"@,
                self.instance@,
                "from"@,
                full_name_of(self.organization@, self.project@),
            ),
    {
        let place = full_name(self.organization.as_str(), self.project.as_str());
        report(icon, "Deleted instance", self.instance.as_str(), "from", place.as_str())
    }
}

impl CmdInstanceDisks {
    /// The form in which the disks are printed.
    pub fn output(&self) -> (output: Output)
        ensures
            output == (if self.json {
                Output::Json
            } else {
                Output::Table
            }),
    {
        output_for(self.json)
    }
}

impl CmdInstanceEdit {
    /// What the command prints: it does nothing yet.
    pub fn message(&self) -> (text: &'static str)
        ensures
            text@ == "Not implemented yet in omicron."@,
    {
        "Not implemented yet in omicron."
    }
}

impl CmdInstanceList {
    /// How the instances are fetched. A limit below one is refused.
    pub fn fetch(&self) -> (res: Result<Fetch, CmdError>)
        ensures
            res == (if self.limit < 1 {
                Err::<Fetch, CmdError>(CmdError::LimitTooSmall)
            } else if self.paginate {
                Ok::<Fetch, CmdError>(Fetch::All)
            } else {
                Ok::<Fetch, CmdError>(Fetch::Page(self.limit))
            }),
    {
        fetch_for(self.limit, self.paginate)
    }

    /// The form in which the instances are printed.
    pub fn output(&self) -> (output: Output)
        ensures
            output == (if self.json {
                Output::Json
            } else {
                Output::Table
            }),
    {
        output_for(self.json)
    }
}

impl CmdInstanceStart {
    /// The line that reports the start.
    pub fn started_message(&self, icon: &str) -> (line: String)
        ensures
            line@ == report_of(
                icon@,
                "Started instance"@,
                self.instance@,
                "in"@,
                full_name_of(self.organization@, self.project@),
            ),
    {
        let place = full_name(self.organization.as_str(), self.project.as_str());
        report(icon, "Started instance", self.instance.as_str(), "in", place.as_str())
    }
}

impl CmdInstanceStop {
    /// Whether the command can run: it must be confirmed, or able to ask.
    pub fn check(&self, can_prompt: bool) -> (res: Result<(), CmdError>)
        ensures
            res == (if !can_prompt && !self.confirm {
                Err::<(), CmdError>(CmdError::ConfirmRequired)
            } else {
                Ok::<(), CmdError>(())
            }),
    {
        check_confirm(self.confirm, can_prompt)
    }

    /// The question that asks for the confirmation.
    pub fn confirm_prompt(&self) -> (prompt: String)
        ensures
            prompt@ == confirm_prompt_of(self.instance@, "stop"@),
    {
        confirm_prompt(self.instance.as_str(), "stop")
    }

    /// Whether what the user typed confirms the stop: whether it is the full
    /// name of the project, whitespace at either end aside.
    pub fn confirms(&self, input: &str) -> (yes: bool)
        ensures
            yes == (trimmed(input@) == full_name_of(self.organization@, self.project@)),
    {
        let expected = full_name(self.organization.as_str(), self.project.as_str());
        confirms(input, expected.as_str())
    }

    /// The line that reports the stop.
    pub fn stopped_message(&self, icon: &str) -> (line: String)
        ensures
            line@ == report_of(
                icon@,
                "Stopped instance"@,
                self.instance@,
                "in"@,
                full_name_of(self.organization@, self.project@),
            ),
    {
        let place = full_name(self.organization.as_str(), self.project.as_str());
        report(icon, "Stopped instance", self.instance.as_str(), "in", place.as_str())
    }
}

impl CmdInstanceReboot {
    /// Whether the command can run: it must be confirmed, or able to ask.
    pub fn check(&self, can_prompt: bool) -> (res: Result<(), CmdError>)
        ensures
            res == (if !can_prompt && !self.confirm {
                Err::<(), CmdError>(CmdError::ConfirmRequired)
            } else {
                Ok::<(), CmdError>(())
            }),
    {
        check_confirm(self.confirm, can_prompt)
    }

    /// The question that asks for the confirmation.
    pub fn confirm_prompt(&self) -> (prompt: String)
        ensures
            prompt@ == confirm_prompt_of(self.instance@, "reboot"@),
    {
        confirm_prompt(self.instance.as_str(), "reboot")
    }

    /// Whether what the user typed confirms the reboot: whether it is the
    /// full name of the project, whitespace at either end aside.
    pub fn confirms(&self, input: &str) -> (yes: bool)
        ensures
            yes == (trimmed(input@) == full_name_of(self.organization@, self.project@)),
    {
        let expected = full_name(self.organization.as_str(), self.project.as_str());
        confirms(input, expected.as_str())
    }

    /// The line that reports the reboot.
    pub fn rebooted_message(&self, icon: &str) -> (line: String)
        ensures
            line@ == report_of(
                icon@,
                "Rebooted instance"@,
                self.instance@,
                "in"@,
                full_name_of(self.organization@, self.project@),
            ),
    {
        let place = full_name(self.organization.as_str(), self.project.as_str());
        report(icon, "Rebooted instance", self.instance.as_str(), "in", place.as_str())
    }
}

impl CmdInstanceView {
    /// What the command does: with `--web` it opens the instance in the web
    /// console of `host`, else it prints it.
    pub fn plan(&self, host: &str) -> (plan: ViewPlan)
        ensures
            match plan {
                ViewPlan::Browse(url) => self.web && url@ == web_url_of(host@, self.instance@),
                ViewPlan::Show(output) => !self.web && output == (if self.json {
                    Output::Json
                } else {
                    Output::Table
                }),
            },
    {
        if self.web {
            ViewPlan::Browse(web_url(host, self.instance.as_str()))
        } else {
            ViewPlan::Show(output_for(self.json))
        }
    }
}

impl CmdInstance {
    /// What keeps the command from running, if anything does, known before
    /// the user is asked or the service reached: that of its subcommand.
    pub open spec fn refusal(&self, can_prompt: bool) -> Option<CmdError> {
        match self.subcmd {
            SubCommand::Create(cmd) => if can_prompt {
                None
            } else {
                cmd.missing()
            },
            SubCommand::Delete(cmd) => if !can_prompt && !cmd.confirm {
                Some(CmdError::ConfirmRequired)
            } else {
                None
            },
            SubCommand::Stop(cmd) => if !can_prompt && !cmd.confirm {
                Some(CmdError::ConfirmRequired)
            } else {
                None
            },
            SubCommand::Reboot(cmd) => if !can_prompt && !cmd.confirm {
                Some(CmdError::ConfirmRequired)
            } else {
                None
            },
            SubCommand::List(cmd) => if cmd.limit < 1 {
                Some(CmdError::LimitTooSmall)
            } else {
                None
            },
            SubCommand::Disks(_) => None,
            SubCommand::Edit(_) => None,
            SubCommand::Start(_) => None,
            SubCommand::View(_) => None,
        }
    }

    /// Whether the command can run.
    pub fn check(&self, can_prompt: bool) -> (res: Result<(), CmdError>)
        ensures
            res == (match self.refusal(can_prompt) {
                Some(e) => Err::<(), CmdError>(e),
                None => Ok::<(), CmdError>(()),
            }),
    {
        match &self.subcmd {
            SubCommand::Create(cmd) => cmd.check(can_prompt),
            SubCommand::Delete(cmd) => cmd.check(can_prompt),
            SubCommand::Stop(cmd) => cmd.check(can_prompt),
            SubCommand::Reboot(cmd) => cmd.check(can_prompt),
            SubCommand::List(cmd) => match cmd.fetch() {
                Ok(_) => Ok(()),
                Err(e) => Err(e),
            },
            SubCommand::Disks(_) => Ok(()),
            SubCommand::Edit(_) => Ok(()),
            SubCommand::Start(_) => Ok(()),
            SubCommand::View(_) => Ok(()),
        }
    }
}

} // verus!
