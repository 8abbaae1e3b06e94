//! The commands on routes: create, list, edit, view and delete them.
//!
//! A command here decides; it neither asks the user nor reaches the service.

use crate::cmd::{
    check_confirm, confirm_prompt, confirm_prompt_of, confirms, fetch_for, full_name,
    full_name_of, output_for, report, report_of, web_url, web_url_of, CmdError, Fetch,
    NameSortMode, Output,
};
use crate::text::trimmed;
use vstd::prelude::*;

verus! {

/// Create, list, edit, view, and delete routes.
#[derive(Clone, Debug)]
pub struct CmdRoute {
    pub subcmd: SubCommand,
}

/// The commands on routes.
#[derive(Clone, Debug)]
pub enum SubCommand {
    Create(CmdRouteCreate),
    Delete(CmdRouteDelete),
    Edit(CmdRouteEdit),
    List(CmdRouteList),
    View(CmdRouteView),
}

/// Create a new route.
#[derive(Clone, Debug)]
pub struct CmdRouteCreate {
    /// The name of the route to create.
    pub route: String,
    /// The router that will hold the route.
    pub router: String,
    /// The VPC that holds the router.
    pub vpc: String,
    /// The project that holds the VPC.
    pub project: String,
    /// The organization that holds the project.
    pub organization: String,
    /// The description for the route.
    pub description: String,
}

/// Delete a route.
#[derive(Clone, Debug)]
pub struct CmdRouteDelete {
    /// The route to delete. Can be an ID or name.
    pub route: String,
    /// The project to delete the route from.
    pub project: String,
    /// The organization that holds the project.
    pub organization: String,
    /// The router that holds the route.
    pub router: String,
    /// The VPC that holds the route.
    pub vpc: String,
    /// Confirm deletion without prompting.
    pub confirm: bool,
}

/// Edit route settings.
#[derive(Clone, Debug)]
pub struct CmdRouteEdit {}

/// List routes.
#[derive(Clone, Debug)]
pub struct CmdRouteList {
    /// The project that holds the routes.
    pub project: String,
    /// The organization that holds the project.
    pub organization: String,
    /// The router that holds the routes.
    pub router: String,
    /// The order in which to sort the results.
    pub sort_by: NameSortMode,
    /// The VPC that holds the routes.
    pub vpc: String,
    /// Maximum number of items to list.
    pub limit: u32,
    /// Make additional HTTP requests to fetch all pages.
    pub paginate: bool,
    /// Output JSON.
    pub json: bool,
}

/// View a route.
#[derive(Clone, Debug)]
pub struct CmdRouteView {
    /// The route to view. Can be an ID or name.
    pub route: String,
    /// The project that holds the route.
    pub project: String,
    /// The organization that holds the project.
    pub organization: String,
    /// The router that holds the route.
    pub router: String,
    /// The VPC that holds the route.
    pub vpc: String,
    /// Open the route in the browser.
    pub web: bool,
    /// Output JSON.
    pub json: bool,
}

/// What `view` does.
#[derive(Clone, Debug)]
pub enum ViewPlan {
    /// Open the address in a browser.
    Browse(String),
    /// Fetch the route and print it in the given form.
    Show(Output),
}

impl CmdRouteCreate {
    /// What the command prints: it does nothing yet.
    pub fn message(&self) -> (text: &'static str)
        ensures
            text@ == "Not implemented yet."@,
    {
        "Not implemented yet."
    }
}

impl CmdRouteEdit {
    /// What the command prints: it does nothing yet.
    pub fn message(&self) -> (text: &'static str)
        ensures
            text@ == "Not implemented yet."@,
    {
        "Not implemented yet."
    }
}

impl CmdRouteDelete {
    /// Whether the command can run: it must be confirmed, or able to ask.
    pub fn check(&self, can_prompt: bool) -> (res: Result<(), CmdError>)
        ensures
            res == (if !can_prompt && !self.confirm {
                Err::<(), CmdError>(CmdError::ConfirmRequired)
            } else {
                Ok::<(), CmdError>(())
            }),
    {
        check_confirm(self.confirm, can_prompt)
    }

    /// The question that asks for the confirmation.
    pub fn confirm_prompt(&self) -> (prompt: String)
        ensures
            prompt@ == confirm_prompt_of(self.route@, "deletion"@),
    {
        confirm_prompt(self.route.as_str(), "deletion")
    }

    /// Whether what the user typed confirms the deletion: whether it is the
    /// name of the route, whitespace at either end aside.
    pub fn confirms(&self, input: &str) -> (yes: bool)
        ensures
            yes == (trimmed(input@) == self.route@),
    {
        confirms(input, self.route.as_str())
    }

    /// The line that reports the deletion.
    pub fn deleted_message(&self, icon: &str) -> (line: String)
        ensures
            line@ == report_of(
                icon@,
                "Deleted route"@,
                self.route@,
                "from"@,
                full_name_of(self.organization@, self.project@),
            ),
    {
        let place = full_name(self.organization.as_str(), self.project.as_str());
        report(icon, "Deleted route", self.route.as_str(), "from", place.as_str())
    }
}

impl CmdRouteList {
    /// How the routes are fetched. A limit below one is refused.
    pub fn fetch(&self) -> (res: Result<Fetch, CmdError>)
        ensures
            res == (if self.limit < 1 {
                Err::<Fetch, CmdError>(CmdError::LimitTooSmall)
            } else if self.paginate {
                Ok::<Fetch, CmdError>(Fetch::All)
            } else {
                Ok::<Fetch, CmdError>(Fetch::Page(self.limit))
            }),
    {
        fetch_for(self.limit, self.paginate)
    }

    /// The form in which the routes are printed.
    pub fn output(&self) -> (output: Output)
        ensures
            output == (if self.json {
                Output::Json
            } else {
                Output::Table
            }),
    {
        output_for(self.json)
    }
}

impl CmdRouteView {
    /// What the command does: with `--web` it opens the route in the web
    /// console of `host`, else it prints it.
    pub fn plan(&self, host: &str) -> (plan: ViewPlan)
        ensures
            match plan {
                ViewPlan::Browse(url) => self.web && url@ == web_url_of(host@, self.route@),
                ViewPlan::Show(output) => !self.web && output == (if self.json {
                    Output::Json
                } else {
                    Output::Table
                }),
            },
    {
        if self.web {
            ViewPlan::Browse(web_url(host, self.route.as_str()))
        } else {
            ViewPlan::Show(output_for(self.json))
        }
    }
}

impl CmdRoute {
    /// What keeps the command from running, if anything does, known before
    /// the user is asked or the service reached: that of its subcommand.
    pub open spec fn refusal(&self, can_prompt: bool) -> Option<CmdError> {
        match self.subcmd {
            SubCommand::Delete(cmd) => if !can_prompt && !cmd.confirm {
                Some(CmdError::ConfirmRequired)
            } else {
                None
            },
            SubCommand::List(cmd) => if cmd.limit < 1 {
                Some(CmdError::LimitTooSmall)
            } else {
                None
            },
            SubCommand::Create(_) => None,
            SubCommand::Edit(_) => None,
            SubCommand::View(_) => None,
        }
    }

    /// Whether the command can run.
    pub fn check(&self, can_prompt: bool) -> (res: Result<(), CmdError>)
        ensures
            res == (match self.refusal(can_prompt) {
                Some(e) => Err::<(), CmdError>(e),
                None => Ok::<(), CmdError>(()),
            }),
    {
        match &self.subcmd {
            SubCommand::Delete(cmd) => cmd.check(can_prompt),
            SubCommand::List(cmd) => match cmd.fetch() {
                Ok(_) => Ok(()),
                Err(e) => Err(e),
            },
            SubCommand::Create(_) => Ok(()),
            SubCommand::Edit(_) => Ok(()),
            SubCommand::View(_) => Ok(()),
        }
    }
}

} // verus!
