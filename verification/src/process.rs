//! One run of the hook: what the reason asks for, as a step that the caller
//! carries out.

use vstd::prelude::*;
use crate::config::{
    routes_from_vars, spec_routes, spec_routes_len, Config, ConfigView, ParseError, Reason, Route,
    RouteView,
};
use crate::render::{render, spec_render, RenderError};
use crate::vars::text_view;

verus! {

/// The directory that `systemd-networkd` reads its units from.
pub const CONFIG_DIR: &'static str = "/etc/systemd/network/";

/// What follows the tunnel device's name in the name of its unit.
pub const UNIT_SUFFIX: &'static str = ".network";

/// The line that goes before the server's banner.
pub const BANNER_HEADING: &'static str = "Connect Banner:\n";

/// The path of the unit for the tunnel device `tundev`.
pub open spec fn unit_path(tundev: Seq<char>) -> Seq<char> {
    CONFIG_DIR@ + tundev + UNIT_SUFFIX@
}

/// What goes to standard output for the server's banner.
pub open spec fn banner_notice(banner: Seq<char>) -> Seq<char> {
    BANNER_HEADING@ + banner + "\n"@
}

/// Whether a run changed what `systemd-networkd` has to know of.
#[derive(Clone, Copy, Debug, PartialEq, Eq, Structural)]
pub struct Changed(pub bool);

impl Changed {
    pub fn yes() -> (c: Changed)
        ensures
            c == Changed(true),
    {
        Changed(true)
    }

    pub fn no() -> (c: Changed)
        ensures
            c == Changed(false),
    {
        Changed(false)
    }
}

/// What the caller is asked to do to the file system.
#[derive(Clone, Debug, PartialEq, Eq)]
pub enum Action {
    /// Nothing at all.
    Nothing,
    /// Print `notice`, if there is one, to standard output; make sure that
    /// `directory` exists; then write `body` to `file`, in place of what may be
    /// there.
    Install { directory: String, file: String, body: String, notice: Option<String> },
    /// Delete `file`. That there is no such file is an error.
    Remove { file: String },
}

/// An action as contracts speak of it.
pub ghost enum ActionView {
    Nothing,
    Install { directory: Seq<char>, file: Seq<char>, body: Seq<char>, notice: Option<Seq<char>> },
    Remove { file: Seq<char> },
}

impl View for Action {
    type V = ActionView;

    open spec fn view(&self) -> ActionView {
        match self {
            Action::Nothing => ActionView::Nothing,
            Action::Install { directory, file, body, notice } => ActionView::Install {
                directory: directory@,
                file: file@,
                body: body@,
                notice: text_view(*notice),
            },
            Action::Remove { file } => ActionView::Remove { file: file@ },
        }
    }
}

/// What a run of the hook comes to: the action to carry out, and what to
/// report once it has been carried out.
#[derive(Clone, Debug, PartialEq, Eq)]
pub struct Step {
    pub action: Action,
    pub changed: Changed,
}

/// A step as contracts speak of it.
pub ghost struct StepView {
    pub action: ActionView,
    pub changed: Changed,
}

impl View for Step {
    type V = StepView;

    open spec fn view(&self) -> StepView {
        StepView { action: self.action@, changed: self.changed }
    }
}

/// The settings of one run, its split routes, and the path of the unit.
#[derive(Debug)]
pub struct Process {
    config: Config,
    split_routes_inc: Vec<Route>,
    network_file: String,
}

/// A run as contracts speak of it.
pub ghost struct ProcessView {
    pub config: ConfigView,
    pub split_routes_inc: Seq<RouteView>,
    pub network_file: Seq<char>,
}

impl ProcessView {
    /// There are as many split routes as the settings announce, and the unit
    /// is named after the tunnel device.
    pub open spec fn wf(self) -> bool {
        &&& self.split_routes_inc.len() == self.config.split_routes_inc
        &&& self.network_file == unit_path(self.config.tundev)
    }

    /// The same run for another reason.
    pub open spec fn with_reason(self, reason: Reason) -> ProcessView {
        ProcessView { config: ConfigView { reason, ..self.config }, ..self }
    }

    /// The step that a connect asks for: to install the rendered unit, with
    /// the banner as notice. Where the unit cannot be rendered there is no
    /// step, and so nothing to write.
    pub open spec fn connect(self) -> Result<StepView, RenderError> {
        match spec_render(self.config, self.split_routes_inc) {
            Err(e) => Err(e),
            Ok(body) => Ok(
                StepView {
                    action: ActionView::Install {
                        directory: CONFIG_DIR@,
                        file: self.network_file,
                        body,
                        notice: match self.config.banner {
                            Some(banner) => Some(banner_notice(banner)),
                            None => None,
                        },
                    },
                    changed: Changed(true),
                },
            ),
        }
    }

    /// The step that a disconnect asks for: to delete the unit.
    pub open spec fn disconnect(self) -> StepView {
        StepView { action: ActionView::Remove { file: self.network_file }, changed: Changed(true) }
    }

    /// The step that asks for nothing and reports no change.
    pub open spec fn idle() -> StepView {
        StepView { action: ActionView::Nothing, changed: Changed(false) }
    }

    /// The step that the run's reason asks for.
    pub open spec fn run(self) -> Result<StepView, RenderError> {
        match self.config.reason {
            Reason::PreInit => Ok(ProcessView::idle()),
            Reason::Connect => self.connect(),
            Reason::Disconnect => Ok(self.disconnect()),
            Reason::AttemptReconnect => Ok(ProcessView::idle()),
            Reason::Reconnect => Ok(ProcessView::idle()),
        }
    }

    /// The run that `vars` describe: the settings, then as many split routes
    /// as the settings announce; or what stands in the way of the first of
    /// these that cannot be read.
    pub open spec fn from_vars(vars: Seq<(Seq<char>, Seq<char>)>) -> Result<
        ProcessView,
        ParseError,
    > {
        match Config::spec_from_vars(vars) {
            Err(e) => Err(e),
            Ok(config) => match spec_routes(vars, config.split_routes_inc as nat) {
                Err(e) => Err(e),
                Ok(routes) => Ok(
                    ProcessView {
                        config,
                        split_routes_inc: routes,
                        network_file: unit_path(config.tundev),
                    },
                ),
            },
        }
    }
}

impl View for Process {
    type V = ProcessView;

    closed spec fn view(&self) -> ProcessView {
        ProcessView {
            config: self.config@,
            split_routes_inc: self.split_routes_inc.deep_view(),
            network_file: self.network_file@,
        }
    }
}

fn idle() -> (step: Step)
    ensures
        step@ == ProcessView::idle(),
{
    Step { action: Action::Nothing, changed: Changed::no() }
}

impl Process {
    #[verifier::type_invariant]
    spec fn well_formed(self) -> bool {
        self@.wf()
    }

    /// Reads the settings and the split routes from the variables of the
    /// environment, and names the unit after the tunnel device.
    pub fn new(vars: &Vec<(String, String)>) -> (r: Result<Process, ParseError>)
        ensures
            match r {
                Ok(process) => ProcessView::from_vars(vars.deep_view()) == Ok::<
                    ProcessView,
                    ParseError,
                >(process@) && process@.wf(),
                Err(e) => ProcessView::from_vars(vars.deep_view()) == Err::<
                    ProcessView,
                    ParseError,
                >(e),
            },
    {
        let config: Config = match Config::from_vars(vars) {
            Ok(c) => c,
            Err(e) => { return Err(e); },
        };
        let split_routes_inc: Vec<Route> = match routes_from_vars(vars, config.split_routes_inc) {
            Ok(routes) => routes,
            Err(e) => { return Err(e); },
        };
        let mut network_file: String = String::from_str(CONFIG_DIR);
        network_file.append(config.tundev.as_str());
        network_file.append(UNIT_SUFFIX);
        Ok(Process { config, split_routes_inc, network_file })
    }

    /// The settings of the run.
    pub fn config(&self) -> (c: &Config)
        ensures
            c@ == self@.config,
    {
        &self.config
    }

    /// The split routes of the run.
    pub fn split_routes(&self) -> (routes: &Vec<Route>)
        ensures
            routes.deep_view() == self@.split_routes_inc,
    {
        &self.split_routes_inc
    }

    /// The path of the unit for the tunnel device.
    pub fn network_file(&self) -> (path: &str)
        ensures
            path@ == self@.network_file,
    {
        self.network_file.as_str()
    }

    /// The step that the run's reason asks for.
    pub fn run(&self) -> (r: Result<Step, RenderError>)
        ensures
            match r {
                Ok(step) => self@.run() == Ok::<StepView, RenderError>(step@),
                Err(e) => self@.run() == Err::<StepView, RenderError>(e),
            },
    {
        match self.config.reason {
            Reason::PreInit => self.pre_init(),
            Reason::Connect => self.connect(),
            Reason::Disconnect => self.disconnect(),
            Reason::AttemptReconnect => self.attempt_reconnect(),
            Reason::Reconnect => self.reconnect(),
        }
    }

    /// A reconnect leaves the unit as it is.
    pub fn reconnect(&self) -> (r: Result<Step, RenderError>)
        ensures
            r matches Ok(step) && step@ == ProcessView::idle(),
    {
        Ok(idle())
    }

    /// Before the connection is set up there is nothing to write yet.
    pub fn pre_init(&self) -> (r: Result<Step, RenderError>)
        ensures
            r matches Ok(step) && step@ == ProcessView::idle(),
    {
        Ok(idle())
    }

    /// An attempt to reconnect leaves the unit as it is.
    pub fn attempt_reconnect(&self) -> (r: Result<Step, RenderError>)
        ensures
            r matches Ok(step) && step@ == ProcessView::idle(),
    {
        Ok(idle())
    }

    /// A disconnect deletes the unit.
    pub fn disconnect(&self) -> (r: Result<Step, RenderError>)
        ensures
            r matches Ok(step) && step@ == self@.disconnect(),
    {
        Ok(Step { action: Action::Remove { file: self.network_file.clone() }, changed: Changed::yes() })
    }

    /// A connect installs the unit rendered from the settings and the split
    /// routes. Where the unit cannot be rendered, nothing is written.
    pub fn connect(&self) -> (r: Result<Step, RenderError>)
        ensures
            match r {
                Ok(step) => self@.connect() == Ok::<StepView, RenderError>(step@),
                Err(e) => self@.connect() == Err::<StepView, RenderError>(e),
            },
    {
        let body: String = match render(&self.config, &self.split_routes_inc) {
            Ok(text) => text,
            Err(e) => { return Err(e); },
        };
        let notice: Option<String> = match &self.config.banner {
            Some(banner) => {
                let mut text: String = String::from_str(BANNER_HEADING);
                text.append(banner.as_str());
                text.append("\n");
                Some(text)
            },
            None => None,
        };
        Ok(
            Step {
                action: Action::Install {
                    directory: String::from_str(CONFIG_DIR),
                    file: self.network_file.clone(),
                    body,
                    notice,
                },
                changed: Changed::yes(),
            },
        )
    }
}

/// What is read from the variables is well formed: no more and no fewer
/// split routes than the settings announce, none where they announce none,
/// and the unit named after the tunnel device.
pub proof fn from_vars_is_well_formed(vars: Seq<(Seq<char>, Seq<char>)>)
    ensures
        ProcessView::from_vars(vars) matches Ok(process) ==> process.wf() && (
        process.config.split_routes_inc == 0 ==> process.split_routes_inc == Seq::<
            RouteView,
        >::empty()),
{
    if let Ok(config) = Config::spec_from_vars(vars) {
        spec_routes_len(vars, config.split_routes_inc as nat);
        if let Ok(routes) = spec_routes(vars, config.split_routes_inc as nat) {
            if config.split_routes_inc == 0 {
                assert(routes =~= Seq::<RouteView>::empty());
            }
        }
    }
}

/// Why an action cannot be carried out.
pub ghost enum Failure {
    /// The file to delete is not there.
    NotFound,
}

/// What carrying out `action` makes of `files`, the files of the
/// configuration directory with their contents. To install is to put the
/// body in the file's place; to remove a file that is not there fails.
pub open spec fn carry_out(action: ActionView, files: Map<Seq<char>, Seq<char>>) -> Result<
    Map<Seq<char>, Seq<char>>,
    Failure,
> {
    match action {
        ActionView::Nothing => Ok(files),
        ActionView::Install { file, body, .. } => Ok(files.insert(file, body)),
        ActionView::Remove { file } => if files.contains_key(file) {
            Ok(files.remove(file))
        } else {
            Err(Failure::NotFound)
        },
    }
}

/// The files after a run that came to `outcome`: left as they were where
/// there was no step, or where its action could not be carried out.
pub open spec fn files_after(
    outcome: Result<StepView, RenderError>,
    files: Map<Seq<char>, Seq<char>>,
) -> Map<Seq<char>, Seq<char>> {
    match outcome {
        Ok(step) => match carry_out(step.action, files) {
            Ok(changed) => changed,
            Err(_) => files,
        },
        Err(_) => files,
    }
}

/// After a connect and then a disconnect with the same settings and routes,
/// there is no unit for the tunnel device, whatever files there were before.
pub proof fn connect_then_disconnect_leaves_no_unit(
    process: ProcessView,
    files: Map<Seq<char>, Seq<char>>,
)
    requires
        process.wf(),
    ensures
        !files_after(
            process.with_reason(Reason::Disconnect).run(),
            files_after(process.with_reason(Reason::Connect).run(), files),
        ).contains_key(unit_path(process.config.tundev)),
{
}

/// A connect whose unit cannot be rendered writes nothing: it comes to no
/// step, and the files stay as they were.
pub proof fn connect_without_network_address_writes_nothing(
    process: ProcessView,
    files: Map<Seq<char>, Seq<char>>,
)
    requires
        process.config.reason == Reason::Connect,
        process.config.netmask is Some,
        process.config.netaddr is None,
    ensures
        process.run() == Err::<StepView, RenderError>(RenderError::MissingNetAddress),
        files_after(process.run(), files) == files,
{
}

/// A disconnect where there is no unit for the tunnel device asks for a
/// removal that fails because the file is not found.
pub proof fn disconnect_without_unit_fails(process: ProcessView, files: Map<Seq<char>, Seq<char>>)
    requires
        process.wf(),
        process.config.reason == Reason::Disconnect,
        !files.contains_key(unit_path(process.config.tundev)),
    ensures
        process.run() matches Ok(step) && carry_out(step.action, files) == Err::<
            Map<Seq<char>, Seq<char>>,
            Failure,
        >(Failure::NotFound),
{
}

} // verus!
