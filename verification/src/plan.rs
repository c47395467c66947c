//! The launch plan: which program to start, with which environment, after
//! which directories exist, and where to ask whether it is healthy.

use crate::environment::{
    build_environment, database_var, environment_of, lemma_environment_values, packaged_var,
    port_var, value_of, EnvVar,
};
use crate::error::{LaunchError, LaunchErrorView};
use crate::layout::{
    child_path, database_name, join, layout_of, lemma_directories_distinct, DataLayout,
};
use crate::platform::{
    sidecar_file_name, sidecar_name_of, sidecar_target, target_for, Architecture, OperatingSystem,
};
use crate::port::allocate_port;
use crate::probe::{health_check_url, health_url_of};
use crate::text::decimal;
use vstd::prelude::*;
use vstd::string::*;

verus! {

/// The port on which the front end's development server also serves the
/// backend.
pub const DEV_SERVER_PORT: u16 = 4096;

/// How a run of the shell comes by its backend.
#[derive(Clone, Copy, Debug, PartialEq, Eq, Structural)]
pub enum Startup {
    /// A server that already runs on `port` is the backend; nothing is
    /// spawned.
    AdoptServer { port: u16 },
    /// The supervisor launches the backend itself.
    LaunchSidecar,
}

/// A debug build of the shell uses the development server; every other
/// build launches the sidecar.
pub open spec fn startup_of(debug_build: bool) -> Startup {
    if debug_build {
        Startup::AdoptServer { port: DEV_SERVER_PORT }
    } else {
        Startup::LaunchSidecar
    }
}

/// Decides how this run comes by its backend.
pub fn startup_for(debug_build: bool) -> (r: Startup)
    ensures
        r == startup_of(debug_build),
{
    if debug_build {
        Startup::AdoptServer { port: DEV_SERVER_PORT }
    } else {
        Startup::LaunchSidecar
    }
}

/// How the backend is started. The choice is made once per launch.
#[derive(Clone, Copy, Debug, PartialEq, Eq, Structural)]
pub enum LaunchMode {
    /// The bundled sidecar binary is started directly.
    Packaged,
    /// No binary is bundled: the backend's sources are run by the package
    /// runtime.
    Development,
}

/// What the shell found out about the bundled resources.
#[derive(Clone, Debug, PartialEq, Eq)]
pub struct Resources {
    /// The directory of bundled resources.
    pub dir: String,
    /// The directory from which the development runtime is started: the
    /// parent of the resources, or the current directory where there is no
    /// parent.
    pub project_root: String,
    /// Whether a file exists where the sidecar for this machine is expected.
    pub sidecar_present: bool,
}

/// The directories that the shell resolved before a launch. Where the
/// system could not name one, its reason stands in the directory's place.
#[derive(Debug, PartialEq, Eq)]
pub struct ResolvedPaths {
    /// The application's private data directory.
    pub data_dir: Result<String, String>,
    /// The bundled resources.
    pub resources: Result<Resources, String>,
}

/// The bundled resources as plain values.
pub struct ResourcesView {
    pub dir: Seq<char>,
    pub project_root: Seq<char>,
    pub sidecar_present: bool,
}

/// Resolved paths as plain values.
pub struct ResolvedPathsView {
    pub data_dir: Result<Seq<char>, Seq<char>>,
    pub resources: Result<ResourcesView, Seq<char>>,
}

impl View for Resources {
    type V = ResourcesView;

    open spec fn view(&self) -> ResourcesView {
        ResourcesView {
            dir: self.dir@,
            project_root: self.project_root@,
            sidecar_present: self.sidecar_present,
        }
    }
}

impl View for ResolvedPaths {
    type V = ResolvedPathsView;

    open spec fn view(&self) -> ResolvedPathsView {
        ResolvedPathsView {
            data_dir: match self.data_dir {
                Ok(dir) => Ok(dir@),
                Err(reason) => Err(reason@),
            },
            resources: match self.resources {
                Ok(resources) => Ok(resources@),
                Err(reason) => Err(reason@),
            },
        }
    }
}

/// Everything one launch attempt needs to know. A plan is built afresh for
/// each attempt and never stored.
#[derive(Clone, Debug, PartialEq, Eq)]
pub struct LaunchPlan {
    /// The port the backend is told to listen on.
    pub port: u16,
    /// The sidecar binary to start; `None` selects the development runtime.
    pub executable_path: Option<String>,
    /// The directory in which the development runtime is started.
    pub project_root: Option<String>,
    /// The directories to create before the start, parents first.
    pub working_directories: Vec<String>,
    /// The backend's environment.
    pub environment: Vec<EnvVar>,
    /// Where the readiness poller asks.
    pub health_check_url: String,
}

/// A launch plan as plain values.
pub struct LaunchPlanView {
    pub port: u16,
    pub executable_path: Option<Seq<char>>,
    pub project_root: Option<Seq<char>>,
    pub working_directories: Seq<Seq<char>>,
    pub environment: Seq<(Seq<char>, Seq<char>)>,
    pub health_check_url: Seq<char>,
}

impl View for LaunchPlan {
    type V = LaunchPlanView;

    open spec fn view(&self) -> LaunchPlanView {
        LaunchPlanView {
            port: self.port,
            executable_path: self.executable_path.deep_view(),
            project_root: self.project_root.deep_view(),
            working_directories: self.working_directories.deep_view(),
            environment: self.environment.deep_view(),
            health_check_url: self.health_check_url@,
        }
    }
}

/// Name of the package runtime that runs the backend in development.
pub open spec fn runtime_program() -> Seq<char> {
    "bun"@
}

/// Arguments with which the package runtime starts the backend.
pub open spec fn runtime_arguments() -> Seq<Seq<char>> {
    seq!["run"@, "start"@]
}

impl LaunchPlanView {
    /// A plan with a sidecar binary is packaged; one without is development.
    pub open spec fn mode(self) -> LaunchMode {
        if self.executable_path is Some {
            LaunchMode::Packaged
        } else {
            LaunchMode::Development
        }
    }

    /// The program that is started.
    pub open spec fn program(self) -> Seq<char> {
        match self.executable_path {
            Some(path) => path,
            None => runtime_program(),
        }
    }

    /// The arguments of the program: none for the sidecar.
    pub open spec fn arguments(self) -> Seq<Seq<char>> {
        match self.executable_path {
            Some(_) => Seq::<Seq<char>>::empty(),
            None => runtime_arguments(),
        }
    }

    /// The error of a start that the system refused for `reason`. It names
    /// the sidecar's path in packaged mode and the runtime in development.
    pub open spec fn spawn_failure(self, reason: Seq<char>) -> LaunchErrorView {
        match self.executable_path {
            Some(path) => LaunchErrorView::SpawnSidecar { path, reason },
            None => LaunchErrorView::SpawnRuntime { reason },
        }
    }
}

/// Where the sidecar for this machine is expected inside the resources.
pub open spec fn sidecar_candidate_of(
    resource_dir: Seq<char>,
    os: OperatingSystem,
    arch: Architecture,
) -> Seq<char> {
    child_path(resource_dir, sidecar_name_of(target_for(os, arch)), os)
}

/// The subdirectory of the resources that holds the bundled tools.
pub open spec fn resources_path_of(resource_dir: Seq<char>, os: OperatingSystem) -> Seq<char> {
    child_path(resource_dir, "bin"@, os)
}

/// The subdirectory of the resources that holds the database migrations.
pub open spec fn migrations_path_of(resource_dir: Seq<char>, os: OperatingSystem) -> Seq<char> {
    child_path(resource_dir, "drizzle"@, os)
}

/// The plan for a launch on `port` once both directories are known. With a
/// sidecar binary in its place the launch is packaged and starts that
/// binary; without one it is a development launch from the project root.
/// Directories, environment and health check are the same in both modes.
pub open spec fn plan_in(
    os: OperatingSystem,
    arch: Architecture,
    data_dir: Seq<char>,
    resources: ResourcesView,
    port: u16,
) -> LaunchPlanView {
    let layout = layout_of(data_dir, os);
    LaunchPlanView {
        port,
        executable_path: if resources.sidecar_present {
            Some(sidecar_candidate_of(resources.dir, os, arch))
        } else {
            None
        },
        project_root: if resources.sidecar_present {
            None
        } else {
            Some(resources.project_root)
        },
        working_directories: layout.directories(),
        environment: environment_of(
            port,
            resources_path_of(resources.dir, os),
            migrations_path_of(resources.dir, os),
            layout,
        ),
        health_check_url: health_url_of(port),
    }
}

/// The plan for a launch on `port`. A directory that the system could not
/// name is fatal: its reason is the error, the data directory's before the
/// resources'.
pub open spec fn plan_of(
    os: OperatingSystem,
    arch: Architecture,
    paths: ResolvedPathsView,
    port: u16,
) -> Result<LaunchPlanView, LaunchErrorView> {
    match paths.data_dir {
        Err(reason) => Err(LaunchErrorView::DirectoryResolution { reason }),
        Ok(data_dir) => match paths.resources {
            Err(reason) => Err(LaunchErrorView::DirectoryResolution { reason }),
            Ok(resources) => Ok(plan_in(os, arch, data_dir, resources, port)),
        },
    }
}

/// The outcome of planning after one attempt to allocate a port: without a
/// port nothing else is looked at.
pub open spec fn plan_outcome(
    os: OperatingSystem,
    arch: Architecture,
    paths: ResolvedPathsView,
    picked: Option<u16>,
) -> Result<LaunchPlanView, LaunchErrorView> {
    match picked {
        Some(port) => plan_of(os, arch, paths, port),
        None => Err(LaunchErrorView::NoFreePort),
    }
}

/// The plain-value reading of a planning result.
pub open spec fn outcome_view(r: Result<LaunchPlan, LaunchError>) -> Result<
    LaunchPlanView,
    LaunchErrorView,
> {
    match r {
        Ok(plan) => Ok(plan@),
        Err(error) => Err(error@),
    }
}

/// Whenever a launch is planned: it is a packaged launch exactly if the
/// sidecar binary is in its place, and then that binary is the program; in
/// either mode the backend is told that the desktop shell runs it, where
/// its database lies inside the data directory, and on which port to
/// listen; the health check goes to that port; and no directory is created
/// twice.
pub proof fn lemma_planned_launch(
    os: OperatingSystem,
    arch: Architecture,
    data_dir: Seq<char>,
    resources: ResourcesView,
    port: u16,
)
    ensures
        ({
            let plan = plan_in(os, arch, data_dir, resources, port);
            &&& plan.mode() == LaunchMode::Packaged <==> resources.sidecar_present
            &&& plan.mode() == LaunchMode::Packaged ==> plan.program() == sidecar_candidate_of(
                resources.dir,
                os,
                arch,
            )
            &&& plan.mode() == LaunchMode::Development ==> plan.program() == runtime_program()
                && plan.project_root == Some(resources.project_root)
            &&& value_of(plan.environment, packaged_var()) == Some("1"@)
            &&& value_of(plan.environment, database_var()) == Some(
                child_path(data_dir, database_name(), os),
            )
            &&& value_of(plan.environment, port_var()) == Some(decimal(port as nat))
            &&& plan.health_check_url == health_url_of(port)
            &&& plan.working_directories.no_duplicates()
        }),
{
    lemma_environment_values(
        port,
        resources_path_of(resources.dir, os),
        migrations_path_of(resources.dir, os),
        layout_of(data_dir, os),
    );
    lemma_directories_distinct(data_dir, os);
}

/// Names the place inside the resources where the sidecar for this machine
/// is bundled. Whether a file exists there is for the caller to find out; a
/// missing file is no error but the sign of a development setup.
pub fn sidecar_candidate(resource_dir: &str, os: OperatingSystem, arch: Architecture) -> (r: String)
    ensures
        r@ == sidecar_candidate_of(resource_dir@, os, arch),
{
    let name = sidecar_file_name(sidecar_target(os, arch));
    join(resource_dir, name.as_str(), os)
}

/// Names the subdirectory of the resources that holds the bundled tools.
pub fn get_resources_path(resource_dir: &str, os: OperatingSystem) -> (r: String)
    ensures
        r@ == resources_path_of(resource_dir@, os),
{
    join(resource_dir, "bin", os)
}

/// Names the subdirectory of the resources that holds the database
/// migrations.
pub fn get_migrations_path(resource_dir: &str, os: OperatingSystem) -> (r: String)
    ensures
        r@ == migrations_path_of(resource_dir@, os),
{
    join(resource_dir, "drizzle", os)
}

/// Builds the plan for a launch on `port`.
pub fn plan_with_port(
    os: OperatingSystem,
    arch: Architecture,
    paths: &ResolvedPaths,
    port: u16,
) -> (r: Result<LaunchPlan, LaunchError>)
    ensures
        outcome_view(r) == plan_of(os, arch, paths@, port),
{
    let data_dir = match &paths.data_dir {
        Ok(data_dir) => data_dir,
        Err(reason) => {
            return Err(LaunchError::DirectoryResolution { reason: reason.clone() });
        },
    };
    let resources = match &paths.resources {
        Ok(resources) => resources,
        Err(reason) => {
            return Err(LaunchError::DirectoryResolution { reason: reason.clone() });
        },
    };
    let layout = DataLayout::derive(data_dir.as_str(), os);
    let resources_path = get_resources_path(resources.dir.as_str(), os);
    let migrations_path = get_migrations_path(resources.dir.as_str(), os);
    let (executable_path, project_root) = if resources.sidecar_present {
        (Some(sidecar_candidate(resources.dir.as_str(), os, arch)), None)
    } else {
        (None, Some(resources.project_root.clone()))
    };
    Ok(
        LaunchPlan {
            port,
            executable_path,
            project_root,
            working_directories: layout.directories(),
            environment: build_environment(
                port,
                resources_path.as_str(),
                migrations_path.as_str(),
                &layout,
            ),
            health_check_url: health_check_url(port),
        },
    )
}

/// Allocates a port and builds the plan for it. Which port is taken is up
/// to the machine; for every outcome of the allocation the result is the one
/// that [`plan_outcome`] names.
pub fn plan_launch(os: OperatingSystem, arch: Architecture, paths: &ResolvedPaths) -> (r: Result<
    LaunchPlan,
    LaunchError,
>)
    ensures
        exists|picked: Option<u16>| outcome_view(r) == plan_outcome(os, arch, paths@, picked),
{
    match allocate_port() {
        Ok(port) => {
            let r = plan_with_port(os, arch, paths, port);
            assert(outcome_view(r) == plan_outcome(os, arch, paths@, Some(port)));
            r
        },
        Err(error) => {
            let r = Err(error);
            assert(outcome_view(r) == plan_outcome(os, arch, paths@, None));
            r
        },
    }
}

impl LaunchPlan {
    /// The mode of this launch.
    pub fn mode(&self) -> (r: LaunchMode)
        ensures
            r == self@.mode(),
    {
        match &self.executable_path {
            Some(_) => LaunchMode::Packaged,
            None => LaunchMode::Development,
        }
    }

    /// The program to start.
    pub fn program(&self) -> (r: String)
        ensures
            r@ == self@.program(),
    {
        match &self.executable_path {
            Some(path) => path.clone(),
            None => String::from_str("bun"),
        }
    }

    /// The arguments to start the program with.
    pub fn arguments(&self) -> (r: Vec<String>)
        ensures
            r.deep_view() == self@.arguments(),
    {
        let mut arguments: Vec<String> = Vec::new();
        match &self.executable_path {
            Some(_) => {},
            None => {
                arguments.push(String::from_str("run"));
                arguments.push(String::from_str("start"));
            },
        }
        assert(arguments.deep_view() =~= self@.arguments());
        arguments
    }

    /// The error to report when the system refused to start the program.
    pub fn spawn_failure(&self, reason: &str) -> (r: LaunchError)
        ensures
            r@ == self@.spawn_failure(reason@),
    {
        match &self.executable_path {
            Some(path) => LaunchError::SpawnSidecar {
                path: path.clone(),
                reason: String::from_str(reason),
            },
            None => LaunchError::SpawnRuntime { reason: String::from_str(reason) },
        }
    }
}

} // verus!
