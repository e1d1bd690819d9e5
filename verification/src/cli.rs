//! The plain data behind the command-line surface: where the platform is
//! installed, what one upgrade invocation asks for, and the error taxonomy
//! that reaches the user.

use vstd::prelude::*;

verus! {

/// Where the platform is installed and how to reach the cluster.
pub struct K8sCtxArgs {
    /// The namespace the platform is installed in, if given.
    pub namespace: Option<String>,
    /// The path to a kubeconfig file, if given.
    pub kubeconfig: Option<String>,
    /// The Kubernetes context to use, if given.
    pub context: Option<String>,
}

/// What one upgrade invocation asks for; built once from the command line
/// and immutable thereafter.
pub struct UpgradeCommonArgs {
    pub namespace: String,
    pub kubeconfig: Option<String>,
    /// The Helm release name, resolved from the cluster when absent.
    pub release_name: Option<String>,
    /// An explicit registry for the job's image, which wins over every
    /// derived one.
    pub registry: Option<String>,
    /// Allows an upgrade from a stable version to an unstable one.
    pub allow_unstable: bool,
    /// Runs the validations without creating anything.
    pub dry_run: bool,
    pub skip_data_plane_restart: bool,
    pub skip_single_replica_volume_validation: bool,
    pub skip_replica_rebuild: bool,
    pub skip_cordoned_node_validation: bool,
    pub skip_upgrade_path_validation_for_unsupported_version: bool,
    /// `--set` overrides, each `key=value`.
    pub set: Vec<String>,
    /// `--set-file` overrides, each `key=path`.
    pub set_file: Vec<String>,
    /// The Helm storage driver name, empty for the default.
    pub helm_storage_driver: String,
}

/// The upgrade command: its common arguments and an optional subcommand.
pub struct Upgrade {
    pub cli_args: UpgradeCommonArgs,
    pub subcommand: Option<UpgradeSubcommand>,
}

/// The subcommands of `upgrade`.
pub enum UpgradeSubcommand {
    /// Fetch the status of an ongoing upgrade.
    Status,
}

/// What `get upgrade-status` asks for.
pub struct UpgradeStatusArgs {
    pub release_name: Option<String>,
    pub helm_storage_driver: String,
}

/// The readable resources and their arguments.
pub enum Resource {
    UpgradeStatus(UpgradeStatusArgs),
}

/// One `get`-like request: where to look and what to read.
pub struct GetAble {
    pub namespace: String,
    pub kubeconfig: Option<String>,
    pub resources: Resource,
}

/// Everything that can end an upgrade invocation without success.
pub enum Error {
    /// Resolving the release failed.
    Release(crate::release::ReleaseError),
    /// A preflight check refused the upgrade.
    Preflight(crate::preflight::PreflightError),
    /// Building the resource bundle's contents failed.
    Resource(crate::resources::ResourceError),
    /// The upgrade job reported something unreadable.
    Event(crate::controller::EventError),
}

} // verus!
