//! The ways in which a run ends without a target.

use vstd::prelude::*;
use vstd::string::StringExecFns;

verus! {

/// Why a run was given up. Nothing is tried again: each of these ends the
/// run.
#[derive(Debug)]
pub enum DiscoveryError {
    /// The service lists no cluster.
    NoClusters,
    /// No cluster's identifier holds the text that was asked for.
    ClusterNotFound { hint: String },
    /// The chosen cluster lists no service.
    NoServices { cluster: String },
    /// No service of the cluster has the name that was asked for.
    ServiceNotFound { name: String },
    /// The chosen service has no running task that takes commands.
    NoValidTasks { service: String },
    /// A call to the remote service failed.
    Transport { reason: String },
    /// The operator left a prompt without choosing.
    SelectionAborted { reason: String },
    /// The shell could not be started.
    LaunchFailed { reason: String },
}

/// What a `DiscoveryError` holds, as text.
pub enum ErrorModel {
    NoClusters,
    ClusterNotFound { hint: Seq<char> },
    NoServices { cluster: Seq<char> },
    ServiceNotFound { name: Seq<char> },
    NoValidTasks { service: Seq<char> },
    Transport { reason: Seq<char> },
    SelectionAborted { reason: Seq<char> },
    LaunchFailed { reason: Seq<char> },
}

impl View for DiscoveryError {
    type V = ErrorModel;

    open spec fn view(&self) -> ErrorModel {
        match *self {
            DiscoveryError::NoClusters => ErrorModel::NoClusters,
            DiscoveryError::ClusterNotFound { hint } => ErrorModel::ClusterNotFound { hint: hint@ },
            DiscoveryError::NoServices { cluster } => ErrorModel::NoServices { cluster: cluster@ },
            DiscoveryError::ServiceNotFound { name } => ErrorModel::ServiceNotFound { name: name@ },
            DiscoveryError::NoValidTasks { service } => ErrorModel::NoValidTasks {
                service: service@,
            },
            DiscoveryError::Transport { reason } => ErrorModel::Transport { reason: reason@ },
            DiscoveryError::SelectionAborted { reason } => ErrorModel::SelectionAborted {
                reason: reason@,
            },
            DiscoveryError::LaunchFailed { reason } => ErrorModel::LaunchFailed { reason: reason@ },
        }
    }
}

/// What an error says of itself. An input that matched nothing is named in
/// it, and so is the place in which nothing was found; a failure that came
/// from outside is told in its own words.
pub open spec fn message_text(error: ErrorModel) -> Seq<char> {
    match error {
        ErrorModel::NoClusters => "No clusters found."@,
        ErrorModel::ClusterNotFound { hint } => "Specified cluster '"@ + hint + "' not found"@,
        ErrorModel::NoServices { cluster } => "No services found in cluster "@ + cluster,
        ErrorModel::ServiceNotFound { name } => "Specified service '"@ + name + "' not found"@,
        ErrorModel::NoValidTasks { service } => {
            "No tasks with execute command enabled found in service "@ + service
        },
        ErrorModel::Transport { reason } => reason,
        ErrorModel::SelectionAborted { reason } => reason,
        ErrorModel::LaunchFailed { reason } => reason,
    }
}

impl Clone for DiscoveryError {
    fn clone(&self) -> (copy: Self)
        ensures
            copy@ == self@,
    {
        match self {
            DiscoveryError::NoClusters => DiscoveryError::NoClusters,
            DiscoveryError::ClusterNotFound { hint } => DiscoveryError::ClusterNotFound {
                hint: hint.clone(),
            },
            DiscoveryError::NoServices { cluster } => DiscoveryError::NoServices {
                cluster: cluster.clone(),
            },
            DiscoveryError::ServiceNotFound { name } => DiscoveryError::ServiceNotFound {
                name: name.clone(),
            },
            DiscoveryError::NoValidTasks { service } => DiscoveryError::NoValidTasks {
                service: service.clone(),
            },
            DiscoveryError::Transport { reason } => DiscoveryError::Transport {
                reason: reason.clone(),
            },
            DiscoveryError::SelectionAborted { reason } => DiscoveryError::SelectionAborted {
                reason: reason.clone(),
            },
            DiscoveryError::LaunchFailed { reason } => DiscoveryError::LaunchFailed {
                reason: reason.clone(),
            },
        }
    }
}

impl DiscoveryError {
    /// The message to show for this error.
    pub fn message(&self) -> (message: String)
        ensures
            message@ == message_text(self@),
    {
        match self {
            DiscoveryError::NoClusters => String::from_str("No clusters found."),
            DiscoveryError::ClusterNotFound { hint } => {
                String::from_str("Specified cluster '").concat(hint.as_str()).concat("' not found")
            },
            DiscoveryError::NoServices { cluster } => {
                String::from_str("No services found in cluster ").concat(cluster.as_str())
            },
            DiscoveryError::ServiceNotFound { name } => {
                String::from_str("Specified service '").concat(name.as_str()).concat("' not found")
            },
            DiscoveryError::NoValidTasks { service } => {
                String::from_str("No tasks with execute command enabled found in service ").concat(
                    service.as_str(),
                )
            },
            DiscoveryError::Transport { reason } => reason.clone(),
            DiscoveryError::SelectionAborted { reason } => reason.clone(),
            DiscoveryError::LaunchFailed { reason } => reason.clone(),
        }
    }
}

} // verus!
