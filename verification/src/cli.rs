use vstd::prelude::*;

verus! {

/// How Jenkins is deployed for one `start` run.
#[derive(Clone, Copy, Debug, PartialEq, Eq, Structural)]
pub enum JenkinsMode {
    /// Do not deploy Jenkins.
    Skip,
    /// Deploy Jenkins with Helm inside the k3d cluster.
    InCluster,
}

} // verus!
