//! Clusters: the records of a later phase, and a client that lists nothing
//! yet.

use crate::error::Error;
use vstd::prelude::*;
use vstd::string::*;

verus! {

/// The settings of a cluster.
#[derive(Debug)]
pub struct ClusterConfig {
    pub name: String,
    pub context: String,
    pub kubeconfig_path: Option<String>,
}

/// What is shown of a pod.
#[derive(Debug)]
pub struct PodInfo {
    pub name: String,
    pub namespace: String,
    pub status: String,
    pub ready: bool,
    pub containers: Vec<ContainerInfo>,
}

/// What is shown of a container of a pod.
#[derive(Debug)]
pub struct ContainerInfo {
    pub name: String,
    pub image: String,
    pub ready: bool,
    pub restart_count: i32,
}

/// What is shown of a namespace.
#[derive(Debug)]
pub struct NamespaceInfo {
    pub name: String,
    pub status: String,
}

/// The client of a cluster.
#[derive(Debug)]
pub struct ClusterClient {
    config: ClusterConfig,
}

impl ClusterClient {
    /// The settings that the client was made with.
    pub closed spec fn settings(&self) -> ClusterConfig {
        self.config
    }

    /// A client of the cluster with the given settings.
    pub fn new(config: ClusterConfig) -> (r: Self)
        ensures
            r.settings() == config,
    {
        ClusterClient { config }
    }

    /// The settings of the cluster.
    pub fn config(&self) -> (r: &ClusterConfig)
        ensures
            *r == self.settings(),
    {
        &self.config
    }

    /// The namespaces of the cluster: none yet.
    pub fn list_namespaces(&self) -> (r: Result<Vec<NamespaceInfo>, Error>)
        ensures
            r matches Ok(v) && v@.len() == 0,
    {
        Ok(Vec::new())
    }

    /// The pods of a namespace: none yet.
    pub fn list_pods(&self, namespace: &str) -> (r: Result<Vec<PodInfo>, Error>)
        ensures
            r matches Ok(v) && v@.len() == 0,
    {
        Ok(Vec::new())
    }

    /// The log of a container of a pod: empty yet.
    pub fn get_logs(&self, namespace: &str, pod: &str, container: Option<&str>) -> (r: Result<
        String,
        Error,
    >)
        ensures
            r matches Ok(s) && s@.len() == 0,
    {
        Ok(String::new())
    }
}

} // verus!
