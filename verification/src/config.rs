//! The settings of the orchestrator.
use crate::text::texts;
use vstd::prelude::*;

verus! {

/// Access to the Forgejo instance.
#[derive(Debug)]
pub struct ForgejoConfig {
    /// URL of the Forgejo instance
    pub url: String,
    /// Personal access token
    pub token: String,
    /// Only tasks with one of these labels count; absent or empty: all tasks count.
    pub tag_filter: Option<Vec<String>>,
}

impl ForgejoConfig {
    /// The labels of which a task must have one; none if all tasks count.
    pub open spec fn spec_label_filter(self) -> Option<Seq<Seq<char>>> {
        match self.tag_filter {
            Some(tags) => if tags@.len() > 0 {
                Some(texts(tags@))
            } else {
                None
            },
            None => None,
        }
    }

    /// The labels of which a task must have one; none if all tasks count.
    pub fn label_filter(&self) -> (filter: Option<&[String]>)
        ensures
            filter is Some <==> self.spec_label_filter() is Some,
            filter matches Some(tags) ==> Some(texts(tags@)) == self.spec_label_filter(),
    {
        match &self.tag_filter {
            Some(tags) => {
                if tags.len() > 0 {
                    Some(tags.as_slice())
                } else {
                    None
                }
            },
            None => None,
        }
    }
}

/// Access to the Hetzner Cloud, and the kind of server to create there.
#[derive(Debug)]
pub struct HetznerConfig {
    /// API token
    pub token: String,
    /// Server type
    pub server_type: String,
    /// Datacenter location
    pub location: String,
    /// OS image
    pub image: String,
    /// Name of the SSH key in the Hetzner Cloud
    pub ssh_key_name: String,
}

impl HetznerConfig {
    /// A copy of these settings.
    pub fn copy(&self) -> (copied: HetznerConfig)
        ensures
            copied == *self,
    {
        HetznerConfig {
            token: self.token.clone(),
            server_type: self.server_type.clone(),
            location: self.location.clone(),
            image: self.image.clone(),
            ssh_key_name: self.ssh_key_name.clone(),
        }
    }
}

/// How the runner server is run.
#[derive(Debug)]
pub struct RunnerConfig {
    /// Name of the server in the Hetzner Cloud
    pub name: String,
    /// Minimum runtime in minutes before the server can be deleted
    pub min_lifetime_minutes: u64,
    /// Polling interval in seconds
    pub poll_interval_seconds: u64,
}

/// All settings.
#[derive(Debug)]
pub struct Config {
    pub forgejo: ForgejoConfig,
    pub hetzner: HetznerConfig,
    pub runner: RunnerConfig,
}

} // verus!
