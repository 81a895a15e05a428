//! The operator's configuration: where envelopes may be forwarded to.

use vstd::prelude::*;

verus! {

/// A host that envelopes may be forwarded to, without scheme, port or path.
#[derive(Debug, Clone, PartialEq, Eq)]
pub struct Host(pub String);

impl View for Host {
    type V = Seq<char>;

    open spec fn view(&self) -> Seq<char> {
        self.0@
    }
}

/// Whether `name` is one of `hosts`, compared as text.
pub open spec fn hosts_contain(hosts: Seq<Host>, name: Seq<char>) -> bool {
    exists|i: int| 0 <= i < hosts.len() && #[trigger] hosts[i]@ == name
}

/// Whether `name` is one of `ids`, compared as text.
pub open spec fn ids_contain(ids: Seq<String>, name: Seq<char>) -> bool {
    exists|i: int| 0 <= i < ids.len() && #[trigger] ids[i]@ == name
}

/// Looks `name` up in a list of hosts by exact string equality.
pub fn host_is_listed(hosts: &[Host], name: &String) -> (found: bool)
    ensures
        found == hosts_contain(hosts@, name@),
{
    let mut i: usize = 0;
    while i < hosts.len()
        invariant
            i <= hosts.len(),
            forall|j: int| 0 <= j < i ==> #[trigger] hosts@[j]@ != name@,
        decreases hosts.len() - i,
    {
        if hosts[i].0 == *name {
            assert(hosts@[i as int]@ == name@);
            return true;
        }
        i += 1;
    }
    false
}

/// Looks `name` up in a list of project ids by exact string equality.
pub fn id_is_listed(ids: &[String], name: &String) -> (found: bool)
    ensures
        found == ids_contain(ids@, name@),
{
    let mut i: usize = 0;
    while i < ids.len()
        invariant
            i <= ids.len(),
            forall|j: int| 0 <= j < i ==> #[trigger] ids@[j]@ != name@,
        decreases ids.len() - i,
    {
        if ids[i] == *name {
            assert(ids@[i as int]@ == name@);
            return true;
        }
        i += 1;
    }
    false
}

/// What the operator set up at startup. The tunnel reads it and never
/// changes it.
#[derive(Debug, Clone)]
pub struct Config {
    /// The hosts that envelopes may be forwarded to.
    pub remote_hosts: Vec<Host>,
    /// The projects that envelopes may belong to.
    pub project_ids: Vec<String>,
    /// The port that the tunnel listens on.
    pub port: u16,
    /// The path that the tunnel takes envelopes at.
    pub tunnel_path: String,
    /// The address that the tunnel listens on.
    pub ip: String,
}

impl Config {
    /// Whether the operator allows this project.
    pub open spec fn allows_project(&self, id: Seq<char>) -> bool {
        ids_contain(self.project_ids@, id)
    }

    /// Whether the operator allows this host.
    pub open spec fn allows_host(&self, host: Seq<char>) -> bool {
        hosts_contain(self.remote_hosts@, host)
    }

    /// Whether the operator allows this project.
    pub fn project_id_is_allowed(&self, id: &String) -> (allowed: bool)
        ensures
            allowed == self.allows_project(id@),
    {
        id_is_listed(self.project_ids.as_slice(), id)
    }
}

} // verus!
