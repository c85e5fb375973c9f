//! Registry names: the well-known aliases and the hosts that answer for them.

use vstd::prelude::*;
use vstd::std_specs::convert::FromSpecImpl;

verus! {

/// A registry: one of the well-known ones, or any other by its host name.
#[derive(Debug)]
pub enum Registry {
    DockerElasticCo,
    DockerIo,
    GcrIo,
    GhcrIo,
    Zalando,
    Others(String),
}

impl Registry {
    /// The registry that `name` names: an alias stands for a well-known
    /// registry, any other name for the registry at the host of that name.
    pub open spec fn named(name: String) -> Registry {
        if name@ == "docker.elastic.co"@ {
            Registry::DockerElasticCo
        } else if name@ == "docker.io"@ {
            Registry::DockerIo
        } else if name@ == "gcr.io"@ {
            Registry::GcrIo
        } else if name@ == "ghcr.io"@ {
            Registry::GhcrIo
        } else if name@ == "registry.opensource.zalan.do"@ {
            Registry::Zalando
        } else {
            Registry::Others(name)
        }
    }

    /// The host that serves the registry's API.
    pub open spec fn spec_host(self) -> Seq<char> {
        match self {
            Registry::DockerElasticCo => "docker.elastic.co"@,
            Registry::DockerIo => "registry-1.docker.io"@,
            Registry::GcrIo => "gcr.io"@,
            Registry::GhcrIo => "ghcr.io"@,
            Registry::Zalando => "registry.opensource.zalan.do"@,
            Registry::Others(host) => host@,
        }
    }

    /// The host that serves the registry's API.
    pub fn host(&self) -> (host: String)
        ensures
            host@ == self.spec_host(),
    {
        match self {
            Registry::DockerElasticCo => "docker.elastic.co".to_owned(),
            Registry::DockerIo => "registry-1.docker.io".to_owned(),
            Registry::GcrIo => "gcr.io".to_owned(),
            Registry::GhcrIo => "ghcr.io".to_owned(),
            Registry::Zalando => "registry.opensource.zalan.do".to_owned(),
            Registry::Others(host) => host.clone(),
        }
    }
}

impl From<String> for Registry {
    /// The registry that `s` names: an alias for a well-known registry, or
    /// else the host name of another.
    fn from(s: String) -> (registry: Registry) {
        if s == "docker.elastic.co".to_owned() {
            Registry::DockerElasticCo
        } else if s == "docker.io".to_owned() {
            Registry::DockerIo
        } else if s == "gcr.io".to_owned() {
            Registry::GcrIo
        } else if s == "ghcr.io".to_owned() {
            Registry::GhcrIo
        } else if s == "registry.opensource.zalan.do".to_owned() {
            Registry::Zalando
        } else {
            Registry::Others(s)
        }
    }
}

impl FromSpecImpl<String> for Registry {
    open spec fn obeys_from_spec() -> bool {
        true
    }

    open spec fn from_spec(s: String) -> Registry {
        Registry::named(s)
    }
}

/// A name stands for the host of that name, but for the alias `docker.io`,
/// which stands for the host `registry-1.docker.io`.
pub proof fn lemma_host_of_name(name: String)
    ensures
        name@ == "docker.io"@ ==> Registry::named(name).spec_host() == "registry-1.docker.io"@,
        name@ == "docker.io"@ ==> Registry::named(name).spec_host() != name@,
        name@ != "docker.io"@ ==> Registry::named(name).spec_host() == name@,
{
    reveal_strlit("docker.io");
    reveal_strlit("registry-1.docker.io");
    reveal_strlit("docker.elastic.co");
    assert("docker.io"@.len() != "registry-1.docker.io"@.len());
    assert("docker.io"@.len() != "docker.elastic.co"@.len());
}

} // verus!
