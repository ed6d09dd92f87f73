//! Gateway configuration: the allow-lists of permitted destination hosts and
//! permitted project identifiers, plus the listen address and tunnel path.

use vstd::prelude::*;
use vstd::string::StringExecFns;

use crate::digits::dec_str;
use crate::digits::u64_to_string;

verus! {

/// A permitted destination hostname.
#[derive(Clone, Debug, Eq, PartialEq)]
pub struct Host(pub String);

/// Immutable configuration shared read-only by all requests: the two
/// allow-lists, and where the gateway listens.
#[derive(Clone, Debug)]
pub struct Config {
    pub remote_hosts: Vec<Host>,
    pub project_ids: Vec<String>,
    pub port: u16,
    pub tunnel_path: String,
    pub ip: String,
}

/// The hostname of a URL, if the string parses as a URL with a host.
pub uninterp spec fn url_host(s: Seq<char>) -> Option<Seq<char>>;

/// Relies on `url::Url::parse` and `url::Url::host_str`: both depend on the
/// characters of the input alone, so the result is a function of them.
#[verifier::external_body]
fn host_of_url(s: &str) -> (r: Option<String>)
    ensures
        r matches Some(h) ==> url_host(s@) == Some(h@),
        r is None ==> url_host(s@) is None,
{
    match url::Url::parse(s) {
        Ok(u) => u.host_str().map(|h| h.to_string()),
        Err(_) => None,
    }
}

/// The hostnames of the entries that parse as URLs with a host, in order;
/// entries that do not are dropped.
pub open spec fn cleaned_hosts(hosts: Seq<Seq<char>>) -> Seq<Seq<char>>
    decreases hosts.len(),
{
    if hosts.len() == 0 {
        Seq::empty()
    } else {
        let rest = cleaned_hosts(hosts.drop_last());
        match url_host(hosts.last()) {
            Some(h) => rest.push(h),
            None => rest,
        }
    }
}

/// The project identifiers that admit a numeric id: those whose text is
/// exactly its decimal notation.
pub open spec fn id_allowed(ids: Seq<Seq<char>>, id: u64) -> bool {
    ids.contains(dec_str(id as nat))
}

impl Config {
    /// True when the id's decimal notation is one of the permitted
    /// project identifiers.
    pub fn project_id_is_allowed(&self, id: u64) -> (r: bool)
        ensures
            r == id_allowed(self.project_ids@.map_values(|s: String| s@), id),
    {
        let ghost ids = self.project_ids@.map_values(|s: String| s@);
        let id_str = u64_to_string(id);
        let n = self.project_ids.len();
        let mut j: usize = 0;
        while j < n
            invariant
                n == self.project_ids@.len(),
                ids == self.project_ids@.map_values(|s: String| s@),
                id_str@ == dec_str(id as nat),
                0 <= j <= n,
                forall|k: int| 0 <= k < j ==> ids[k] != dec_str(id as nat),
            decreases n - j,
        {
            if self.project_ids[j] == id_str {
                proof {
                    assert(ids[j as int] == dec_str(id as nat));
                }
                return true;
            }
            j += 1;
        }
        proof {
            assert(forall|k: int| 0 <= k < ids.len() ==> ids[k] != dec_str(id as nat));
        }
        false
    }

    /// Extracts the hostnames of the configured destination URLs, dropping
    /// every entry that does not parse as a URL with a host.
    pub fn clean_remote_hosts(hosts: &[String]) -> (r: Vec<Host>)
        ensures
            r@.map_values(|h: Host| h.0@) == cleaned_hosts(
                hosts@.map_values(|s: String| s@),
            ),
    {
        let ghost all = hosts@.map_values(|s: String| s@);
        let mut result: Vec<Host> = Vec::new();
        let n = hosts.len();
        let mut i: usize = 0;
        while i < n
            invariant
                n == hosts@.len(),
                all == hosts@.map_values(|s: String| s@),
                0 <= i <= n,
                result@.map_values(|h: Host| h.0@) == cleaned_hosts(all.take(i as int)),
            decreases n - i,
        {
            proof {
                assert(all.take(i + 1).drop_last() =~= all.take(i as int));
                assert(all.take(i + 1).last() == all[i as int]);
            }
            match host_of_url(hosts[i].as_str()) {
                Some(hostname) => {
                    result.push(Host(hostname));
                    proof {
                        assert(result@.map_values(|h: Host| h.0@) =~= cleaned_hosts(
                            all.take(i + 1),
                        ));
                    }
                },
                None => {
                    proof {
                        assert(result@.map_values(|h: Host| h.0@) =~= cleaned_hosts(
                            all.take(i + 1),
                        ));
                    }
                },
            }
            i += 1;
        }
        proof {
            assert(all.take(n as int) =~= all);
        }
        result
    }

    /// Builds a configuration from plain values, extracting hostnames from
    /// the configured destination URLs. An allow-list of hosts that comes
    /// out empty is fatal: no gateway can be built from it.
    pub fn try_new(
        remote_hosts: &[String],
        project_ids: Vec<String>,
        port: u16,
        tunnel_path: String,
        ip: String,
    ) -> (r: Result<Config, String>)
        ensures
            r matches Ok(c) ==> {
                &&& c.remote_hosts@.map_values(|h: Host| h.0@) == cleaned_hosts(
                    remote_hosts@.map_values(|s: String| s@),
                )
                &&& c.project_ids == project_ids
                &&& c.port == port
                &&& c.tunnel_path == tunnel_path
                &&& c.ip == ip
            },
            r is Ok <==> cleaned_hosts(remote_hosts@.map_values(|s: String| s@)).len() > 0,
            r matches Err(m) ==> m@ == "No remote hosts to forward sentry envelopes to"@,
    {
        let valid_remote_hosts = Config::clean_remote_hosts(remote_hosts);
        if valid_remote_hosts.len() == 0 {
            proof {
                assert(valid_remote_hosts@.map_values(|h: Host| h.0@).len() == 0);
            }
            Err(String::from_str("No remote hosts to forward sentry envelopes to"))
        } else {
            proof {
                assert(valid_remote_hosts@.map_values(|h: Host| h.0@).len() > 0);
            }
            Ok(
                Config {
                    remote_hosts: valid_remote_hosts,
                    project_ids,
                    port,
                    tunnel_path,
                    ip,
                },
            )
        }
    }
}

} // verus!
