//! The gateway's configuration: the upstream services it knows by name.

use vstd::prelude::*;
use vstd::hash_map::StringHashMap;
use crate::error::AppError;
use crate::text::{decimal_int, decimal_text, digits_value, is_digit, lemma_decimal_int_reads_back};

verus! {

/// One upstream service: the name the gateway knows it by, and its address.
#[derive(Clone, Debug, PartialEq, Eq)]
pub struct ServiceConfig {
    pub name: String,
    pub target: String,
}

/// The whole configuration, as `app.yaml` holds it.
#[derive(Clone, Debug, PartialEq, Eq)]
pub struct Config {
    pub app_debug: bool,
    pub app_port: u16,
    pub monitor_port: u16,
    pub log_level: String,
    pub graceful_wait_time: u64,
    pub services: Vec<ServiceConfig>,
}

/// The addresses of the upstream services that the gateway connects to.
#[derive(Clone, Debug, PartialEq, Eq)]
pub struct TargetServices {
    pub greeter_addr: String,
}

/// The name under which the greeter service is configured.
pub open spec fn greeter_service_name() -> Seq<char> {
    "greeter-svc"@
}

/// The target of the first service named `name`, if any is.
pub open spec fn spec_lookup(services: Seq<ServiceConfig>, name: Seq<char>) -> Option<Seq<char>>
    decreases services.len(),
{
    if services.len() == 0 {
        None
    } else {
        match spec_lookup(services.drop_last(), name) {
            Some(t) => Some(t),
            None => if services.last().name@ == name {
                Some(services.last().target@)
            } else {
                None
            },
        }
    }
}

/// The map from each configured name to a target: where a name occurs more
/// than once, the last occurrence wins.
pub open spec fn spec_service_map(services: Seq<ServiceConfig>) -> Map<Seq<char>, String>
    decreases services.len(),
{
    if services.len() == 0 {
        Map::empty()
    } else {
        spec_service_map(services.drop_last()).insert(services.last().name@, services.last().target)
    }
}

/// The message of the error that a lookup of a missing service gives.
pub open spec fn spec_missing_service_message(name: Seq<char>) -> Seq<char> {
    "service '"@ + name + "' not found in config"@
}

/// The outcome of looking up the target of the service named `name`.
pub open spec fn spec_service_target(services: Seq<ServiceConfig>, name: Seq<char>) -> Result<Seq<char>, Seq<char>> {
    match spec_lookup(services, name) {
        Some(t) => Ok(t),
        None => Err(spec_missing_service_message(name)),
    }
}

/// No two services share a name.
pub open spec fn names_distinct(services: Seq<ServiceConfig>) -> bool {
    forall|i: int, j: int|
        0 <= i < services.len() && 0 <= j < services.len() && i != j
            ==> #[trigger] services[i].name@ != #[trigger] services[j].name@
}

/// The first service with a name is found where some service has it.
pub proof fn lemma_lookup_finds_first(services: Seq<ServiceConfig>, name: Seq<char>)
    ensures
        spec_lookup(services, name) is Some <==> exists|i: int| 0 <= i < services.len() && #[trigger] services[i].name@ == name,
        spec_lookup(services, name) is Some ==> exists|i: int|
            0 <= i < services.len() && #[trigger] services[i].name@ == name
                && spec_lookup(services, name) == Some(services[i].target@)
                && forall|j: int| 0 <= j < i ==> #[trigger] services[j].name@ != name,
    decreases services.len(),
{
    if services.len() > 0 {
        let init = services.drop_last();
        lemma_lookup_finds_first(init, name);
        assert forall|i: int| 0 <= i < init.len() implies #[trigger] init[i] == services[i] by {}
        if spec_lookup(init, name) is Some {
            let i = choose|i: int| 0 <= i < init.len() && #[trigger] init[i].name@ == name
                && spec_lookup(init, name) == Some(init[i].target@)
                && forall|j: int| 0 <= j < i ==> #[trigger] init[j].name@ != name;
            assert(services[i].name@ == name);
            assert forall|j: int| 0 <= j < i implies #[trigger] services[j].name@ != name by {
                assert(init[j] == services[j]);
            }
        } else if services.last().name@ == name {
            let k = services.len() - 1;
            assert(services[k].name@ == name);
            assert forall|j: int| 0 <= j < k implies #[trigger] services[j].name@ != name by {
                assert(init[j] == services[j]);
                if services[j].name@ == name {
                    assert(init[j].name@ == name);
                }
            }
        } else {
            assert forall|i: int| 0 <= i < services.len() implies #[trigger] services[i].name@ != name by {
                if i < services.len() - 1 {
                    assert(init[i].name@ != name);
                }
            }
        }
    }
}

/// The names that the service map holds are those of the configured
/// services, and a lookup of a name succeeds exactly when the map holds it;
/// where no two services share a name, both give the same target.
pub proof fn lemma_lookup_agrees_with_map(services: Seq<ServiceConfig>, name: Seq<char>)
    ensures
        spec_lookup(services, name) is Some <==> spec_service_map(services).dom().contains(name),
        names_distinct(services) && spec_lookup(services, name) is Some
            ==> spec_lookup(services, name) == Some(spec_service_map(services)[name]@),
    decreases services.len(),
{
    if services.len() > 0 {
        let init = services.drop_last();
        lemma_lookup_agrees_with_map(init, name);
        if names_distinct(services) {
            assert(names_distinct(init)) by {
                assert forall|i: int, j: int|
                    0 <= i < init.len() && 0 <= j < init.len() && i != j
                        implies #[trigger] init[i].name@ != #[trigger] init[j].name@ by {
                    assert(init[i] == services[i]);
                    assert(init[j] == services[j]);
                }
            }
            if spec_lookup(init, name) is Some && services.last().name@ == name {
                lemma_lookup_finds_first(init, name);
                let i = choose|i: int| 0 <= i < init.len() && #[trigger] init[i].name@ == name;
                assert(init[i] == services[i]);
                assert(services[services.len() - 1].name@ == name);
            }
        }
    }
}

/// The listen address is `0.0.0.0:` followed by digits that read back as
/// the configured port.
pub proof fn lemma_listen_port_reads_back(port: u16)
    ensures
        ({
            let a = "0.0.0.0:"@ + decimal_int(port as int);
            let p = a.subrange("0.0.0.0:"@.len() as int, a.len() as int);
            &&& p == decimal_int(port as int)
            &&& p.len() > 0
            &&& digits_value(p) == port
            &&& forall|i: int| 0 <= i < p.len() ==> is_digit(#[trigger] p[i])
        }),
{
    lemma_decimal_int_reads_back(port as int);
    let a = "0.0.0.0:"@ + decimal_int(port as int);
    assert(a.subrange("0.0.0.0:"@.len() as int, a.len() as int) =~= decimal_int(port as int));
}

impl Config {
    /// The socket address the HTTP server listens on: every interface, at
    /// the configured port.
    pub fn listen_address(&self) -> (a: String)
        ensures
            a@ == "0.0.0.0:"@ + decimal_int(self.app_port as int),
    {
        let mut a = String::from_str("0.0.0.0:");
        let port = decimal_text(self.app_port as i64);
        a.append(port.as_str());
        a
    }

    /// The map from each configured service name to its target; where a
    /// name occurs more than once, the last occurrence's target is kept.
    pub fn service_map(&self) -> (m: StringHashMap<String>)
        ensures
            m@ == spec_service_map(self.services@),
    {
        let mut m: StringHashMap<String> = StringHashMap::new();
        let n = self.services.len();
        for i in 0..n
            invariant
                n == self.services@.len(),
                m@ == spec_service_map(self.services@.take(i as int)),
        {
            let s = &self.services[i];
            m.insert(s.name.clone(), s.target.clone());
            assert(self.services@.take(i + 1).drop_last() =~= self.services@.take(i as int));
        }
        assert(self.services@.take(n as int) =~= self.services@);
        m
    }

    /// The target of the first service named `name`; an `Internal` error
    /// naming it where no service has that name.
    pub fn get_service_target(&self, name: &str) -> (res: Result<String, AppError>)
        ensures
            match spec_service_target(self.services@, name@) {
                Ok(t) => res matches Ok(r) && r@ == t,
                Err(msg) => res matches Err(AppError::Internal(m)) && m@ == msg,
            },
    {
        let wanted = name.to_string();
        let n = self.services.len();
        let mut i: usize = 0;
        while i < n
            invariant
                n == self.services@.len(),
                i <= n,
                wanted@ == name@,
                spec_lookup(self.services@.take(i as int), name@) is None,
            decreases n - i,
        {
            let s = &self.services[i];
            assert(self.services@.take(i + 1).drop_last() =~= self.services@.take(i as int));
            if s.name == wanted {
                proof { lemma_lookup_prefix(self.services@, (i + 1) as int, name@); }
                return Ok(s.target.clone());
            }
            i = i + 1;
        }
        assert(self.services@.take(n as int) =~= self.services@);
        let mut msg = String::from_str("service '");
        msg.append(name);
        msg.append("' not found in config");
        Err(AppError::Internal(msg))
    }
}

/// A name found in a prefix is found, with the same target, in the whole.
proof fn lemma_lookup_prefix(services: Seq<ServiceConfig>, k: int, name: Seq<char>)
    requires
        0 <= k <= services.len(),
        spec_lookup(services.take(k), name) is Some,
    ensures
        spec_lookup(services, name) == spec_lookup(services.take(k), name),
    decreases services.len() - k,
{
    if k < services.len() {
        assert(services.take(k + 1).drop_last() =~= services.take(k));
        lemma_lookup_prefix(services, k + 1, name);
    } else {
        assert(services.take(k) =~= services);
    }
}

impl TargetServices {
    /// The upstream addresses that the configuration gives: the greeter
    /// service is the one named `greeter-svc`; where none is, the lookup's
    /// error.
    pub fn from_config(config: &Config) -> (res: Result<TargetServices, AppError>)
        ensures
            match spec_service_target(config.services@, greeter_service_name()) {
                Ok(t) => res matches Ok(ts) && ts.greeter_addr@ == t,
                Err(msg) => res matches Err(AppError::Internal(m)) && m@ == msg,
            },
    {
        let greeter_addr = config.get_service_target("greeter-svc")?;
        Ok(TargetServices { greeter_addr })
    }
}

} // verus!
