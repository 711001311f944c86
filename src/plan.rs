use vstd::prelude::*;
use crate::config::{Args, target_names};
use crate::credential::{ConfigError, Credential, load_credential, standard_base64_decoding};
use crate::record::{dns_endpoint, spec_endpoint};

verus! {

/// Where the run's address comes from: a literal given by the caller, or the
/// local end of a connection opened to the DNS server's endpoint.
pub enum IpSource {
    Literal(String),
    Discover { endpoint: String },
}

/// Everything a run needs before its first network request.
pub struct RunPlan {
    pub server: String,
    pub origin: String,
    pub credential: Credential,
    pub names: Vec<String>,
    pub ip_source: IpSource,
}

/// Whether the secret's environment value is set and valid base64.
pub open spec fn secret_is_valid(secret_text: Option<String>) -> bool {
    secret_text is Some && standard_base64_decoding(secret_text->0@) is Some
}

/// Checks the configuration of a run before any network request. A missing
/// secret, then a secret that is not valid base64, then a missing hostname
/// where no name was given, are errors; otherwise the plan holds the
/// credential, the names to update and where the address comes from.
pub fn plan_run(args: Args, secret_text: Option<String>, hostname: Option<String>) -> (r: Result<
    RunPlan,
    ConfigError,
>)
    ensures
        secret_text is None ==> r == Err::<RunPlan, ConfigError>(ConfigError::MissingSecret),
        secret_text is Some && standard_base64_decoding(secret_text->0@) is None ==> r == Err::<
            RunPlan,
            ConfigError,
        >(ConfigError::InvalidSecret),
        secret_is_valid(secret_text) && args.names@.len() == 0 && hostname is None ==> r
            == Err::<RunPlan, ConfigError>(ConfigError::MissingHostname),
        secret_is_valid(secret_text) && (args.names@.len() > 0 || hostname is Some) ==> r is Ok,
        r is Ok ==> ({
            let p = r->Ok_0;
            &&& p.server == args.server
            &&& p.origin == args.origin
            &&& p.credential.key_name@ == args.key@
            &&& p.credential.secret@ == standard_base64_decoding(secret_text->0@)->0
            &&& args.names@.len() > 0 ==> p.names == args.names
            &&& args.names@.len() == 0 ==> p.names@ == seq![hostname->0]
            &&& args.ip is Some ==> p.ip_source is Literal && p.ip_source->Literal_0
                == args.ip->0
            &&& args.ip is None ==> p.ip_source is Discover && p.ip_source->endpoint@
                == spec_endpoint(args.server@)
        }),
{
    let Args { server, origin, key, names, ip, verbose: _ } = args;
    let credential = match load_credential(key, secret_text) {
        Ok(c) => c,
        Err(e) => return Err(e),
    };
    let names = match target_names(names, hostname) {
        Ok(n) => n,
        Err(e) => return Err(e),
    };
    let ip_source = match ip {
        Some(literal) => IpSource::Literal(literal),
        None => IpSource::Discover { endpoint: dns_endpoint(server.as_str()) },
    };
    Ok(RunPlan { server, origin, credential, names, ip_source })
}

} // verus!
