//! The launch configuration, and what the child process is started with:
//! the injected resource-attributes environment entry and the `--config`
//! argument list.

use vstd::prelude::*;
use vstd::string::{StrSliceExecFns, StringExecFns};

verus! {

/// The configuration a run is launched from, read once at start.
pub struct LaunchConfig {
    /// Base URL of the remote release host.
    pub repo: String,
    /// Filename of the release asset to download.
    pub binary_name: String,
    /// Optional service-identity label for the child's environment.
    pub service_name: Option<String>,
    /// Optional path handed to the child as its own configuration file.
    pub config_path: Option<String>,
}

/// The environment entry injected into the child: the variable
/// `OTEL_RESOURCE_ATTRIBUTES` set to `service.name=<label>`, with an empty
/// label when none is configured.
pub fn child_env_entry(service_name: &Option<String>) -> (r: (String, String))
    ensures
        r.0@ == "OTEL_RESOURCE_ATTRIBUTES"@,
        service_name matches Some(name) ==> r.1@ == "service.name="@ + name@,
        service_name is None ==> r.1@ == "service.name="@,
{
    let key = "OTEL_RESOURCE_ATTRIBUTES".to_owned();
    let mut value = "service.name=".to_owned();
    match service_name {
        Some(name) => {
            value.append(name.as_str());
        },
        None => {},
    }
    (key, value)
}

/// The arguments the child is invoked with: `--config` followed by the
/// configured child-config path, or by `./config.yaml` when none is set.
pub fn child_args(config_path: &Option<String>) -> (r: Vec<String>)
    ensures
        r@.len() == 2,
        r@[0]@ == "--config"@,
        config_path matches Some(p) ==> r@[1]@ == p@,
        config_path is None ==> r@[1]@ == "./config.yaml"@,
{
    let path = match config_path {
        Some(p) => p.as_str().to_owned(),
        None => "./config.yaml".to_owned(),
    };
    let mut args: Vec<String> = Vec::new();
    args.push("--config".to_owned());
    args.push(path);
    args
}

} // verus!
