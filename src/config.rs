use vstd::prelude::*;

verus! {

/// Environment variable that names the homeserver; it must be set.
pub const SERVER_NAME_VAR: &'static str = "SYNAPSE_SERVER_NAME";

/// Environment variable with the federation port; it may be left unset.
pub const SERVER_PORT_VAR: &'static str = "SYNAPSE_SERVER_PORT";

/// Why looking up an environment variable gave no value.
#[derive(Debug, PartialEq, Eq)]
pub enum EnvVarError {
    /// The variable is not set.
    NotPresent,
    /// The variable is set, but its value is not valid Unicode; the field holds
    /// it with the invalid parts replaced.
    NotUnicode(String),
}

/// A configuration that cannot be served.
#[derive(Debug, PartialEq, Eq)]
pub enum ConfigError {
    /// The server-name variable could not be read, for the reason given.
    ServerNameUnavailable(EnvVarError),
}

/// The `m.server` value: the server name alone, or the server name, a colon
/// and the port, each taken as it stands.
pub open spec fn resolved_m_server(server_name: Seq<char>, port: Option<Seq<char>>) -> Seq<char> {
    match port {
        Some(p) => server_name + seq![':'] + p,
        None => server_name,
    }
}

/// The port that a lookup of the port variable supplies: none when it failed.
pub open spec fn port_of(port_env: Result<String, EnvVarError>) -> Option<Seq<char>> {
    match port_env {
        Ok(p) => Some(p@),
        Err(_) => None,
    }
}

/// Derives the `m.server` value from the lookups of the server-name and port
/// variables. A server name that could not be read is an error; a port that
/// could not be read counts as absent.
pub fn m_server_from_env(
    server_name_env: Result<String, EnvVarError>,
    port_env: Result<String, EnvVarError>,
) -> (r: Result<String, ConfigError>)
    ensures
        match server_name_env {
            Ok(name) => r matches Ok(s) && s@ == resolved_m_server(name@, port_of(port_env)),
            Err(e) => r == Err::<String, ConfigError>(ConfigError::ServerNameUnavailable(e)),
        },
        r is Err <==> server_name_env is Err,
        server_name_env is Ok && port_env is Err ==> r->Ok_0@ == server_name_env->Ok_0@,
        server_name_env is Ok && port_env is Ok ==> r->Ok_0@ == server_name_env->Ok_0@ + seq![':']
            + port_env->Ok_0@,
{
    match server_name_env {
        Ok(server_name) => {
            let port = match port_env {
                Ok(val) => Some(val),
                Err(_) => None,
            };
            match port {
                Some(p) => {
                    proof {
                        reveal_strlit(":");
                    }
                    Ok(server_name.concat(":").concat(p.as_str()))
                },
                None => Ok(server_name),
            }
        },
        Err(e) => Err(ConfigError::ServerNameUnavailable(e)),
    }
}

} // verus!
