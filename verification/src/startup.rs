//! Process startup: deciding how to listen from the positional arguments.
//!
//! No arguments means a plaintext listener on port 80; a certificate file
//! path followed by a private key file path means a TLS listener on port
//! 443; a certificate path with no key path after it is a fatal
//! configuration error. Arguments past the second are ignored.

use vstd::prelude::*;

verus! {

/// How the process should listen.
#[derive(Clone, Debug, PartialEq, Eq)]
pub enum ListenPlan {
    /// A plaintext listener.
    Plain { port: u16 },
    /// A TLS listener using the PEM material at the two paths.
    Tls { cert_path: String, key_path: String, port: u16 },
}

/// A startup configuration the process must abort on.
#[derive(Clone, Copy, Debug, PartialEq, Eq, Structural)]
pub enum ConfigError {
    /// A certificate path was given with no key path after it.
    MissingKeyPath,
}

/// Decides the listen plan from the positional arguments (the process name
/// already stripped).
pub fn plan_startup(args: &Vec<String>) -> (r: Result<ListenPlan, ConfigError>)
    ensures
        args@.len() == 0 ==> (r matches Ok(p) && p == (ListenPlan::Plain { port: 80u16 })),
        args@.len() == 1 ==> (r matches Err(e) && e == ConfigError::MissingKeyPath),
        args@.len() >= 2 ==> (r matches Ok(p) && p matches ListenPlan::Tls { cert_path, key_path, port }
            && cert_path@ == args@[0]@ && key_path@ == args@[1]@ && port == 443u16),
{
    if args.len() == 0 {
        Ok(ListenPlan::Plain { port: 80 })
    } else if args.len() == 1 {
        Err(ConfigError::MissingKeyPath)
    } else {
        let cert_path = args[0].clone();
        let key_path = args[1].clone();
        Ok(ListenPlan::Tls { cert_path, key_path, port: 443 })
    }
}

} // verus!
