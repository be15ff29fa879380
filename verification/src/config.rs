//! Configuration of the HTTP bridge.

use vstd::prelude::*;

verus! {

/// `std::path::PathBuf`, a file system path of the standard library. The
/// library carries such a path through and never looks inside it.
#[verifier::external_type_specification]
#[verifier::external_body]
pub struct ExPathBuf(std::path::PathBuf);

/// Configuration of the HTTP bridge: where it listens, where its static files
/// are, and the ids of the nodes that it knows.
#[derive(Debug, Clone)]
pub struct Config {
    pub ip: String,
    pub port: u16,
    pub static_path: Option<std::path::PathBuf>,
    pub automato_ids: Vec<u8>,
}

/// The default configuration: the loopback address, port 8000, no static
/// path and no nodes.
pub fn defcon() -> (config: Config)
    ensures
        config.ip@ == "127.0.0.1"@,
        config.port == 8000,
        config.static_path is None,
        config.automato_ids@ == Seq::<u8>::empty(),
{
    Config { ip: "127.0.0.1".to_string(), port: 8000, static_path: None, automato_ids: Vec::new() }
}

impl Config {
    /// The configuration that was loaded, or the default where none could be.
    pub fn loaded_or_default(loaded: Option<Config>) -> (config: Config)
        ensures
            loaded matches Some(c) ==> config == c,
            loaded is None ==> {
                &&& config.ip@ == "127.0.0.1"@
                &&& config.port == 8000
                &&& config.static_path is None
                &&& config.automato_ids@ == Seq::<u8>::empty()
            },
    {
        match loaded {
            Some(config) => config,
            None => defcon(),
        }
    }

    /// Takes the static path from the environment where the configuration
    /// names none. A path that the configuration names is kept.
    pub fn static_path_fallback(&mut self, from_environment: Option<std::path::PathBuf>)
        ensures
            final(self).ip == old(self).ip,
            final(self).port == old(self).port,
            final(self).automato_ids == old(self).automato_ids,
            final(self).static_path == if old(self).static_path is None {
                from_environment
            } else {
                old(self).static_path
            },
    {
        if self.static_path.is_none() {
            self.static_path = from_environment;
        }
    }
}

} // verus!
