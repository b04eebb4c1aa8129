//! The daemon's command line, as plain values. Argument parsing itself is
//! wiring around the engine; the choice the arguments express is decided
//! here.

use vstd::prelude::*;

verus! {

pub struct Cli {
    pub command: Commands,
    /// The port the daemon serves or proxies on.
    pub port: u16,
}

pub enum Commands {
    /// Forward calls to another server at this address; for testing only.
    Proxy { address: String },
    Run(RunArgs),
    /// Look at the metadata of all files in the folder and build an index.
    Scan(RunArgs),
}

pub struct RunArgs {
    pub playlist_dir: String,
    pub music_dir: String,
}

impl Cli {
    /// The proxy target, exactly when proxying was asked for.
    pub fn proxy(&self) -> (r: Option<&str>)
        ensures
            match self.command {
                Commands::Proxy { ref address } => {
                    &&& r is Some
                    &&& r.unwrap()@ == address@
                },
                _ => r is None,
            },
    {
        match &self.command {
            Commands::Proxy { address } => Some(address.as_str()),
            _ => None,
        }
    }
}

} // verus!
