//! The commands and what they select: mode, rendering and browser opening.
use vstd::prelude::*;
use crate::dev_loop::ServerMode;

verus! {

#[derive(Debug, Clone, Copy, PartialEq, Eq, Structural)]
pub enum BuildCommands {
    Csr,
    Ssr,
}

#[derive(Debug, Clone, Copy, PartialEq, Eq, Structural)]
pub struct ServeCsrArgs {
    /// Open the browser on startup, overriding the configuration.
    pub open: Option<bool>,
}

#[derive(Debug, Clone, Copy, PartialEq, Eq, Structural)]
pub struct ServeSsrArgs {
    /// Open the browser on startup, overriding the configuration.
    pub open: Option<bool>,
}

#[derive(Debug, Clone, Copy, PartialEq, Eq, Structural)]
pub enum ServeCommands {
    Csr(ServeCsrArgs),
    Ssr(ServeSsrArgs),
}

#[derive(Debug, Clone, Copy, PartialEq, Eq, Structural)]
pub enum Commands {
    Build(BuildCommands),
    Serve(ServeCommands),
}

#[derive(Debug, Clone, Copy, PartialEq, Eq, Structural)]
pub struct Cli {
    pub commands: Commands,
}

pub open spec fn spec_is_ssr(c: Commands) -> bool {
    match c {
        Commands::Build(b) => b == BuildCommands::Ssr,
        Commands::Serve(s) => s is Ssr,
    }
}

impl Cli {
    pub fn new(commands: Commands) -> (r: Cli)
        ensures
            r.commands == commands,
    {
        Cli { commands }
    }

    pub fn is_serve(&self) -> (r: bool)
        ensures
            r == self.commands is Serve,
    {
        match self.commands {
            Commands::Serve(_) => true,
            Commands::Build(_) => false,
        }
    }

    pub fn is_ssr(&self) -> (r: bool)
        ensures
            r == spec_is_ssr(self.commands),
    {
        match self.commands {
            Commands::Build(b) => match b {
                BuildCommands::Ssr => true,
                BuildCommands::Csr => false,
            },
            Commands::Serve(s) => match s {
                ServeCommands::Ssr(_) => true,
                ServeCommands::Csr(_) => false,
            },
        }
    }

    /// The mode whose `.env` files are read: production to build,
    /// development to serve.
    pub fn mode(&self) -> (r: &'static str)
        ensures
            self.commands is Build ==> r@ == "production"@,
            self.commands is Serve ==> r@ == "development"@,
    {
        match self.commands {
            Commands::Build(_) => "production",
            Commands::Serve(_) => "development",
        }
    }

    /// Server-side rendering or client-side rendering.
    pub fn server_mode(&self) -> (r: ServerMode)
        ensures
            r == if spec_is_ssr(self.commands) {
                ServerMode::Ssr
            } else {
                ServerMode::Csr
            },
    {
        if self.is_ssr() {
            ServerMode::Ssr
        } else {
            ServerMode::Csr
        }
    }

    /// Whether the browser opens on startup: the command's override, else
    /// the configured value; never when building.
    pub fn open(&self, configured: bool) -> (r: bool)
        ensures
            r == match self.commands {
                Commands::Build(_) => false,
                Commands::Serve(ServeCommands::Csr(a)) => match a.open {
                    Some(o) => o,
                    None => configured,
                },
                Commands::Serve(ServeCommands::Ssr(a)) => match a.open {
                    Some(o) => o,
                    None => configured,
                },
            },
    {
        match self.commands {
            Commands::Build(_) => false,
            Commands::Serve(ServeCommands::Csr(a)) => match a.open {
                Some(o) => o,
                None => configured,
            },
            Commands::Serve(ServeCommands::Ssr(a)) => match a.open {
                Some(o) => o,
                None => configured,
            },
        }
    }
}

} // verus!
