//! The command-line settings of the service and their validation.
use vstd::prelude::*;
use vstd::string::*;

verus! {

/// Which side of the service to run.
#[derive(Clone, Copy, Debug, PartialEq, Eq, Structural)]
pub enum Mode {
    Server,
    Client,
}

impl Mode {
    /// The name of the mode on the command line.
    pub open spec fn name(self) -> Seq<char> {
        match self {
            Mode::Server => "server"@,
            Mode::Client => "client"@,
        }
    }

    /// The name of the mode on the command line: `server` or `client`.
    pub fn to_string(&self) -> (s: String)
        ensures
            s@ == self.name(),
    {
        match self {
            Mode::Server => String::from_str("server"),
            Mode::Client => String::from_str("client"),
        }
    }
}

/// The port used when none is given.
pub const DEFAULT_PORT: u16 = 41234;

/// The command-line settings.
#[derive(Debug)]
pub struct Args {
    /// Which side to run.
    pub mode: Mode,
    /// Where the client sends its announcement.
    pub target: Option<String>,
    /// Which local address the client binds to.
    pub bind: Option<String>,
    /// The server's configuration file.
    pub config: Option<String>,
    /// The port to use.
    pub port: u16,
    /// Whether the server acts with administrator rights on the hosts.
    pub root: bool,
}

/// Why the settings cannot be used.
#[derive(Debug, PartialEq, Eq, Structural)]
pub enum ArgsError {
    /// The port is 0.
    ZeroPort,
}

impl ArgsError {
    /// The message this error is reported with.
    pub fn message(&self) -> (m: String)
        ensures
            m@ == "--port must be a non-zero value"@,
    {
        String::from_str("--port must be a non-zero value")
    }
}

impl Args {
    /// Checks the settings and says which side to run: an error when the
    /// port is 0, the chosen mode otherwise.
    pub fn validate(&self) -> (res: Result<Mode, ArgsError>)
        ensures
            res is Err <==> self.port == 0,
            res matches Err(e) ==> e == ArgsError::ZeroPort,
            res matches Ok(m) ==> m == self.mode,
    {
        if self.port == 0 {
            return Err(ArgsError::ZeroPort);
        }
        Ok(self.mode)
    }
}

} // verus!
