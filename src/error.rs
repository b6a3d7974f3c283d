use vstd::prelude::*;

verus! {

/// The standard I/O error, carried as the cause of [`Error::Io`].
#[verifier::external_type_specification]
#[verifier::external_body]
pub struct ExIoError(std::io::Error);

/// Why the notifier ended in failure.
#[derive(Debug)]
pub enum Error {
    /// The process was not started by systemd, or the service does not grant
    /// notify access. A daemon should carry on as usual in that case.
    NotRunningWithSystemd,
    /// Starting the watchdog timer failed with this I/O error.
    Io(std::io::Error),
}

impl Error {
    /// The fixed description of this error type, the same for both kinds; an
    /// I/O failure is described further by its [`cause`](Error::cause).
    pub fn description(&self) -> (r: &'static str)
        ensures
            r@ == "Not running with systemd"@,
    {
        proof {
            reveal_strlit("Not running with systemd");
        }
        "Not running with systemd"
    }

    /// The underlying failure, if there is one.
    pub fn cause(&self) -> (r: Option<&std::io::Error>)
        ensures
            match self {
                Error::NotRunningWithSystemd => r is None,
                Error::Io(e) => r == Some(e),
            },
    {
        match self {
            Error::NotRunningWithSystemd => None,
            Error::Io(e) => Some(e),
        }
    }
}

impl From<std::io::Error> for Error {
    fn from(err: std::io::Error) -> (r: Error) {
        Error::Io(err)
    }
}

impl vstd::std_specs::convert::FromSpecImpl<std::io::Error> for Error {
    open spec fn obeys_from_spec() -> bool {
        true
    }

    open spec fn from_spec(v: std::io::Error) -> Error {
        Error::Io(v)
    }
}

} // verus!
