use vstd::prelude::*;

use crate::discovery::DISCOVERY_TIMEOUT_MS;
use crate::error::Error;

verus! {

/// The scheme of the public endpoint that the tunnel serves.
#[derive(Debug, Clone, Copy, PartialEq, Eq, Structural)]
pub enum Protocol {
    Http,
    Https,
}

/// The leading positional argument handed to the executable for a protocol.
pub open spec fn protocol_word(p: Protocol) -> Seq<char> {
    match p {
        Protocol::Http => "http"@,
        Protocol::Https => "https"@,
    }
}

/// The executable started when none was configured.
pub open spec fn default_executable() -> Seq<char> {
    "ngrok"@
}

/// Decimal digits of a natural number, most significant first.
pub open spec fn decimal(n: nat) -> Seq<char>
    decreases n,
{
    if n < 10 {
        seq![digit_char(n)]
    } else {
        decimal(n / 10).push(digit_char(n % 10))
    }
}

pub open spec fn digit_char(d: nat) -> char {
    ((d % 10) + ('0' as nat)) as char
}

impl Protocol {
    /// The argument that selects this protocol on the command line.
    pub fn word(&self) -> (r: &'static str)
        ensures
            r@ == protocol_word(*self),
    {
        match self {
            Protocol::Http => "http",
            Protocol::Https => "https",
        }
    }
}

/// Relies on `<u16 as ToString>::to_string`, which writes an integer in decimal.
#[verifier::external_body]
pub(crate) fn port_text(port: u16) -> (r: String)
    ensures
        r@ == decimal(port as nat),
{
    port.to_string()
}

/// The configuration collected so far; every field may still be missing.
#[derive(Debug, Clone)]
pub struct Builder {
    protocol: Option<Protocol>,
    port: Option<u16>,
    executable: Option<String>,
    timeout_ms: Option<u64>,
}

pub struct BuilderView {
    pub protocol: Option<Protocol>,
    pub port: Option<u16>,
    pub executable: Option<Seq<char>>,
    pub timeout_ms: Option<u64>,
}

impl View for Builder {
    type V = BuilderView;

    closed spec fn view(&self) -> BuilderView {
        BuilderView {
            protocol: self.protocol,
            port: self.port,
            executable: match self.executable {
                Some(e) => Some(e@),
                None => None,
            },
            timeout_ms: self.timeout_ms,
        }
    }
}

pub open spec fn empty_builder() -> BuilderView {
    BuilderView { protocol: None, port: None, executable: None, timeout_ms: None }
}

impl Default for Builder {
    fn default() -> (r: Self)
        ensures
            r@ == empty_builder(),
    {
        Builder::new()
    }
}

/// A complete configuration: what `run` needs to start the process.
#[derive(Debug, Clone)]
pub struct Config {
    pub protocol: Protocol,
    pub port: u16,
    pub executable: String,
    /// How long discovery may take, in milliseconds.
    pub timeout_ms: u64,
}

/// The error that `config` reports for a builder, or `None` when it is complete.
/// The protocol is checked before the port.
pub open spec fn config_error(b: BuilderView) -> Option<Error> {
    if b.protocol is None {
        Some(Error::MissingProtocol)
    } else if b.port is None {
        Some(Error::MissingPort)
    } else {
        None
    }
}

/// A builder that lacks the protocol or the port never yields a configuration, so no
/// process can be started from it: `config` reports which setting is missing.
pub proof fn lemma_incomplete_rejected(b: BuilderView)
    requires
        b.protocol is None || b.port is None,
    ensures
        config_error(b) == Some(Error::MissingProtocol) || config_error(b) == Some(Error::MissingPort),
{
}

/// A configuration that agrees with a complete builder.
pub open spec fn config_of(b: BuilderView, c: Config) -> bool {
    &&& b.protocol == Some(c.protocol)
    &&& b.port == Some(c.port)
    &&& c.executable@ == match b.executable {
        Some(e) => e,
        None => default_executable(),
    }
    &&& c.timeout_ms == match b.timeout_ms {
        Some(t) => t,
        None => DISCOVERY_TIMEOUT_MS,
    }
}

/// The entry point for starting an `ngrok` tunnel.
pub fn builder() -> (r: Builder)
    ensures
        r@ == empty_builder(),
{
    Builder::new()
}

impl Builder {
    /// A builder with nothing set.
    pub fn new() -> (r: Self)
        ensures
            r@ == empty_builder(),
    {
        Builder { protocol: None, port: None, executable: None, timeout_ms: None }
    }

    fn duplicate(&self) -> (r: Self)
        ensures
            r@ == self@,
    {
        let executable = match &self.executable {
            Some(e) => Some(e.clone()),
            None => None,
        };
        Builder { protocol: self.protocol, port: self.port, executable, timeout_ms: self.timeout_ms }
    }

    /// Select HTTPS as the tunnel protocol.
    pub fn https(&mut self) -> (r: Self)
        ensures
            final(self)@ == (BuilderView { protocol: Some(Protocol::Https), ..old(self)@ }),
            r@ == final(self)@,
    {
        self.protocol = Some(Protocol::Https);
        self.duplicate()
    }

    /// Select HTTP as the tunnel protocol.
    pub fn http(&mut self) -> (r: Self)
        ensures
            final(self)@ == (BuilderView { protocol: Some(Protocol::Http), ..old(self)@ }),
            r@ == final(self)@,
    {
        self.protocol = Some(Protocol::Http);
        self.duplicate()
    }

    /// Set the local port that the tunnel forwards to.
    pub fn port(&mut self, port: u16) -> (r: Self)
        ensures
            final(self)@ == (BuilderView { port: Some(port), ..old(self)@ }),
            r@ == final(self)@,
    {
        self.port = Some(port);
        self.duplicate()
    }

    /// Set the path of the `ngrok` executable; by default `ngrok` is looked up on the path.
    pub fn executable(&mut self, executable: &str) -> (r: Self)
        ensures
            final(self)@ == (BuilderView { executable: Some(executable@), ..old(self)@ }),
            r@ == final(self)@,
    {
        self.executable = Some(executable.to_owned());
        self.duplicate()
    }

    /// Set how long `run` waits for the tunnel to be listed, in milliseconds; by
    /// default `DISCOVERY_TIMEOUT_MS`.
    pub fn discovery_timeout(&mut self, millis: u64) -> (r: Self)
        ensures
            final(self)@ == (BuilderView { timeout_ms: Some(millis), ..old(self)@ }),
            r@ == final(self)@,
    {
        self.timeout_ms = Some(millis);
        self.duplicate()
    }

    /// The complete configuration, or the first setting that is missing.
    /// Nothing is started here: a process can only be started from a `Config`.
    pub fn config(&self) -> (r: Result<Config, Error>)
        ensures
            match r {
                Ok(c) => config_error(self@) is None && config_of(self@, c),
                Err(e) => config_error(self@) == Some(e),
            },
    {
        let protocol = match self.protocol {
            Some(p) => p,
            None => return Err(Error::MissingProtocol),
        };
        let port = match self.port {
            Some(p) => p,
            None => return Err(Error::MissingPort),
        };
        let executable = match &self.executable {
            Some(e) => e.clone(),
            None => {
                proof {
                    reveal_strlit("ngrok");
                }
                "ngrok".to_owned()
            },
        };
        let timeout_ms = match self.timeout_ms {
            Some(t) => t,
            None => DISCOVERY_TIMEOUT_MS,
        };
        Ok(Config { protocol, port, executable, timeout_ms })
    }
}

impl Config {
    /// The arguments that the executable is started with: the protocol's word, then
    /// the port in decimal.
    pub fn args(&self) -> (r: Vec<String>)
        ensures
            r@.len() == 2,
            r@[0]@ == protocol_word(self.protocol),
            r@[1]@ == decimal(self.port as nat),
    {
        let mut r: Vec<String> = Vec::new();
        r.push(self.protocol.word().to_owned());
        r.push(port_text(self.port));
        r
    }
}

} // verus!
