//! The values that relay and client are started with.

use vstd::prelude::*;

verus! {

/// Why a set of values is no configuration.
#[derive(Clone, Copy, Debug, PartialEq, Eq, Structural)]
pub enum ConfigError {
    /// The public port is 0.
    PublicPortZero,
    /// The private port is 0.
    PrivatePortZero,
    /// The handshake secret has no bytes.
    EmptySecret,
}

/// A configuration as a mathematical value.
pub struct ConfigView {
    pub public_host: Seq<char>,
    pub public_port: u16,
    pub private_port: u16,
    pub local_service: Seq<char>,
    pub secret: Seq<u8>,
}

impl ConfigView {
    /// Both ports are between 1 and 65535 and the secret has bytes.
    pub open spec fn valid(self) -> bool {
        &&& self.public_port >= 1
        &&& self.private_port >= 1
        &&& self.secret.len() >= 1
    }

    /// The first fault of these values, if they have one: the public port is
    /// looked at first, then the private port, then the secret.
    pub open spec fn fault(self) -> Option<ConfigError> {
        if self.public_port == 0 {
            Some(ConfigError::PublicPortZero)
        } else if self.private_port == 0 {
            Some(ConfigError::PrivatePortZero)
        } else if self.secret.len() == 0 {
            Some(ConfigError::EmptySecret)
        } else {
            None
        }
    }
}

/// The values fixed when a relay or a client starts; they never change.
pub struct Config {
    public_host: String,
    public_port: u16,
    private_port: u16,
    local_service: String,
    secret: Vec<u8>,
}

impl View for Config {
    type V = ConfigView;

    closed spec fn view(&self) -> ConfigView {
        ConfigView {
            public_host: self.public_host@,
            public_port: self.public_port,
            private_port: self.private_port,
            local_service: self.local_service@,
            secret: self.secret@,
        }
    }
}

impl Config {
    #[verifier::type_invariant]
    spec fn well_formed(self) -> bool {
        self@.valid()
    }

    /// Puts a configuration together from the host that the relay is reached
    /// at, the port of its public listener, the port of its listener for
    /// consumers, the address of the local service and the handshake secret.
    pub fn new(
        public_host: String,
        public_port: u16,
        private_port: u16,
        local_service: String,
        secret: Vec<u8>,
    ) -> (r: Result<Config, ConfigError>)
        ensures
            match r {
                Ok(config) => {
                    &&& config@ == (ConfigView {
                        public_host: public_host@,
                        public_port,
                        private_port,
                        local_service: local_service@,
                        secret: secret@,
                    })
                    &&& config@.valid()
                    &&& config@.fault() is None
                },
                Err(error) => (ConfigView {
                    public_host: public_host@,
                    public_port,
                    private_port,
                    local_service: local_service@,
                    secret: secret@,
                }).fault() == Some(error),
            },
    {
        if public_port == 0 {
            Err(ConfigError::PublicPortZero)
        } else if private_port == 0 {
            Err(ConfigError::PrivatePortZero)
        } else if secret.len() == 0 {
            Err(ConfigError::EmptySecret)
        } else {
            Ok(Config { public_host, public_port, private_port, local_service, secret })
        }
    }

    /// The address that the relay's public listener binds and the client
    /// dials.
    pub fn public_host(&self) -> (host: &str)
        ensures
            host@ == self@.public_host,
    {
        self.public_host.as_str()
    }

    /// The port of the relay's public listener.
    pub fn public_port(&self) -> (port: u16)
        ensures
            port == self@.public_port,
            port >= 1,
    {
        proof {
            use_type_invariant(self);
        }
        self.public_port
    }

    /// The port on which the relay listens for consumers.
    pub fn private_port(&self) -> (port: u16)
        ensures
            port == self@.private_port,
            port >= 1,
    {
        proof {
            use_type_invariant(self);
        }
        self.private_port
    }

    /// The address of the service that the client forwards to.
    pub fn local_service(&self) -> (address: &str)
        ensures
            address@ == self@.local_service,
    {
        self.local_service.as_str()
    }

    /// The handshake secret.
    pub fn secret(&self) -> (secret: &[u8])
        ensures
            secret@ == self@.secret,
            secret@.len() >= 1,
    {
        proof {
            use_type_invariant(self);
        }
        self.secret.as_slice()
    }
}

impl ConfigError {
    /// The wording of the complaint, as characters.
    pub open spec fn text(self) -> Seq<char> {
        match self {
            ConfigError::PublicPortZero => "Public port cannot be 0"@,
            ConfigError::PrivatePortZero => "Private port cannot be 0"@,
            ConfigError::EmptySecret => "Handshake secret cannot be empty"@,
        }
    }

    /// A sentence that names the fault.
    pub fn message(&self) -> (text: &'static str)
        ensures
            text@ == self.text(),
    {
        match self {
            ConfigError::PublicPortZero => "Public port cannot be 0",
            ConfigError::PrivatePortZero => "Private port cannot be 0",
            ConfigError::EmptySecret => "Handshake secret cannot be empty",
        }
    }
}

} // verus!
