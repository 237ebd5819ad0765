//! The configuration of a run and its validation.

use vstd::prelude::*;
use vstd::string::StringExecFns;
use crate::filter::PASSTHROUGH;
use crate::publish::DEFAULT_CHUNK_SIZE;
use crate::text::has_nul;

verus! {

/// The protocol spoken to the server.
#[derive(Clone, Copy, Debug, PartialEq, Eq, Structural)]
pub enum Protocol {
    Http,
    XAudioCast,
    Icy,
    RoarAudio,
}

/// The format that the server is told the stream has.
#[derive(Clone, Copy, Debug, PartialEq, Eq, Structural)]
pub enum StreamFormat {
    Ogg,
    Mp3,
    Webm,
    WebmAudio,
}

/// The codec of the output.
#[derive(Clone, Copy, Debug, PartialEq, Eq, Structural)]
pub enum OutputCodec {
    Vorbis,
    Opus,
    Flac,
    Mp3,
    Aac,
}

/// Where the stream is published, and as whom.
#[derive(Clone)]
pub struct ServerConfig {
    pub host: String,
    pub port: u16,
    pub user: String,
    pub password: String,
    pub mount: String,
    pub protocol: Protocol,
    pub format: StreamFormat,
}

/// The configuration of a run.
#[derive(Clone)]
pub struct Config {
    /// The short name of the output container.
    pub output_container: String,
    pub output_codec: OutputCodec,
    /// The filter chain between decoder and encoder.
    pub filter_expression: String,
    pub server: ServerConfig,
    /// The number of bytes sent at a time.
    pub chunk_size: usize,
}

/// A text of the configuration.
#[derive(Clone, Copy, Debug, PartialEq, Eq, Structural)]
pub enum ConfigField {
    OutputContainer,
    FilterExpression,
    Host,
    User,
    Password,
    Mount,
}

/// What is wrong with a configuration.
#[derive(Clone, Copy, Debug, PartialEq, Eq, Structural)]
pub enum ConfigError {
    /// The chunk size is zero.
    NoChunkSize,
    /// The text holds a NUL character, which no codec library and no server
    /// takes.
    NulIn(ConfigField),
}

impl Config {
    /// The first fault of the configuration, where it has one: the chunk
    /// size is looked at first, then the texts in the order of
    /// [`ConfigField`].
    pub open spec fn fault(self) -> Option<ConfigError> {
        if self.chunk_size == 0 {
            Some(ConfigError::NoChunkSize)
        } else if self.output_container@.contains('\0') {
            Some(ConfigError::NulIn(ConfigField::OutputContainer))
        } else if self.filter_expression@.contains('\0') {
            Some(ConfigError::NulIn(ConfigField::FilterExpression))
        } else if self.server.host@.contains('\0') {
            Some(ConfigError::NulIn(ConfigField::Host))
        } else if self.server.user@.contains('\0') {
            Some(ConfigError::NulIn(ConfigField::User))
        } else if self.server.password@.contains('\0') {
            Some(ConfigError::NulIn(ConfigField::Password))
        } else if self.server.mount@.contains('\0') {
            Some(ConfigError::NulIn(ConfigField::Mount))
        } else {
            None
        }
    }

    /// The configuration of a run that publishes to `server` an Ogg container
    /// with a Vorbis stream, unfiltered, in chunks of the default size.
    pub fn for_server(server: ServerConfig) -> (config: Config)
        ensures
            config.output_container@ == "ogg"@,
            config.output_codec == OutputCodec::Vorbis,
            config.filter_expression@ == PASSTHROUGH@,
            config.server == server,
            config.chunk_size == DEFAULT_CHUNK_SIZE,
    {
        Config {
            output_container: String::from_str("ogg"),
            output_codec: OutputCodec::Vorbis,
            filter_expression: String::from_str(PASSTHROUGH),
            server,
            chunk_size: DEFAULT_CHUNK_SIZE,
        }
    }

    /// Checks the configuration: the chunk size is not zero and no text
    /// holds a NUL character. Of several faults the first is reported.
    pub fn validate(&self) -> (r: Result<(), ConfigError>)
        ensures
            r.is_ok() <==> self.fault() is None,
            r matches Err(e) ==> self.fault() == Some(e),
    {
        if self.chunk_size == 0 {
            Err(ConfigError::NoChunkSize)
        } else if has_nul(self.output_container.as_str()) {
            Err(ConfigError::NulIn(ConfigField::OutputContainer))
        } else if has_nul(self.filter_expression.as_str()) {
            Err(ConfigError::NulIn(ConfigField::FilterExpression))
        } else if has_nul(self.server.host.as_str()) {
            Err(ConfigError::NulIn(ConfigField::Host))
        } else if has_nul(self.server.user.as_str()) {
            Err(ConfigError::NulIn(ConfigField::User))
        } else if has_nul(self.server.password.as_str()) {
            Err(ConfigError::NulIn(ConfigField::Password))
        } else if has_nul(self.server.mount.as_str()) {
            Err(ConfigError::NulIn(ConfigField::Mount))
        } else {
            Ok(())
        }
    }
}

} // verus!
