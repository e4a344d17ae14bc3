use vstd::prelude::*;

verus! {

/// How opening a requested file went.
#[derive(Clone, Copy, Debug, PartialEq, Eq, Structural)]
pub enum FileOpenStatus {
    /// There is no such file.
    DNE,
    /// The file exists but could not be read.
    ERROR,
    SUCCESS,
}

/// The protocol that a listener serves.
#[derive(Clone, Copy, Debug, PartialEq, Eq, Structural)]
pub enum ServerMode {
    HTTP,
    FTP,
}

/// The ports that the server listens on.
#[derive(Clone, Copy, Debug, PartialEq, Eq, Structural)]
pub struct Config {
    pub http_port: u16,
    pub ftp_control_port: u16,
}

/// Why a configuration text was refused.
#[derive(Clone, Copy, Debug, PartialEq, Eq, Structural)]
pub enum ConfigError {
    MissingHttpPort,
    MissingFtpControlPort,
}

/// The integer stored under `key` in the first YAML document of `text`, if the text parses,
/// holds a document, and the value there is an integer.
pub uninterp spec fn yaml_integer_of(text: Seq<char>, key: Seq<char>) -> Option<i64>;

/// Relies on `yaml_rust::YamlLoader::load_from_str`, indexing a `Yaml` by a string key and
/// `Yaml::as_i64`: the integer under `key` in the first document, which depends on the text
/// and the key alone.
#[verifier::external_body]
fn yaml_integer(text: &str, key: &str) -> (r: Option<i64>)
    ensures
        r == yaml_integer_of(text@, key@),
{
    let docs = yaml_rust::YamlLoader::load_from_str(text).ok()?;
    docs.first()?[key].as_i64()
}

/// The configuration made of the values found for the two ports; each port keeps the low 16
/// bits of its value.
pub open spec fn config_of_values(http: Option<i64>, ftp: Option<i64>) -> Result<
    Config,
    ConfigError,
> {
    match (http, ftp) {
        (None, _) => Err(ConfigError::MissingHttpPort),
        (Some(_), None) => Err(ConfigError::MissingFtpControlPort),
        (Some(h), Some(f)) => Ok(Config { http_port: h as u16, ftp_control_port: f as u16 }),
    }
}

/// The configuration that a YAML text gives.
pub open spec fn config_of_text(text: Seq<char>) -> Result<Config, ConfigError> {
    config_of_values(
        yaml_integer_of(text, "http_port"@),
        yaml_integer_of(text, "ftp_control_port"@),
    )
}

impl Config {
    /// Reads the configuration from the text of a YAML file holding the integers `http_port`
    /// and `ftp_control_port`.
    pub fn new(text: &str) -> (r: Result<Config, ConfigError>)
        ensures
            r == config_of_text(text@),
    {
        let http = yaml_integer(text, "http_port");
        let ftp = yaml_integer(text, "ftp_control_port");
        Config::from_values(http, ftp)
    }

    /// Builds the configuration from the values found for the two ports.
    pub fn from_values(http: Option<i64>, ftp: Option<i64>) -> (r: Result<Config, ConfigError>)
        ensures
            r == config_of_values(http, ftp),
    {
        match (http, ftp) {
            (None, _) => Err(ConfigError::MissingHttpPort),
            (Some(_), None) => Err(ConfigError::MissingFtpControlPort),
            (Some(h), Some(f)) => Ok(Config { http_port: h as u16, ftp_control_port: f as u16 }),
        }
    }
}

} // verus!
