//! Exporter configuration: where to listen, which path to serve and how
//! often to refresh.

use hyper::http::uri::{InvalidUri, PathAndQuery};
use vstd::prelude::*;
use vstd::string::*;

verus! {

/// An IP address, by its parts.
#[derive(Clone, Copy, Debug, PartialEq, Eq)]
pub enum IpAddress {
    V4(u8, u8, u8, u8),
    V6(u16, u16, u16, u16, u16, u16, u16, u16),
}

/// The socket address on which the metrics endpoint listens.
#[derive(Clone, Copy, Debug, PartialEq, Eq)]
pub struct ListenAddress {
    pub ip: IpAddress,
    pub port: u16,
}

/// Why a configuration value was refused.
#[derive(Clone, Copy, Debug, PartialEq, Eq)]
pub enum ConfigError {
    /// The metrics path is no valid path-and-query.
    InvalidMetricsPath,
}

/// `http::uri::InvalidUri`: the error of the path-and-query parser. Its
/// inside is not looked at.
#[verifier::external_type_specification]
#[verifier::external_body]
pub struct ExInvalidUri(InvalidUri);

/// The text that `http`'s path-and-query parser keeps of `text`, or `None`
/// where the parser refuses `text`.
pub uninterp spec fn path_and_query_of(text: Seq<char>) -> Option<Seq<char>>;

/// Parses `text` with `PathAndQuery::from_str` of the `http` crate and reads
/// the accepted value back with `PathAndQuery::as_str`. The parser scans the
/// bytes of `text` alone, so the outcome is a function of `text`: the
/// contract names it and claims nothing else of it.
#[verifier::external_body]
fn parse_path_and_query(text: &str) -> (parsed: Result<String, InvalidUri>)
    ensures
        match parsed {
            Ok(kept) => path_and_query_of(text@) == Some(kept@),
            Err(_) => path_and_query_of(text@) is None,
        },
{
    match text.parse::<PathAndQuery>() {
        Ok(path) => Ok(path.as_str().to_owned()),
        Err(e) => Err(e),
    }
}

/// Whether `text` is what the path-and-query parser keeps of some input.
pub open spec fn is_path_and_query(text: Seq<char>) -> bool {
    exists|source: Seq<char>| #[trigger] path_and_query_of(source) == Some(text)
}

/// The path of the metrics endpoint: a text that the path-and-query parser
/// has accepted.
#[derive(Debug, PartialEq, Eq)]
pub struct MetricsPath {
    text: String,
}

impl View for MetricsPath {
    type V = Seq<char>;

    closed spec fn view(&self) -> Seq<char> {
        self.text@
    }
}

impl Clone for MetricsPath {
    fn clone(&self) -> (copy: Self)
        ensures
            copy@ == self@,
    {
        proof {
            use_type_invariant(self);
        }
        MetricsPath { text: self.text.clone() }
    }
}

impl MetricsPath {
    #[verifier::type_invariant]
    spec fn accepted(self) -> bool {
        is_path_and_query(self.text@)
    }

    /// The path as text.
    pub fn as_str(&self) -> (text: &str)
        ensures
            text@ == self@,
            is_path_and_query(text@),
    {
        proof {
            use_type_invariant(self);
        }
        self.text.as_str()
    }
}

/// The view of an optional path.
pub open spec fn path_view(path: Option<MetricsPath>) -> Option<Seq<char>> {
    match path {
        Some(p) => Some(p@),
        None => None,
    }
}

/// `text` with a leading slash: the empty text becomes `/`, a text that
/// starts with `/` stays, any other text gets `/` in front.
pub open spec fn with_leading_slash(text: Seq<char>) -> Seq<char> {
    if text.len() > 0 && text[0] == '/' {
        text
    } else {
        seq!['/'] + text
    }
}

/// Adds the leading slash that a metrics path needs, where it is missing.
pub fn normalize_metrics_path(data: String) -> (normalized: String)
    ensures
        normalized@ == with_leading_slash(data@),
{
    proof {
        reveal_strlit("/");
    }
    if data.as_str().is_empty() {
        assert("/"@ =~= seq!['/'] + data@);
        String::from_str("/")
    } else if data.as_str().get_char(0) == '/' {
        data
    } else {
        assert("/"@ =~= seq!['/']);
        String::from_str("/").concat(data.as_str())
    }
}

/// The text under which a metrics path is stored.
pub fn serialize(data: &MetricsPath) -> (text: String)
    ensures
        text@ == data@,
        is_path_and_query(text@),
{
    proof {
        use_type_invariant(data);
    }
    data.text.clone()
}

/// Reads a metrics path from stored text: the text is given its leading
/// slash and must then pass the path-and-query parser.
pub fn deserialize(data: String) -> (parsed: Result<MetricsPath, ConfigError>)
    ensures
        match parsed {
            Ok(path) => path_and_query_of(with_leading_slash(data@)) == Some(path@),
            Err(e) => e == ConfigError::InvalidMetricsPath && path_and_query_of(
                with_leading_slash(data@),
            ) is None,
        },
{
    let data = normalize_metrics_path(data);
    match parse_path_and_query(data.as_str()) {
        Ok(text) => Ok(MetricsPath { text }),
        Err(_) => Err(ConfigError::InvalidMetricsPath),
    }
}

/// Exporter settings.
#[derive(Debug, PartialEq, Eq)]
pub struct Config {
    /// Listen address of the metrics endpoint.
    pub listen_address: ListenAddress,
    /// Path of the metrics endpoint; without one every path is served.
    pub metrics_path: Option<MetricsPath>,
    /// Seconds between two refreshes; 0 switches the schedule off.
    pub collection_interval_sec: u64,
}

/// A configuration with its texts as sequences.
pub struct ConfigView {
    pub listen_address: ListenAddress,
    pub metrics_path: Option<Seq<char>>,
    pub collection_interval_sec: u64,
}

impl View for Config {
    type V = ConfigView;

    open spec fn view(&self) -> ConfigView {
        ConfigView {
            listen_address: self.listen_address,
            metrics_path: path_view(self.metrics_path),
            collection_interval_sec: self.collection_interval_sec,
        }
    }
}

/// The configuration that `Config::default` gives: all interfaces, port
/// 10000, no path, a refresh every 10 seconds.
pub open spec fn default_config() -> ConfigView {
    ConfigView {
        listen_address: ListenAddress { ip: IpAddress::V4(0, 0, 0, 0), port: 10000 },
        metrics_path: None,
        collection_interval_sec: 10,
    }
}

impl Default for Config {
    fn default() -> (config: Self)
        ensures
            config@ == default_config(),
    {
        Config {
            listen_address: ListenAddress { ip: IpAddress::V4(0, 0, 0, 0), port: 10000 },
            metrics_path: None,
            collection_interval_sec: 10,
        }
    }
}

impl Clone for Config {
    fn clone(&self) -> (copy: Self)
        ensures
            copy@ == self@,
    {
        let metrics_path = match &self.metrics_path {
            Some(path) => Some(path.clone()),
            None => None,
        };
        Config {
            listen_address: self.listen_address,
            metrics_path,
            collection_interval_sec: self.collection_interval_sec,
        }
    }
}

} // verus!
