use vstd::prelude::*;
use crate::error::FaError;
use crate::text::{joined, owned};
use path_absolutize::Absolutize;

verus! {

/// Where the stores live and which one is the default.
#[derive(Debug, Clone)]
pub struct InnerConfigStore {
    /// The directory holding every store file, as an absolute path.
    pub base_path: String,
    pub default_store: String,
}

/// The encryption identity the provider is asked to use.
#[derive(Debug, Clone)]
pub struct InnerConfigSecurity {
    pub gpg_fingerprint: String,
}

/// The persisted part of the configuration.
#[derive(Debug, Clone)]
pub struct InnerConfig {
    pub store: InnerConfigStore,
    pub security: InnerConfigSecurity,
}

/// The configuration, with the file it is kept in.
#[derive(Debug, Clone)]
pub struct Config {
    pub config_file_path: String,
    pub _inner: InnerConfig,
}

/// The mathematical value of a [`Config`].
pub struct ConfigView {
    pub config_file_path: Seq<char>,
    pub base_path: Seq<char>,
    pub default_store: Seq<char>,
    pub fingerprint: Seq<char>,
}

impl View for Config {
    type V = ConfigView;

    open spec fn view(&self) -> ConfigView {
        ConfigView {
            config_file_path: self.config_file_path@,
            base_path: self._inner.store.base_path@,
            default_store: self._inner.store.default_store@,
            fingerprint: self._inner.security.gpg_fingerprint@,
        }
    }
}

/// Whether `p` is an absolute path.
pub open spec fn is_absolute(p: Seq<char>) -> bool {
    p.len() > 0 && p[0] == '/'
}

/// The configuration `c` with `name` as its default store.
pub open spec fn with_default(c: ConfigView, name: Seq<char>) -> ConfigView {
    ConfigView { default_store: name, ..c }
}

/// Relies on path_absolutize's `Absolutize::absolutize`, documented to give
/// an absolute path, resolved against the current directory; the result is
/// handed back as text where it is valid UTF-8.
#[verifier::external_body]
fn absolutize(path: &str) -> (r: Result<Option<String>, String>)
    ensures
        r matches Ok(Some(a)) ==> is_absolute(a@),
{
    match std::path::Path::new(path).absolutize() {
        Ok(p) => Ok(p.to_str().map(|s| s.to_string())),
        Err(e) => Err(e.to_string()),
    }
}

/// The directory of the configuration under the home directory `home`, or
/// the failure to read the home variable.
pub fn get_base_directory(home: Result<String, String>) -> (r: Result<String, FaError>)
    ensures
        home matches Ok(h) ==> (r matches Ok(d) && d@ == h@ + "/.config/fa"@),
        home matches Err(m) ==> (r matches Err(FaError::EnvironmentVariableError { variable, message })
            && variable@ == "HOME"@ && message@ == m@),
{
    match home {
        Ok(h) => Ok(joined(h.as_str(), "/.config/fa")),
        Err(m) => Err(FaError::EnvironmentVariableError { variable: owned("HOME"), message: m }),
    }
}

/// The configuration file inside the configuration directory `dir`.
pub fn config_file_in(dir: &String) -> (r: String)
    ensures
        r@ == dir@ + "/config.toml"@,
{
    joined(dir.as_str(), "/config.toml")
}

impl Config {
    /// A configuration from a store directory that has been made absolute,
    /// as `absolutized` tells: the text of the path, `None` where the path
    /// is no valid UTF-8, or the failure to make it absolute.
    pub fn from_absolutized(
        absolutized: Result<Option<String>, String>,
        store_name: String,
        security_gpg_fingerprint: String,
        config_file_path: String,
    ) -> (r: Result<Config, FaError>)
        ensures
            absolutized matches Ok(Some(a)) ==> (r matches Ok(c) && c@ == (ConfigView {
                config_file_path: config_file_path@,
                base_path: a@,
                default_store: store_name@,
                fingerprint: security_gpg_fingerprint@,
            })),
            absolutized matches Ok(None) ==> (r matches Err(FaError::UnexpectedNone)),
            absolutized matches Err(m) ==> (r matches Err(FaError::IOError { message }) && message@ == m@),
    {
        match absolutized {
            Ok(Some(base_path)) => Ok(Config {
                config_file_path,
                _inner: InnerConfig {
                    store: InnerConfigStore { base_path, default_store: store_name },
                    security: InnerConfigSecurity { gpg_fingerprint: security_gpg_fingerprint },
                },
            }),
            Ok(None) => Err(FaError::UnexpectedNone),
            Err(message) => Err(FaError::IOError { message }),
        }
    }

    /// A configuration kept in `config_file_path`, with `store_name` as
    /// default store, `security_gpg_fingerprint` as identity, and
    /// `store_base_path` made absolute as its store directory.
    pub fn new(
        store_base_path: String,
        store_name: String,
        security_gpg_fingerprint: String,
        config_file_path: String,
    ) -> (r: Result<Config, FaError>)
        ensures
            r matches Ok(c) ==> is_absolute(c@.base_path)
                && c@.default_store == store_name@
                && c@.fingerprint == security_gpg_fingerprint@
                && c@.config_file_path == config_file_path@,
            r matches Err(e) ==> (e is IOError || e is UnexpectedNone),
    {
        let absolutized = absolutize(store_base_path.as_str());
        Config::from_absolutized(absolutized, store_name, security_gpg_fingerprint, config_file_path)
    }

    /// This configuration with `new_name` as its default store; the store
    /// directory, the identity and the file are kept.
    pub fn set_default_store(&self, new_name: String) -> (r: Config)
        ensures
            r@ == with_default(self@, new_name@),
    {
        Config {
            config_file_path: self.config_file_path.clone(),
            _inner: InnerConfig {
                store: InnerConfigStore {
                    base_path: self._inner.store.base_path.clone(),
                    default_store: new_name,
                },
                security: InnerConfigSecurity {
                    gpg_fingerprint: self._inner.security.gpg_fingerprint.clone(),
                },
            },
        }
    }
}

} // verus!
