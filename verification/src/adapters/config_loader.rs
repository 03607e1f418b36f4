//! Finding and finishing the YAML configuration: where the configuration
//! file is, reading it, and the checks made once it is parsed. Parsing the
//! YAML text is the application's.

use vstd::prelude::*;

use crate::domain::config::file_config::{file_config_check, FileConfig};
use crate::domain::config::{
    config_error_text, AppConfig, ConfigValidationError, COMMAND_TIMEOUT_DEFAULT, LOG_MAX_FILES_DEFAULT, LOG_MAX_SIZE_DEFAULT, STOP_ON_ERROR_DEFAULT, USE_COLORS_DEFAULT,
    USE_UNICODE_DEFAULT, VERBOSE_DEFAULT,
};
use crate::filesystem::{answered_config_dir, answered_exists, answered_expand, answered_read, fs_error_text, FileSystem, FileSystemError};
use crate::package_repo::{existing_of, join_path, join_paths};
use crate::ports::config_loader::ConfigLoadError;
use crate::text::concat2;

verus! {

/// The configuration files a configuration directory may hold: `config.yaml`, then `config.yml`.
pub open spec fn config_candidates(dir: Seq<char>) -> Seq<Seq<char>> {
    seq![join_path(dir, "config.yaml"@), join_path(dir, "config.yml"@)]
}

/// `found` is what a search for the configuration files gives, by the file
/// system's answers: nothing when it has no configuration directory;
/// otherwise the candidates there that it says exist, in order.
pub open spec fn config_search<F: FileSystem>(fs: &F, found: Seq<Seq<char>>) -> bool {
    ||| exists|e: FileSystemError| #[trigger] answered_config_dir(fs, Err(e)) && found.len() == 0
    ||| exists|d: String, a: bool, b: bool|
        #![trigger answered_config_dir(fs, Ok(d)), answered_exists(fs, config_candidates(d@)[0], a), answered_exists(fs, config_candidates(d@)[1], b)]
        answered_config_dir(fs, Ok(d)) && answered_exists(fs, config_candidates(d@)[0], a)
            && answered_exists(fs, config_candidates(d@)[1], b) && found == existing_of(config_candidates(d@), a, b)
}

/// `r` is what reading the file at `path` gives, by the file system's
/// answer: its text, or a read error with the file system error's message.
pub open spec fn read_outcome<F: FileSystem>(fs: &F, path: Seq<char>, r: Result<String, ConfigLoadError>) -> bool {
    exists|a: Result<String, FileSystemError>| #[trigger] answered_read(fs, path, a) && match a {
        Ok(t) => r matches Ok(s) && s@ == t@,
        Err(e) => r matches Err(ConfigLoadError::ReadError(m)) && m@ == fs_error_text(e),
    }
}

/// The configuration files that exist in the file system's configuration
/// directory: `config.yaml`, then `config.yml`; none without a directory.
pub fn config_paths<F: FileSystem>(fs: &F) -> (r: Vec<String>)
    ensures
        config_search(fs, r@.map_values(|s: String| s@)),
{
    let mut paths: Vec<String> = Vec::new();
    let answer = fs.config_dir();
    assert(answered_config_dir(fs, answer));
    match answer {
        Ok(config_dir) => {
            let ghost c = config_candidates(config_dir@);
            let yaml = join_paths(config_dir.as_str(), "config.yaml");
            let yml = join_paths(config_dir.as_str(), "config.yml");
            let a = fs.path_exists(yaml.as_str());
            assert(answered_exists(fs, c[0], a));
            let b = fs.path_exists(yml.as_str());
            assert(answered_exists(fs, c[1], b));
            if a {
                paths.push(yaml);
            }
            if b {
                paths.push(yml);
            }
            assert(paths@.map_values(|s: String| s@) =~= existing_of(c, a, b));
        },
        Err(_) => {
            assert(paths@.map_values(|s: String| s@) =~= Seq::<Seq<char>>::empty());
        },
    }
    paths
}

/// Loads the application configuration from a YAML configuration file.
pub struct Yaml<'a, F: FileSystem> {
    fs: &'a F,
}

impl<'a, F: FileSystem> Yaml<'a, F> {
    /// The file system the loader reads.
    pub closed spec fn file_system(&self) -> &'a F {
        self.fs
    }

    /// A loader over the file system.
    pub fn new(fs: &'a F) -> (r: Self)
        ensures
            r.file_system() == fs,
    {
        Yaml { fs }
    }

    /// The configuration files that exist, in order of preference.
    pub fn find_config_paths(&self) -> (r: Vec<String>)
        ensures
            config_search(self.file_system(), r@.map_values(|s: String| s@)),
    {
        config_paths(self.fs)
    }

    /// The configuration file to load: the first that exists; none is an error.
    pub fn config_file(&self) -> (r: Result<String, ConfigLoadError>)
        ensures
            r is Err ==> r matches Err(ConfigLoadError::NotFound),
            exists|w: Seq<Seq<char>>| #[trigger] config_search(self.file_system(), w)
                && (w.len() == 0 ==> r is Err)
                && (w.len() > 0 ==> (r matches Ok(p) && p@ == w[0])),
    {
        let paths = self.find_config_paths();
        let ghost w = paths@.map_values(|s: String| s@);
        if paths.len() == 0 {
            return Err(ConfigLoadError::NotFound);
        }
        assert(w[0] == paths@[0]@);
        Ok(paths[0].clone())
    }

    /// The text of the configuration file.
    pub fn read(&self, path: &str) -> (r: Result<String, ConfigLoadError>)
        ensures
            read_outcome(self.file_system(), path@, r),
    {
        let answer = self.fs.read_file(path);
        assert(answered_read(self.fs, path@, answer));
        match answer {
            Ok(t) => Ok(t),
            Err(e) => Err(ConfigLoadError::ReadError(e.to_string())),
        }
    }

    /// The loaded configuration finished: its package directory expanded
    /// (when the file system can), and refused when logging is enabled
    /// without a directory.
    pub fn finish(&self, config: AppConfig) -> (r: Result<AppConfig, ConfigLoadError>)
        ensures
            config.logging.enabled && config.logging.directory is None ==> (r matches Err(ConfigLoadError::ValidationError(m))
                && m@ == "Logging is enabled, but logging directory not set"@),
            !(config.logging.enabled && config.logging.directory is None) ==> (r matches Ok(c)
                && c == (AppConfig { package_directory: c.package_directory, ..config })
                && exists|a: Result<String, FileSystemError>| #[trigger] answered_expand(self.file_system(), config.package_directory@, a)
                    && c.package_directory == match a {
                        Ok(x) => x,
                        Err(_) => config.package_directory,
                    }),
    {
        let mut c = config;
        let answer = self.fs.expand_path(c.package_directory.as_str());
        assert(self.file_system() == self.fs);
        assert(answered_expand(self.file_system(), config.package_directory@, answer));
        match answer {
            Ok(expanded) => {
                c.package_directory = expanded;
            },
            Err(_) => {},
        }
        if c.logging.enabled && c.logging.directory.is_none() {
            return Err(ConfigLoadError::ValidationError(String::from_str("Logging is enabled, but logging directory not set")));
        }
        Ok(c)
    }

    /// The configuration used when none is loaded: no environment, no package directory.
    pub fn default_config(&self) -> (r: AppConfig)
        ensures
            r.environment@.len() == 0,
            r.package_directory@.len() == 0,
            r.verbose == VERBOSE_DEFAULT,
            r.use_colors == USE_COLORS_DEFAULT,
            r.use_unicode == USE_UNICODE_DEFAULT,
            r.command_timeout == COMMAND_TIMEOUT_DEFAULT,
            r.max_parallel_installations >= 1,
            r.stop_on_error == STOP_ON_ERROR_DEFAULT,
            !r.logging.enabled && r.logging.directory is None,
            r.logging.max_files == LOG_MAX_FILES_DEFAULT && r.logging.max_size == LOG_MAX_SIZE_DEFAULT,
    {
        AppConfig::new(String::new(), String::new())
    }
}

/// Loads the configuration file's settings from a YAML configuration file.
pub struct YamlConfigLoader<'a, F: FileSystem> {
    fs: &'a F,
}

impl<'a, F: FileSystem> YamlConfigLoader<'a, F> {
    /// The file system the loader reads.
    pub closed spec fn file_system(&self) -> &'a F {
        self.fs
    }

    /// A loader over the file system.
    pub fn new(fs: &'a F) -> (r: Self)
        ensures
            r.file_system() == fs,
    {
        YamlConfigLoader { fs }
    }

    /// The configuration files that exist, in order of preference.
    pub fn find_config_paths(&self) -> (r: Vec<String>)
        ensures
            config_search(self.file_system(), r@.map_values(|s: String| s@)),
    {
        config_paths(self.fs)
    }

    /// The text of the configuration file at the path; a missing file, or
    /// one that cannot be read, is a read error.
    pub fn read_config_file(&self, path: &str) -> (r: Result<String, ConfigLoadError>)
        ensures
            exists|x: bool| #[trigger] answered_exists(self.file_system(), path@, x) && if x {
                read_outcome(self.file_system(), path@, r)
            } else {
                r matches Err(ConfigLoadError::ReadError(m)) && m@ == "Can't read config file: "@ + path@
            },
    {
        let exists = self.fs.path_exists(path);
        assert(self.file_system() == self.fs);
        assert(answered_exists(self.file_system(), path@, exists));
        if !exists {
            return Err(ConfigLoadError::ReadError(concat2("Can't read config file: ", path)));
        }
        let answer = self.fs.read_file(path);
        assert(answered_read(self.file_system(), path@, answer));
        let r = match answer {
            Ok(t) => Ok(t),
            Err(e) => Err(ConfigLoadError::ReadError(e.to_string())),
        };
        assert(read_outcome(self.file_system(), path@, r));
        r
    }

    /// The parsed configuration, checked: a parse error, or a configuration
    /// that fails the full check, is refused.
    pub fn checked(&self, parsed: Result<FileConfig, String>) -> (r: Result<FileConfig, ConfigLoadError>)
        ensures
            parsed matches Err(m) ==> (r matches Err(ConfigLoadError::ParseError(n)) && n@ == m@),
            r matches Ok(c) ==> parsed == Ok::<FileConfig, String>(c),
            parsed matches Ok(c) ==> exists|v: Result<(), ConfigValidationError>| #[trigger] file_config_check(c, v) && match v {
                Ok(()) => r == Ok::<FileConfig, ConfigLoadError>(c),
                Err(e) => r matches Err(ConfigLoadError::ValidationError(m)) && m@ == config_error_text(e),
            },
            parsed matches Ok(c) && c.environment@.len() == 0 ==> (r matches Err(ConfigLoadError::ValidationError(m))
                && m@ == "Empty field: "@ + "environment"@),
    {
        match parsed {
            Err(m) => Err(ConfigLoadError::ParseError(m)),
            Ok(config) => match config.validate() {
                Ok(()) => Ok(config),
                Err(e) => Err(ConfigLoadError::ValidationError(e.to_string())),
            },
        }
    }

    /// The configuration used when none is loaded: no environment, no package directory.
    pub fn default_config(&self) -> (r: FileConfig)
        ensures
            r.environment@.len() == 0,
            r.package_directory@.len() == 0,
            r.command_timeout is None,
            r.stop_on_error is None,
            r.max_parallel_installations is None,
            r.logging is None,
    {
        FileConfig::new(String::new(), String::new())
    }
}

} // verus!
