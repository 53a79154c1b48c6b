//! Application-specific configuration.
//!
//! The engine's knobs live in an `[app_specific]` table of a configuration
//! file.  The shell reads the raw table off disk and hands it over as plain
//! optional values; [`specific_config`] checks it for completeness, applies
//! the defaults, and yields the settled [`AppSpecificConfig`] — or says
//! exactly which part is missing or out of range.

use vstd::prelude::*;

use crate::filter::{joined, paths_view};

verus! {

/// Configuration entries under the `[app_specific]` table.
#[derive(Clone, Copy, Debug, PartialEq, Eq, Structural)]
pub enum SettingField {
    /// Seconds between change-notification polls.
    IntervalSeconds,
    /// The directory tree watched for changes.
    MonitorPath,
    /// The directory the workload is built and run in.
    ProjectPath,
    /// Counted change events that trigger one rebuild.
    ChangesNeeded,
    /// Subdirectories whose changes are ignored.
    IgnoredSubdirs,
    /// The command that runs the workload.
    RunCommand,
    /// Address of the secret server.
    SecretServerAddr,
    /// Where the workload's environment file is written.
    EnvFileLocation,
}

/// Why the configuration could not be settled.
#[derive(Clone, Copy, Debug, PartialEq, Eq, Structural)]
pub enum ConfigError {
    /// The configuration file or its `[app_specific]` table is absent.
    NotFound,
    /// A required entry is absent.
    MissingField(SettingField),
    /// A numeric entry does not fit its type.
    OutOfRange(SettingField),
}

/// The `[app_specific]` table as read off disk: every entry optional,
/// numbers as the wide integers the file format yields.
#[derive(Debug)]
pub struct RawSettings {
    /// Seconds between change-notification polls.
    pub interval_seconds: Option<i64>,
    /// The directory tree watched for changes.
    pub monitor_path: Option<String>,
    /// The directory the workload is built and run in.
    pub project_path: Option<String>,
    /// Counted change events that trigger one rebuild.
    pub changes_needed: Option<i64>,
    /// Subdirectories whose changes are ignored.
    pub ignored_subdirs: Option<Vec<String>>,
    /// The optional dependency-install command.
    pub install_command: Option<String>,
    /// The optional build command.
    pub build_command: Option<String>,
    /// The command that runs the workload.
    pub run_command: Option<String>,
    /// Address of the secret server.
    pub secret_server_addr: Option<String>,
    /// Where the workload's environment file is written.
    pub env_file_location: Option<String>,
}

/// The settled application-specific configuration.
#[derive(Debug)]
pub struct AppSpecificConfig {
    /// Seconds between change-notification polls.
    pub interval_seconds: u32,
    /// The directory tree watched for changes.
    pub monitor_path: String,
    /// The directory the workload is built and run in.
    pub project_path: String,
    /// Counted change events that trigger one rebuild.
    pub changes_needed: i32,
    /// Subdirectories of the monitored tree whose changes are ignored.
    pub ignored_subdirs: Vec<String>,
    /// The optional dependency-install command.
    pub install_command: Option<String>,
    /// The optional build command.
    pub build_command: Option<String>,
    /// The command that runs the workload.
    pub run_command: String,
    /// Address of the secret server.
    pub secret_server_addr: String,
    /// Where the workload's environment file is written.
    pub env_file_location: String,
}

/// The first fault in the raw table, checked in the order the entries are
/// declared; `NotFound` when there is no table at all.
pub open spec fn spec_settings_fault(raw: Option<RawSettings>) -> Option<ConfigError> {
    if raw is None {
        Some(ConfigError::NotFound)
    } else {
        let r = raw->0;
        if r.interval_seconds is None {
            Some(ConfigError::MissingField(SettingField::IntervalSeconds))
        } else if !(0 <= r.interval_seconds->0 <= u32::MAX) {
            Some(ConfigError::OutOfRange(SettingField::IntervalSeconds))
        } else if r.monitor_path is None {
            Some(ConfigError::MissingField(SettingField::MonitorPath))
        } else if r.project_path is None {
            Some(ConfigError::MissingField(SettingField::ProjectPath))
        } else if r.changes_needed is None {
            Some(ConfigError::MissingField(SettingField::ChangesNeeded))
        } else if !(i32::MIN <= r.changes_needed->0 <= i32::MAX) {
            Some(ConfigError::OutOfRange(SettingField::ChangesNeeded))
        } else if r.ignored_subdirs is None {
            Some(ConfigError::MissingField(SettingField::IgnoredSubdirs))
        } else if r.run_command is None {
            Some(ConfigError::MissingField(SettingField::RunCommand))
        } else if r.secret_server_addr is None {
            Some(ConfigError::MissingField(SettingField::SecretServerAddr))
        } else if r.env_file_location is None {
            Some(ConfigError::MissingField(SettingField::EnvFileLocation))
        } else {
            None
        }
    }
}

/// Settles the raw `[app_specific]` table: every required entry must be
/// present and in range, the two optional commands default to absent.
/// Returns the exact first fault otherwise.
pub fn specific_config(raw: Option<RawSettings>) -> (r: Result<AppSpecificConfig, ConfigError>)
    ensures
        r is Ok <==> spec_settings_fault(raw) is None,
        r matches Err(e) ==> Some(e) == spec_settings_fault(raw),
        r matches Ok(c) ==> {
            &&& raw is Some
            &&& c.interval_seconds == raw->0.interval_seconds->0 as u32
            &&& c.monitor_path == raw->0.monitor_path->0
            &&& c.project_path == raw->0.project_path->0
            &&& c.changes_needed == raw->0.changes_needed->0 as i32
            &&& c.ignored_subdirs == raw->0.ignored_subdirs->0
            &&& c.install_command == raw->0.install_command
            &&& c.build_command == raw->0.build_command
            &&& c.run_command == raw->0.run_command->0
            &&& c.secret_server_addr == raw->0.secret_server_addr->0
            &&& c.env_file_location == raw->0.env_file_location->0
        },
{
    let raw = match raw {
        Some(r) => r,
        None => {
            return Err(ConfigError::NotFound);
        },
    };
    let interval_wide = match raw.interval_seconds {
        Some(v) => v,
        None => {
            return Err(ConfigError::MissingField(SettingField::IntervalSeconds));
        },
    };
    if interval_wide < 0 || interval_wide > u32::MAX as i64 {
        return Err(ConfigError::OutOfRange(SettingField::IntervalSeconds));
    }
    let monitor_path = match raw.monitor_path {
        Some(v) => v,
        None => {
            return Err(ConfigError::MissingField(SettingField::MonitorPath));
        },
    };
    let project_path = match raw.project_path {
        Some(v) => v,
        None => {
            return Err(ConfigError::MissingField(SettingField::ProjectPath));
        },
    };
    let changes_wide = match raw.changes_needed {
        Some(v) => v,
        None => {
            return Err(ConfigError::MissingField(SettingField::ChangesNeeded));
        },
    };
    if changes_wide < i32::MIN as i64 || changes_wide > i32::MAX as i64 {
        return Err(ConfigError::OutOfRange(SettingField::ChangesNeeded));
    }
    let ignored_subdirs = match raw.ignored_subdirs {
        Some(v) => v,
        None => {
            return Err(ConfigError::MissingField(SettingField::IgnoredSubdirs));
        },
    };
    let run_command = match raw.run_command {
        Some(v) => v,
        None => {
            return Err(ConfigError::MissingField(SettingField::RunCommand));
        },
    };
    let secret_server_addr = match raw.secret_server_addr {
        Some(v) => v,
        None => {
            return Err(ConfigError::MissingField(SettingField::SecretServerAddr));
        },
    };
    let env_file_location = match raw.env_file_location {
        Some(v) => v,
        None => {
            return Err(ConfigError::MissingField(SettingField::EnvFileLocation));
        },
    };
    Ok(
        AppSpecificConfig {
            interval_seconds: interval_wide as u32,
            monitor_path,
            project_path,
            changes_needed: changes_wide as i32,
            ignored_subdirs,
            install_command: raw.install_command,
            build_command: raw.build_command,
            run_command,
            secret_server_addr,
            env_file_location,
        },
    )
}

impl AppSpecificConfig {
    /// The configured ignored subdirectories as byte paths under the
    /// canonical monitored root, which the shell resolves and hands in.
    pub fn ignored_paths(&self, canonical_base: &Vec<u8>) -> (r: Vec<Vec<u8>>)
        ensures
            paths_view(r) == Seq::new(
                self.ignored_subdirs@.len(),
                |i: int|
                    joined(
                        canonical_base@,
                        vstd::utf8::encode_utf8(self.ignored_subdirs@[i]@),
                    ),
            ),
    {
        let mut r: Vec<Vec<u8>> = Vec::new();
        let mut i: usize = 0;
        while i < self.ignored_subdirs.len()
            invariant
                0 <= i <= self.ignored_subdirs@.len(),
                r@.len() == i,
                forall|k: int|
                    0 <= k < i ==> r@[k]@ == joined(
                        canonical_base@,
                        vstd::utf8::encode_utf8(self.ignored_subdirs@[k]@),
                    ),
            decreases self.ignored_subdirs@.len() - i,
        {
            let sub_bytes = self.ignored_subdirs[i].as_str().as_bytes_vec();
            proof {
                assert(sub_bytes@ == vstd::utf8::encode_utf8(self.ignored_subdirs@[i as int]@));
            }
            let joined_path = crate::filter::join_path(canonical_base, &sub_bytes);
            r.push(joined_path);
            i = i + 1;
        }
        proof {
            assert(paths_view(r) =~= Seq::new(
                self.ignored_subdirs@.len(),
                |i: int|
                    joined(
                        canonical_base@,
                        vstd::utf8::encode_utf8(self.ignored_subdirs@[i]@),
                    ),
            ));
        }
        r
    }
}

} // verus!
