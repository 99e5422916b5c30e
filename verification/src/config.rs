//! Application configuration and the builder that assembles the shared
//! state. Reading the environment, creating directories and serving the
//! network belong to the embedding layer; what is validated and carried
//! here is plain data.
use vstd::prelude::*;

use crate::counter::InFlightCounter;
use crate::models::AppState;
use crate::service::VideoSnapshotService;

verus! {

/// The service configuration: listen address, clip directory, frontend
/// directory.
#[derive(Debug, Clone)]
pub struct AppConfig {
    pub host: [u8; 4],
    pub port: u16,
    pub clips_dir: String,
    pub frontend_dir: String,
}

/// The out-of-the-box configuration.
pub open spec fn spec_is_default_config(c: AppConfig) -> bool {
    &&& c.host@ == seq![0u8, 0u8, 0u8, 0u8]
    &&& c.port == 3000
    &&& c.clips_dir@ == "clips"@
    &&& c.frontend_dir@ == "frontend/vue-project/dist"@
}

/// A configuration is valid when the port is non-zero and both
/// directories are named.
pub open spec fn spec_config_valid(c: AppConfig) -> bool {
    &&& c.port != 0
    &&& c.clips_dir@.len() > 0
    &&& c.frontend_dir@.len() > 0
}

impl Default for AppConfig {
    /// The default listen address, port and directories.
    fn default() -> (r: AppConfig)
        ensures
            spec_is_default_config(r),
    {
        let r = AppConfig {
            host: [0, 0, 0, 0],
            port: 3000,
            clips_dir: String::from_str("clips"),
            frontend_dir: String::from_str("frontend/vue-project/dist"),
        };
        proof {
            assert(r.host@ =~= seq![0u8, 0u8, 0u8, 0u8]);
        }
        r
    }
}

impl AppConfig {
    /// A fresh default configuration.
    pub fn new() -> (r: AppConfig)
        ensures
            spec_is_default_config(r),
    {
        AppConfig::default()
    }

    /// Replaces the listen address.
    pub fn with_host(self, host: [u8; 4]) -> (r: AppConfig)
        ensures
            r.host@ == host@,
            r.port == self.port,
            r.clips_dir@ == self.clips_dir@,
            r.frontend_dir@ == self.frontend_dir@,
    {
        AppConfig {
            host,
            port: self.port,
            clips_dir: self.clips_dir,
            frontend_dir: self.frontend_dir,
        }
    }

    /// Replaces the listen port.
    pub fn with_port(self, port: u16) -> (r: AppConfig)
        ensures
            r.host@ == self.host@,
            r.port == port,
            r.clips_dir@ == self.clips_dir@,
            r.frontend_dir@ == self.frontend_dir@,
    {
        AppConfig {
            host: self.host,
            port,
            clips_dir: self.clips_dir,
            frontend_dir: self.frontend_dir,
        }
    }

    /// Replaces the clip storage directory.
    pub fn with_clips_dir(self, dir: &str) -> (r: AppConfig)
        ensures
            r.host@ == self.host@,
            r.port == self.port,
            r.clips_dir@ == dir@,
            r.frontend_dir@ == self.frontend_dir@,
    {
        AppConfig {
            host: self.host,
            port: self.port,
            clips_dir: String::from_str(dir),
            frontend_dir: self.frontend_dir,
        }
    }

    /// Replaces the frontend static file directory.
    pub fn with_frontend_dir(self, dir: &str) -> (r: AppConfig)
        ensures
            r.host@ == self.host@,
            r.port == self.port,
            r.clips_dir@ == self.clips_dir@,
            r.frontend_dir@ == dir@,
    {
        AppConfig {
            host: self.host,
            port: self.port,
            clips_dir: self.clips_dir,
            frontend_dir: String::from_str(dir),
        }
    }

    /// Checks the configuration, naming the first broken rule: the port
    /// must be non-zero and the two directories must be named.
    pub fn validate(&self) -> (r: Result<(), String>)
        ensures
            r is Ok <==> spec_config_valid(*self),
            self.port == 0 ==> (r matches Err(m) && m@ == "server port must not be zero"@),
            self.port != 0 && self.clips_dir@.len() == 0 ==> (r matches Err(m) && m@
                == "clips directory must not be empty"@),
            self.port != 0 && self.clips_dir@.len() > 0 && self.frontend_dir@.len() == 0 ==> (
            r matches Err(m) && m@ == "frontend directory must not be empty"@),
    {
        if self.port == 0 {
            Err(String::from_str("server port must not be zero"))
        } else if self.clips_dir.as_str().is_empty() {
            Err(String::from_str("clips directory must not be empty"))
        } else if self.frontend_dir.as_str().is_empty() {
            Err(String::from_str("frontend directory must not be empty"))
        } else {
            Ok(())
        }
    }
}

/// Assembles the application: a configuration plus the state shared by
/// all requests.
pub struct AppBuilder {
    pub config: AppConfig,
}

impl AppBuilder {
    /// A builder over the default configuration.
    pub fn new() -> (r: AppBuilder)
        ensures
            spec_is_default_config(r.config),
    {
        AppBuilder { config: AppConfig::default() }
    }

    /// Replaces the configuration.
    pub fn with_config(self, config: AppConfig) -> (r: AppBuilder)
        ensures
            r.config == config,
    {
        AppBuilder { config }
    }

    /// Builds the state shared by all requests: a counter reading zero
    /// and the stateless snapshot service.
    pub fn build_app_state(&self) -> (r: AppState)
        ensures
            r.concurrent_requests.spec_count() == 0,
    {
        AppState {
            concurrent_requests: InFlightCounter::new(),
            video_service: VideoSnapshotService::new(),
        }
    }
}

} // verus!
