//! Configuration surface: application, compiler, runtime, ledger and
//! development settings, with their defaults and the construction-time
//! validity check.

use vstd::prelude::*;

verus! {

/// Application configuration
#[derive(Debug, Clone, PartialEq)]
pub struct AppConfig {
    /// Application name
    pub name: String,
    /// Application version
    pub version: String,
    /// Data directory
    pub data_dir: String,
    /// Log level
    pub log_level: String,
    /// Enable debug mode
    pub debug: bool,
}

/// Compiler configuration
#[derive(Debug, Clone, PartialEq)]
pub struct CompilerConfig {
    /// Optimization level (0-3)
    pub optimization_level: u8,
    /// Enable debug information
    pub debug_info: bool,
    /// Gas estimation enabled
    pub gas_estimation: bool,
    /// Maximum gas limit
    pub max_gas_limit: u64,
    /// WASM target
    pub wasm_target: String,
    /// Custom compiler flags
    pub flags: Vec<String>,
}

/// Runtime configuration
#[derive(Debug, Clone, PartialEq)]
pub struct RuntimeConfig {
    /// WASM runtime type
    pub runtime_type: String,
    /// Memory limit (in pages)
    pub memory_limit: u32,
    /// Stack size limit
    pub stack_size_limit: u32,
    /// Gas metering enabled
    pub gas_metering: bool,
    /// Sandbox mode enabled
    pub sandbox_mode: bool,
    /// Timeout (in seconds)
    pub timeout: u64,
}

/// Ledger integration configuration
#[derive(Debug, Clone, PartialEq)]
pub struct BaalsConfig {
    /// Node URL
    pub node_url: String,
    /// Connection timeout
    pub connection_timeout: u64,
    /// Retry attempts
    pub retry_attempts: u32,
    /// Enable local node
    pub enable_local_node: bool,
    /// Local node port
    pub local_node_port: u16,
    /// Authentication token
    pub auth_token: Option<String>,
}

/// Development configuration
#[derive(Debug, Clone, PartialEq)]
pub struct DevelopmentConfig {
    /// Enable hot reload
    pub hot_reload: bool,
    /// Enable verbose logging
    pub verbose_logging: bool,
    /// Enable performance profiling
    pub profiling: bool,
    /// Test mode enabled
    pub test_mode: bool,
    /// Mock ledger enabled
    pub mock_baals: bool,
}

/// Main configuration structure
#[derive(Debug, Clone, PartialEq)]
pub struct Config {
    /// Application settings
    pub app: AppConfig,
    /// Compiler settings
    pub compiler: CompilerConfig,
    /// Runtime settings
    pub runtime: RuntimeConfig,
    /// Ledger integration settings
    pub baals: BaalsConfig,
    /// Development settings
    pub development: DevelopmentConfig,
}

impl Default for AppConfig {
    fn default() -> (r: AppConfig)
        ensures
            r.name@ == "Canvas Contracts"@,
            r.version@.len() > 0,
            r.log_level@ == "info"@,
            !r.debug,
    {
        proof {
            reveal_strlit("Canvas Contracts");
            reveal_strlit("0.1.0");
        }
        AppConfig {
            name: "Canvas Contracts".to_owned(),
            version: "0.1.0".to_owned(),
            data_dir: "./data".to_owned(),
            log_level: "info".to_owned(),
            debug: false,
        }
    }
}

impl Default for CompilerConfig {
    fn default() -> (r: CompilerConfig)
        ensures
            r.optimization_level == 2,
            !r.debug_info,
            r.gas_estimation,
            r.max_gas_limit == 10000000,
            r.wasm_target@ == "wasm32-unknown-unknown"@,
            r.flags@.len() == 0,
    {
        CompilerConfig {
            optimization_level: 2,
            debug_info: false,
            gas_estimation: true,
            max_gas_limit: 10000000,
            wasm_target: "wasm32-unknown-unknown".to_owned(),
            flags: Vec::new(),
        }
    }
}

impl Default for RuntimeConfig {
    fn default() -> (r: RuntimeConfig)
        ensures
            r.runtime_type@ == "wasmtime"@,
            r.memory_limit == 1000,
            r.stack_size_limit == 1048576,
            r.gas_metering,
            r.sandbox_mode,
            r.timeout == 30,
    {
        RuntimeConfig {
            runtime_type: "wasmtime".to_owned(),
            memory_limit: 1000,
            stack_size_limit: 1048576,
            gas_metering: true,
            sandbox_mode: true,
            timeout: 30,
        }
    }
}

impl Default for BaalsConfig {
    fn default() -> (r: BaalsConfig)
        ensures
            r.node_url@ == "http://localhost:8080"@,
            r.connection_timeout == 30,
            r.retry_attempts == 3,
            r.enable_local_node,
            r.local_node_port == 8080,
            r.auth_token is None,
    {
        BaalsConfig {
            node_url: "http://localhost:8080".to_owned(),
            connection_timeout: 30,
            retry_attempts: 3,
            enable_local_node: true,
            local_node_port: 8080,
            auth_token: None,
        }
    }
}

impl Default for DevelopmentConfig {
    fn default() -> (r: DevelopmentConfig)
        ensures
            !r.hot_reload,
            !r.verbose_logging,
            !r.profiling,
            !r.test_mode,
            !r.mock_baals,
    {
        DevelopmentConfig {
            hot_reload: false,
            verbose_logging: false,
            profiling: false,
            test_mode: false,
            mock_baals: false,
        }
    }
}

impl Default for Config {
    fn default() -> (r: Config)
        ensures
            r.app.name@ == "Canvas Contracts"@,
            r.compiler.optimization_level == 2,
            r.runtime.gas_metering,
            config_valid(r),
    {
        let r = Config {
            app: AppConfig::default(),
            compiler: CompilerConfig::default(),
            runtime: RuntimeConfig::default(),
            baals: BaalsConfig::default(),
            development: DevelopmentConfig::default(),
        };
        proof {
            reveal_strlit("Canvas Contracts");
        }
        r
    }
}

/// Everything the construction-time check demands of a configuration.
pub open spec fn config_valid(c: Config) -> bool {
    &&& c.app.name@.len() > 0
    &&& c.app.version@.len() > 0
    &&& c.compiler.optimization_level <= 3
    &&& c.compiler.max_gas_limit > 0
    &&& c.runtime.memory_limit > 0
    &&& c.runtime.timeout > 0
    &&& c.baals.connection_timeout > 0
    &&& c.baals.retry_attempts > 0
}

impl Config {
    /// Check the configuration; rejected values name the first rule they
    /// break. Succeeds exactly on valid configurations.
    pub fn validate(&self) -> (r: Result<(), crate::error::CanvasError>)
        ensures
            r is Ok <==> config_valid(*self),
    {
        if self.app.name.as_str().is_empty() {
            return Err(
                crate::error::CanvasError::Config("App name cannot be empty".to_owned()),
            );
        }
        if self.app.version.as_str().is_empty() {
            return Err(
                crate::error::CanvasError::Config("App version cannot be empty".to_owned()),
            );
        }
        if self.compiler.optimization_level > 3 {
            return Err(
                crate::error::CanvasError::Config("Optimization level must be 0-3".to_owned()),
            );
        }
        if self.compiler.max_gas_limit == 0 {
            return Err(
                crate::error::CanvasError::Config(
                    "Max gas limit must be greater than 0".to_owned(),
                ),
            );
        }
        if self.runtime.memory_limit == 0 {
            return Err(
                crate::error::CanvasError::Config(
                    "Memory limit must be greater than 0".to_owned(),
                ),
            );
        }
        if self.runtime.timeout == 0 {
            return Err(
                crate::error::CanvasError::Config("Timeout must be greater than 0".to_owned()),
            );
        }
        if self.baals.connection_timeout == 0 {
            return Err(
                crate::error::CanvasError::Config(
                    "Connection timeout must be greater than 0".to_owned(),
                ),
            );
        }
        if self.baals.retry_attempts == 0 {
            return Err(
                crate::error::CanvasError::Config(
                    "Retry attempts must be greater than 0".to_owned(),
                ),
            );
        }
        Ok(())
    }
}

/// Configuration manager: holds a validated configuration and remembers
/// where it came from. Reading and writing the file is the caller's
/// business; this type owns the checked value.
pub struct ConfigManager {
    pub config: Config,
    pub config_path: String,
}

impl ConfigManager {
    /// Accept a configuration for the given path; rejected configurations
    /// never produce a manager.
    pub fn new(config: Config, config_path: String) -> (r: Result<
        ConfigManager,
        crate::error::CanvasError,
    >)
        ensures
            r is Ok <==> config_valid(config),
            r matches Ok(m) ==> m.config == config && m.config_path@ == config_path@,
    {
        match config.validate() {
            Ok(()) => Ok(ConfigManager { config, config_path }),
            Err(e) => Err(e),
        }
    }

    /// Get the current configuration
    pub fn config(&self) -> (r: &Config)
        ensures
            r == &self.config,
    {
        &self.config
    }

    /// Get mutable reference to configuration
    pub fn config_mut(&mut self) -> (r: &mut Config)
        ensures
            *r == old(self).config,
            final(self).config == *final(r),
            final(self).config_path == old(self).config_path,
    {
        &mut self.config
    }

    /// The path the configuration belongs to.
    pub fn path(&self) -> (r: &String)
        ensures
            r == &self.config_path,
    {
        &self.config_path
    }
}

} // verus!
