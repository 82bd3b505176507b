//! Deployment vocabulary: environments, statuses and the per-deployment
//! configuration shapes. Rollouts themselves belong to the surrounding
//! system.

use vstd::prelude::*;

verus! {

/// Deployment status
#[derive(Debug, Clone, PartialEq)]
pub enum DeploymentStatus {
    Pending,
    Deploying,
    Running,
    Scaling,
    Degraded,
    Failed(String),
    Stopped,
}

/// Cloud provider
#[derive(Debug, Clone, Copy, PartialEq, Eq, Structural)]
pub enum CloudProvider {
    Aws,
    Gcp,
    Azure,
    OnPremises,
}

/// The two switchable environments of a blue/green rollout.
#[derive(Debug, Clone, Copy, PartialEq, Eq, Structural)]
pub enum ActiveEnvironment {
    Blue,
    Green,
}

/// Where canary routing sends a request.
#[derive(Debug, Clone, Copy, PartialEq, Eq, Structural)]
pub enum RoutingTarget {
    Stable,
    Canary,
}

/// Alert severity
#[derive(Debug, Clone, Copy, PartialEq, Eq, Structural)]
pub enum AlertSeverity {
    Info,
    Warning,
    Critical,
}

/// Resource requirements
#[derive(Debug, Clone, PartialEq)]
pub struct ResourceRequirements {
    pub cpu_requests: String,
    pub cpu_limits: String,
    pub memory_requests: String,
    pub memory_limits: String,
    pub storage_requests: String,
}

/// Health check configuration
#[derive(Debug, Clone, PartialEq)]
pub struct HealthCheckConfig {
    pub initial_delay_seconds: u32,
    pub period_seconds: u32,
    pub timeout_seconds: u32,
    pub failure_threshold: u32,
    pub success_threshold: u32,
    pub health_check_path: String,
}

/// Notification configuration
#[derive(Debug, Clone, PartialEq)]
pub struct NotificationConfig {
    pub email: Option<String>,
    pub webhook: Option<String>,
    pub chat: Option<String>,
}

/// Rate limiting configuration
#[derive(Debug, Clone, PartialEq)]
pub struct RateLimitingConfig {
    pub requests_per_second: u32,
    pub burst_size: u32,
    pub window_size: u64,
}

/// Security configuration
#[derive(Debug, Clone, PartialEq)]
pub struct SecurityConfig {
    pub enable_tls: bool,
    pub certificate_path: Option<String>,
    pub key_path: Option<String>,
    pub allowed_origins: Vec<String>,
    pub rate_limiting: RateLimitingConfig,
}

} // verus!
