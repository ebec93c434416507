//! Records exchanged with the registration backend, the agent's saved
//! configuration, and the registration form's state.
use vstd::prelude::*;

verus! {

/// Where the agent's configuration is saved once it is registered.
pub const AGENT_CONFIG_PATH: &'static str = "agent_config.json";

#[derive(Debug, Clone)]
pub struct RegistrationRequest {
    pub name: String,
    pub os: String,
    pub features: Vec<String>,
    pub device_name: String,
    pub organization: String,
    pub environment: String,
    pub location: String,
    pub admin_email: String,
    pub policy_group: String,
    pub license_key: String,
}

/// The backend's answer to a registration.
#[derive(Debug, Clone)]
pub struct RegistrationResponse {
    pub message: String,
    pub agent: AgentData,
}

#[derive(Debug, Clone)]
pub struct AgentData {
    pub id: i32,
    pub name: String,
    pub os: String,
    pub status: String,
    pub features: Vec<String>,
    pub device_name: String,
    pub organization: String,
    pub environment: String,
    pub location: String,
    pub admin_email: String,
    pub policy_group: String,
    pub license_key: String,
    pub last_seen: String,
}

/// What the agent saves after registering.
#[derive(Debug, Clone)]
pub struct AgentConfig {
    pub device_id: String,
    pub api_key: String,
    pub registration_data: RegistrationRequest,
}

/// Progress of a registration started from the form.
#[derive(Debug, Clone)]
pub enum RegistrationStatus {
    /// Registered; holds the device id.
    Success(String),
    /// Failed; holds the error message.
    Error(String),
    InProgress,
}

/// The answer that the form receives from the backend.
#[derive(Debug, Clone)]
pub struct FormRegistrationResponse {
    pub device_id: String,
    pub api_key: String,
    pub status: String,
}

/// The fields of the registration form.
#[derive(Debug, Clone)]
pub struct RegistrationForm {
    pub name: String,
    pub os: String,
    pub features: Vec<String>,
    pub device_name: String,
    pub organization: String,
    pub environment: String,
    pub location: String,
    pub admin_email: String,
    pub policy_group: String,
    pub license_key: String,
    pub registration_status: Option<RegistrationStatus>,
}

/// Relies on std's `Path::new` and `Path::exists`: whether a file is at
/// `path` at the time of the call. It depends on the disk, so nothing is
/// promised of the result.
#[verifier::external_body]
fn path_exists(path: &str) -> (r: bool) {
    std::path::Path::new(path).exists()
}

impl RegistrationForm {
    /// An empty form for a host running `os`, offering data-loss prevention
    /// and endpoint detection.
    pub fn new(os: String) -> (r: Self)
        ensures
            r.os@ == os@,
            r.features@.len() == 2,
            r.features@[0]@ == "DLP"@,
            r.features@[1]@ == "EDR"@,
            r.name@.len() == 0,
            r.device_name@.len() == 0,
            r.organization@.len() == 0,
            r.environment@.len() == 0,
            r.location@.len() == 0,
            r.admin_email@.len() == 0,
            r.policy_group@.len() == 0,
            r.license_key@.len() == 0,
            r.registration_status is None,
    {
        let features = vec!["DLP".to_string(), "EDR".to_string()];
        RegistrationForm {
            name: String::new(),
            os,
            features,
            device_name: String::new(),
            organization: String::new(),
            environment: String::new(),
            location: String::new(),
            admin_email: String::new(),
            policy_group: String::new(),
            license_key: String::new(),
            registration_status: None,
        }
    }

    /// Whether a saved agent configuration exists.
    pub fn is_registered() -> (r: bool) {
        path_exists(AGENT_CONFIG_PATH)
    }
}

} // verus!
