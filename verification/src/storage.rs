//! The settings of an object-storage client, worked out from its
//! configuration. Making the client and talking to the storage service is
//! the work of the program around this crate.

use vstd::prelude::*;
use vstd::string::*;

verus! {

/// How one storage service is configured.
#[derive(Debug)]
pub struct S3Config {
    pub region: String,
    pub access_key_id: String,
    pub secret_access_key: String,
    pub endpoint: Option<String>,
}

/// A named storage service.
#[derive(Debug)]
pub struct S3InstancesConfig {
    pub name: String,
    pub s3: S3Config,
}

/// A key and its secret, to be used in place of the credentials that the
/// surroundings of the process provide.
#[derive(Debug)]
pub struct StaticCredentials {
    pub access_key_id: String,
    pub secret_access_key: String,
}

/// What a client is made with.
#[derive(Debug)]
pub struct S3ClientSettings {
    pub region: String,
    pub endpoint_url: Option<String>,
    pub credentials: Option<StaticCredentials>,
}

/// Whether a configuration names credentials of its own: it does when both
/// the key and its secret are there.
pub open spec fn names_credentials(config: S3Config) -> bool {
    config.access_key_id@.len() > 0 && config.secret_access_key@.len() > 0
}

/// Whether `settings` are the settings that `config` asks for: its region;
/// its endpoint, where it names one; and its credentials, where it names
/// both parts of them.
pub open spec fn settings_match(settings: S3ClientSettings, config: S3Config) -> bool {
    &&& settings.region@ == config.region@
    &&& match config.endpoint {
        Some(url) => settings.endpoint_url matches Some(chosen) && chosen@ == url@,
        None => settings.endpoint_url is None,
    }
    &&& if names_credentials(config) {
        settings.credentials matches Some(chosen) && chosen.access_key_id@
            == config.access_key_id@ && chosen.secret_access_key@ == config.secret_access_key@
    } else {
        settings.credentials is None
    }
}

/// Works out the settings of the client for a configuration.
pub fn client_settings(config: &S3Config) -> (settings: S3ClientSettings)
    ensures
        settings_match(settings, *config),
{
    let endpoint_url: Option<String> = match &config.endpoint {
        Some(url) => Some(url.clone()),
        None => None,
    };
    let credentials = if !config.access_key_id.as_str().is_empty()
        && !config.secret_access_key.as_str().is_empty() {
        Some(
            StaticCredentials {
                access_key_id: config.access_key_id.clone(),
                secret_access_key: config.secret_access_key.clone(),
            },
        )
    } else {
        None
    };
    S3ClientSettings { region: config.region.clone(), endpoint_url, credentials }
}

} // verus!
