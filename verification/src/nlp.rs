//! The requirement model: what an operator asks of a deployment.

use vstd::prelude::*;
use crate::text::{text_is, to_chars};

verus! {

#[derive(Debug, Clone, Copy, PartialEq, Eq, Structural)]
pub enum CloudProvider {
    AWS,
    GCP,
    Azure,
    DigitalOcean,
    Unknown,
}

#[derive(Debug, Clone, Copy, PartialEq, Eq, Structural)]
pub enum ApplicationType {
    Flask,
    Django,
    NodeJS,
    React,
    NextJS,
    Express,
    FastAPI,
    Rails,
    Spring,
    Unknown,
}

#[derive(Debug, Clone, Copy, PartialEq, Eq, Structural)]
pub enum ScalingRequirements {
    Single,
    AutoScale,
    LoadBalanced,
    Serverless,
}

#[derive(Debug, Clone, Copy, PartialEq, Eq, Structural)]
pub enum DatabaseType {
    PostgreSQL,
    MySQL,
    MongoDB,
    Redis,
    SQLite,
    NoDatabase,
}

/// What the operator wants deployed, and where.
///
/// `environment_variables` pairs each name with its value, in the order in
/// which they were given.
#[derive(Debug, Clone)]
pub struct DeploymentRequirements {
    pub cloud_provider: CloudProvider,
    pub application_type: Option<ApplicationType>,
    pub scaling_requirements: ScalingRequirements,
    pub database_requirements: Vec<DatabaseType>,
    pub environment_variables: Vec<(String, String)>,
    pub port_requirements: Vec<u16>,
    pub ssl_required: bool,
    pub custom_domain: Option<String>,
}

/// The provider that a tag stands for: `aws`, `gcp` or `google`, `azure`,
/// `digitalocean`. A tag that names no provider is carried on as
/// `Unknown`: no provider is guessed in its place.
pub open spec fn provider_of_tag(tag: Seq<char>) -> CloudProvider {
    if tag == "aws"@ {
        CloudProvider::AWS
    } else if tag == "gcp"@ || tag == "google"@ {
        CloudProvider::GCP
    } else if tag == "azure"@ {
        CloudProvider::Azure
    } else if tag == "digitalocean"@ {
        CloudProvider::DigitalOcean
    } else {
        CloudProvider::Unknown
    }
}

impl CloudProvider {
    /// The provider that a tag stands for. This is the one place where the
    /// text of a provider is read; everything behind it works on the
    /// variant.
    pub fn from_tag(tag: &str) -> (r: CloudProvider)
        ensures
            r == provider_of_tag(tag@),
    {
        let w = to_chars(tag);
        if text_is(&w, "aws") {
            CloudProvider::AWS
        } else if text_is(&w, "gcp") || text_is(&w, "google") {
            CloudProvider::GCP
        } else if text_is(&w, "azure") {
            CloudProvider::Azure
        } else if text_is(&w, "digitalocean") {
            CloudProvider::DigitalOcean
        } else {
            CloudProvider::Unknown
        }
    }

    /// The provider's name as it is written in messages.
    pub open spec fn spec_name(self) -> Seq<char> {
        match self {
            CloudProvider::AWS => "AWS"@,
            CloudProvider::GCP => "GCP"@,
            CloudProvider::Azure => "Azure"@,
            CloudProvider::DigitalOcean => "DigitalOcean"@,
            CloudProvider::Unknown => "Unknown"@,
        }
    }

    pub fn name(&self) -> (r: String)
        ensures
            r@ == self.spec_name(),
    {
        match self {
            CloudProvider::AWS => "AWS".to_string(),
            CloudProvider::GCP => "GCP".to_string(),
            CloudProvider::Azure => "Azure".to_string(),
            CloudProvider::DigitalOcean => "DigitalOcean".to_string(),
            CloudProvider::Unknown => "Unknown".to_string(),
        }
    }
}

impl ApplicationType {
    /// The application type's name as it is written in messages.
    pub open spec fn spec_name(self) -> Seq<char> {
        match self {
            ApplicationType::Flask => "Flask"@,
            ApplicationType::Django => "Django"@,
            ApplicationType::NodeJS => "NodeJS"@,
            ApplicationType::React => "React"@,
            ApplicationType::NextJS => "NextJS"@,
            ApplicationType::Express => "Express"@,
            ApplicationType::FastAPI => "FastAPI"@,
            ApplicationType::Rails => "Rails"@,
            ApplicationType::Spring => "Spring"@,
            ApplicationType::Unknown => "Unknown"@,
        }
    }

    pub fn name(&self) -> (r: String)
        ensures
            r@ == self.spec_name(),
    {
        match self {
            ApplicationType::Flask => "Flask".to_string(),
            ApplicationType::Django => "Django".to_string(),
            ApplicationType::NodeJS => "NodeJS".to_string(),
            ApplicationType::React => "React".to_string(),
            ApplicationType::NextJS => "NextJS".to_string(),
            ApplicationType::Express => "Express".to_string(),
            ApplicationType::FastAPI => "FastAPI".to_string(),
            ApplicationType::Rails => "Rails".to_string(),
            ApplicationType::Spring => "Spring".to_string(),
            ApplicationType::Unknown => "Unknown".to_string(),
        }
    }
}

impl Default for DeploymentRequirements {
    /// A single AWS instance, no database, ports 80 and 443, no SSL.
    fn default() -> (r: Self)
        ensures
            r.cloud_provider == CloudProvider::AWS,
            r.application_type is None,
            r.scaling_requirements == ScalingRequirements::Single,
            r.database_requirements@ == seq![DatabaseType::NoDatabase],
            r.environment_variables@.len() == 0,
            r.port_requirements@ == seq![80u16, 443u16],
            !r.ssl_required,
            r.custom_domain is None,
    {
        let mut databases: Vec<DatabaseType> = Vec::new();
        databases.push(DatabaseType::NoDatabase);
        let mut ports: Vec<u16> = Vec::new();
        ports.push(80);
        ports.push(443);
        DeploymentRequirements {
            cloud_provider: CloudProvider::AWS,
            application_type: None,
            scaling_requirements: ScalingRequirements::Single,
            database_requirements: databases,
            environment_variables: Vec::new(),
            port_requirements: ports,
            ssl_required: false,
            custom_domain: None,
        }
    }
}

} // verus!
