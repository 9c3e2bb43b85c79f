//! Provider credentials and the process environment that carries them to
//! the provisioning tool.

use vstd::prelude::*;
use crate::nlp::CloudProvider;
use crate::text::{from_chars, lowercase, lowercase_of, text_is, to_chars, trim, trimmed};

verus! {

#[derive(Debug, Clone, PartialEq)]
pub struct AwsCredentials {
    pub access_key_id: String,
    pub secret_access_key: String,
    pub region: Option<String>,
    pub session_token: Option<String>,
}

#[derive(Debug, Clone, PartialEq)]
pub struct GcpCredentials {
    pub service_account_key: String,
    pub project_id: String,
    pub region: Option<String>,
}

#[derive(Debug, Clone, PartialEq)]
pub struct AzureCredentials {
    pub client_id: String,
    pub client_secret: String,
    pub tenant_id: String,
    pub subscription_id: String,
}

/// The credential record: at most one set of credentials for each provider.
#[derive(Debug, Clone, PartialEq)]
pub struct CloudCredentials {
    pub aws: Option<AwsCredentials>,
    pub gcp: Option<GcpCredentials>,
    pub azure: Option<AzureCredentials>,
}

/// The environment of an AWS credential set.
pub open spec fn aws_environment(aws: AwsCredentials) -> Seq<(Seq<char>, Seq<char>)> {
    seq![("AWS_ACCESS_KEY_ID"@, aws.access_key_id@), ("AWS_SECRET_ACCESS_KEY"@, aws.secret_access_key@)]
        + (match aws.region {
        Some(region) => seq![("AWS_DEFAULT_REGION"@, region@)],
        None => Seq::empty(),
    }) + (match aws.session_token {
        Some(token) => seq![("AWS_SESSION_TOKEN"@, token@)],
        None => Seq::empty(),
    })
}

/// The environment of a GCP credential set. `key_path` is where the
/// service account key was written, if it was.
pub open spec fn gcp_environment(gcp: GcpCredentials, key_path: Option<Seq<char>>) -> Seq<
    (Seq<char>, Seq<char>),
> {
    (match key_path {
        Some(path) => seq![("GOOGLE_APPLICATION_CREDENTIALS"@, path)],
        None => Seq::empty(),
    }) + seq![("GOOGLE_PROJECT"@, gcp.project_id@)] + (match gcp.region {
        Some(region) => seq![("GOOGLE_REGION"@, region@)],
        None => Seq::empty(),
    })
}

/// The environment of an Azure credential set.
pub open spec fn azure_environment(azure: AzureCredentials) -> Seq<(Seq<char>, Seq<char>)> {
    seq![
        ("ARM_CLIENT_ID"@, azure.client_id@),
        ("ARM_CLIENT_SECRET"@, azure.client_secret@),
        ("ARM_TENANT_ID"@, azure.tenant_id@),
        ("ARM_SUBSCRIPTION_ID"@, azure.subscription_id@),
    ]
}

/// The variables as pairs of name and value.
pub open spec fn environment_view(env: Seq<(String, String)>) -> Seq<(Seq<char>, Seq<char>)> {
    Seq::new(env.len(), |i: int| (env[i].0@, env[i].1@))
}

/// No variable is set twice.
pub open spec fn names_differ(env: Seq<(Seq<char>, Seq<char>)>) -> bool {
    forall|i: int, j: int| 0 <= i < j < env.len() ==> env[i].0 != env[j].0
}

/// The environment of a provider sets each of its variables once.
pub proof fn lemma_environment_names_differ(
    record: CloudCredentials,
    provider: CloudProvider,
    key_path: Option<Seq<char>>,
)
    requires
        record.covers(provider),
    ensures
        names_differ(record.environment_for(provider, key_path)->0),
{
    reveal_strlit("AWS_ACCESS_KEY_ID");
    reveal_strlit("AWS_SECRET_ACCESS_KEY");
    reveal_strlit("AWS_DEFAULT_REGION");
    reveal_strlit("AWS_SESSION_TOKEN");
    reveal_strlit("GOOGLE_APPLICATION_CREDENTIALS");
    reveal_strlit("GOOGLE_PROJECT");
    reveal_strlit("GOOGLE_REGION");
    reveal_strlit("ARM_CLIENT_ID");
    reveal_strlit("ARM_CLIENT_SECRET");
    reveal_strlit("ARM_TENANT_ID");
    reveal_strlit("ARM_SUBSCRIPTION_ID");
    let env = record.environment_for(provider, key_path)->0;
    assert forall|i: int, j: int| 0 <= i < j < env.len() implies env[i].0 != env[j].0 by {
        assert(env[i].0.len() != env[j].0.len() || env[i].0[4] != env[j].0[4] || env[i].0[7]
            != env[j].0[7]);
    }
}

impl CloudCredentials {
    /// Whether the record holds credentials for `provider`.
    pub open spec fn covers(self, provider: CloudProvider) -> bool {
        match provider {
            CloudProvider::AWS => self.aws is Some,
            CloudProvider::GCP => self.gcp is Some,
            CloudProvider::Azure => self.azure is Some,
            CloudProvider::DigitalOcean => false,
            CloudProvider::Unknown => false,
        }
    }

    /// The environment that carries the credentials for `provider`, when the
    /// record holds them.
    pub open spec fn environment_for(self, provider: CloudProvider, key_path: Option<Seq<char>>) -> Option<
        Seq<(Seq<char>, Seq<char>)>,
    > {
        match provider {
            CloudProvider::AWS => match self.aws {
                Some(aws) => Some(aws_environment(aws)),
                None => None,
            },
            CloudProvider::GCP => match self.gcp {
                Some(gcp) => Some(gcp_environment(gcp, key_path)),
                None => None,
            },
            CloudProvider::Azure => match self.azure {
                Some(azure) => Some(azure_environment(azure)),
                None => None,
            },
            CloudProvider::DigitalOcean => None,
            CloudProvider::Unknown => None,
        }
    }

    /// A record without credentials.
    pub fn new() -> (r: Self)
        ensures
            r.aws is None,
            r.gcp is None,
            r.azure is None,
    {
        CloudCredentials { aws: None, gcp: None, azure: None }
    }

    /// Whether the record holds credentials for `provider`. There are none
    /// for DigitalOcean or an unknown provider.
    pub fn has_credentials_for(&self, provider: &CloudProvider) -> (r: bool)
        ensures
            r == self.covers(*provider),
    {
        match provider {
            CloudProvider::AWS => self.aws.is_some(),
            CloudProvider::GCP => self.gcp.is_some(),
            CloudProvider::Azure => self.azure.is_some(),
            CloudProvider::DigitalOcean => false,
            CloudProvider::Unknown => false,
        }
    }

    /// The service account key that has to be on disk while the provisioning
    /// tool runs for `provider`: the GCP key, when the provider is GCP and
    /// the record holds GCP credentials.
    pub fn service_account_key_for(&self, provider: &CloudProvider) -> (r: Option<String>)
        ensures
            match r {
                Some(key) => *provider == CloudProvider::GCP && self.gcp is Some && key@
                    == self.gcp->0.service_account_key@,
                None => !(*provider == CloudProvider::GCP && self.gcp is Some),
            },
    {
        match provider {
            CloudProvider::GCP => match &self.gcp {
                Some(gcp) => Some(gcp.service_account_key.clone()),
                None => None,
            },
            _ => None,
        }
    }

    /// The environment variables that carry the credentials for `provider`,
    /// in a fixed order and each name once; `None` when the record holds no
    /// credentials for it. `gcp_key_path` is the file that holds the GCP
    /// service account key, when it could be written.
    pub fn get_credentials_for(&self, provider: &CloudProvider, gcp_key_path: Option<&str>) -> (r:
        Option<Vec<(String, String)>>)
        ensures
            r is Some <==> self.covers(*provider),
            match r {
                Some(env) => Some(environment_view(env@)) == self.environment_for(
                    *provider,
                    match gcp_key_path {
                        Some(path) => Some(path@),
                        None => None,
                    },
                ),
                None => self.environment_for(
                    *provider,
                    match gcp_key_path {
                        Some(path) => Some(path@),
                        None => None,
                    },
                ) is None,
            },
    {
        match provider {
            CloudProvider::AWS => match &self.aws {
                Some(aws) => {
                    let mut env: Vec<(String, String)> = Vec::new();
                    env.push(("AWS_ACCESS_KEY_ID".to_string(), aws.access_key_id.clone()));
                    env.push(("AWS_SECRET_ACCESS_KEY".to_string(), aws.secret_access_key.clone()));
                    match &aws.region {
                        Some(region) => {
                            env.push(("AWS_DEFAULT_REGION".to_string(), region.clone()));
                        },
                        None => {},
                    }
                    match &aws.session_token {
                        Some(token) => {
                            env.push(("AWS_SESSION_TOKEN".to_string(), token.clone()));
                        },
                        None => {},
                    }
                    assert(environment_view(env@) =~= aws_environment(*aws));
                    Some(env)
                },
                None => None,
            },
            CloudProvider::GCP => match &self.gcp {
                Some(gcp) => {
                    let mut env: Vec<(String, String)> = Vec::new();
                    match gcp_key_path {
                        Some(path) => {
                            env.push(("GOOGLE_APPLICATION_CREDENTIALS".to_string(), path.to_string()));
                        },
                        None => {},
                    }
                    env.push(("GOOGLE_PROJECT".to_string(), gcp.project_id.clone()));
                    match &gcp.region {
                        Some(region) => {
                            env.push(("GOOGLE_REGION".to_string(), region.clone()));
                        },
                        None => {},
                    }
                    assert(environment_view(env@) =~= gcp_environment(
                        *gcp,
                        match gcp_key_path {
                            Some(path) => Some(path@),
                            None => None,
                        },
                    ));
                    Some(env)
                },
                None => None,
            },
            CloudProvider::Azure => match &self.azure {
                Some(azure) => {
                    let mut env: Vec<(String, String)> = Vec::new();
                    env.push(("ARM_CLIENT_ID".to_string(), azure.client_id.clone()));
                    env.push(("ARM_CLIENT_SECRET".to_string(), azure.client_secret.clone()));
                    env.push(("ARM_TENANT_ID".to_string(), azure.tenant_id.clone()));
                    env.push(("ARM_SUBSCRIPTION_ID".to_string(), azure.subscription_id.clone()));
                    assert(environment_view(env@) =~= azure_environment(*azure));
                    Some(env)
                },
                None => None,
            },
            CloudProvider::DigitalOcean => None,
            CloudProvider::Unknown => None,
        }
    }
}


/// Why credentials could not be set up or cleared.
#[derive(Debug, Clone, PartialEq)]
pub enum CredentialError {
    /// An answer that is needed was left empty.
    MissingAnswer(CloudProvider),
    /// The service account key is no JSON document.
    InvalidKey,
    /// Credentials for this provider cannot be set up.
    UnsupportedProvider(CloudProvider),
    /// The name stands for no provider whose credentials could be cleared.
    UnknownProvider(String),
}

/// The message of each failure.
pub open spec fn credential_message(error: CredentialError) -> Seq<char> {
    match error {
        CredentialError::MissingAnswer(CloudProvider::AWS) => "Access Key ID and Secret Access Key are required"@,
        CredentialError::MissingAnswer(CloudProvider::GCP) => "Project ID and Service Account Key file are required"@,
        CredentialError::MissingAnswer(_) => "All Azure credential fields are required"@,
        CredentialError::InvalidKey => "Invalid JSON in service account key file"@,
        CredentialError::UnsupportedProvider(CloudProvider::DigitalOcean) => "DigitalOcean credentials not yet supported"@,
        CredentialError::UnsupportedProvider(_) => "Unknown cloud provider"@,
        CredentialError::UnknownProvider(name) => "Unknown provider: "@ + name@
            + ". Use: aws, gcp, azure, all"@,
    }
}

impl CredentialError {
    pub fn message(&self) -> (r: String)
        ensures
            r@ == credential_message(*self),
    {
        match self {
            CredentialError::MissingAnswer(CloudProvider::AWS) => "Access Key ID and Secret Access Key are required".to_string(),
            CredentialError::MissingAnswer(CloudProvider::GCP) => "Project ID and Service Account Key file are required".to_string(),
            CredentialError::MissingAnswer(_) => "All Azure credential fields are required".to_string(),
            CredentialError::InvalidKey => "Invalid JSON in service account key file".to_string(),
            CredentialError::UnsupportedProvider(CloudProvider::DigitalOcean) => "DigitalOcean credentials not yet supported".to_string(),
            CredentialError::UnsupportedProvider(_) => "Unknown cloud provider".to_string(),
            CredentialError::UnknownProvider(name) => {
                let mut out = to_chars("Unknown provider: ");
                crate::text::append_str(&mut out, name.as_str());
                crate::text::append_str(&mut out, ". Use: aws, gcp, azure, all");
                from_chars(&out)
            },
        }
    }
}

/// An answer without the white space around it.
fn answer(line: &str) -> (r: String)
    ensures
        r@ == trim(line@),
{
    let chars = to_chars(line);
    from_chars(&trimmed(&chars))
}

/// Whether credentials for `provider` can be set up: for AWS, GCP and
/// Azure they can.
pub fn setup_supported(provider: &CloudProvider) -> (r: Result<(), CredentialError>)
    ensures
        r is Ok <==> (*provider == CloudProvider::AWS || *provider == CloudProvider::GCP || *provider
            == CloudProvider::Azure),
        r is Err ==> r == Err::<(), CredentialError>(CredentialError::UnsupportedProvider(*provider)),
{
    match provider {
        CloudProvider::AWS => Ok(()),
        CloudProvider::GCP => Ok(()),
        CloudProvider::Azure => Ok(()),
        _ => Err(CredentialError::UnsupportedProvider(*provider)),
    }
}

/// AWS credentials from the answers of an operator, each taken without
/// the white space around it. The key and its secret are required; an
/// empty region stands for `us-east-1`, an empty session token for none.
pub fn aws_credentials_from_answers(
    access_key: &str,
    secret_key: &str,
    region: &str,
    session_token: &str,
) -> (r: Result<AwsCredentials, CredentialError>)
    ensures
        match r {
            Ok(aws) => {
                &&& trim(access_key@).len() > 0 && trim(secret_key@).len() > 0
                &&& aws.access_key_id@ == trim(access_key@)
                &&& aws.secret_access_key@ == trim(secret_key@)
                &&& aws.region matches Some(chosen) && chosen@ == (if trim(region@).len() == 0 {
                    "us-east-1"@
                } else {
                    trim(region@)
                })
                &&& (trim(session_token@).len() == 0 ==> aws.session_token is None)
                &&& (trim(session_token@).len() > 0 ==> (aws.session_token matches Some(token)
                    && token@ == trim(session_token@)))
            },
            Err(e) => (trim(access_key@).len() == 0 || trim(secret_key@).len() == 0) && e
                == CredentialError::MissingAnswer(CloudProvider::AWS),
        },
{
    let access_key_id = answer(access_key);
    let secret_access_key = answer(secret_key);
    let region = answer(region);
    let session_token = answer(session_token);
    if access_key_id.as_str().unicode_len() == 0 || secret_access_key.as_str().unicode_len() == 0 {
        return Err(CredentialError::MissingAnswer(CloudProvider::AWS));
    }
    let region = if region.as_str().unicode_len() == 0 {
        "us-east-1".to_string()
    } else {
        region
    };
    let session_token = if session_token.as_str().unicode_len() == 0 {
        None
    } else {
        Some(session_token)
    };
    Ok(AwsCredentials { access_key_id, secret_access_key, region: Some(region), session_token })
}

/// Whether `serde_json` reads a text as one JSON document.
pub uninterp spec fn is_json_document(text: Seq<char>) -> bool;

/// Whether a text is one JSON document.
///
/// Trusted: the body parses the text with `serde_json::from_str` into a
/// `Value` and says whether that succeeded. The contract only names the
/// result: the same text gives the same answer.
#[verifier::external_body]
fn parses_as_json(text: &str) -> (r: bool)
    ensures
        r == is_json_document(text@),
{
    serde_json::from_str::<serde_json::Value>(text).is_ok()
}

/// Checks the answers that are needed before the key file of a GCP service
/// account is read: the project and the path of the file.
pub fn gcp_answers_complete(project_id: &str, key_path: &str) -> (r: Result<(), CredentialError>)
    ensures
        r is Ok <==> trim(project_id@).len() > 0 && trim(key_path@).len() > 0,
        r is Err ==> r == Err::<(), CredentialError>(
            CredentialError::MissingAnswer(CloudProvider::GCP),
        ),
{
    let project = answer(project_id);
    let path = answer(key_path);
    if project.as_str().unicode_len() == 0 || path.as_str().unicode_len() == 0 {
        Err(CredentialError::MissingAnswer(CloudProvider::GCP))
    } else {
        Ok(())
    }
}

/// GCP credentials from the answers of an operator and the content of the
/// key file, once it is known whether the key is a JSON document. A key
/// that is none is refused; an empty region stands for `us-central1`.
pub fn gcp_credentials_from_checked_key(
    project_id: &str,
    key_content: String,
    region: &str,
    key_is_document: bool,
) -> (r: Result<GcpCredentials, CredentialError>)
    ensures
        match r {
            Ok(gcp) => {
                &&& key_is_document
                &&& gcp.service_account_key@ == key_content@
                &&& gcp.project_id@ == trim(project_id@)
                &&& gcp.region matches Some(chosen) && chosen@ == (if trim(region@).len() == 0 {
                    "us-central1"@
                } else {
                    trim(region@)
                })
            },
            Err(e) => !key_is_document && e == CredentialError::InvalidKey,
        },
{
    if !key_is_document {
        return Err(CredentialError::InvalidKey);
    }
    let region = answer(region);
    let region = if region.as_str().unicode_len() == 0 {
        "us-central1".to_string()
    } else {
        region
    };
    Ok(
        GcpCredentials {
            service_account_key: key_content,
            project_id: answer(project_id),
            region: Some(region),
        },
    )
}

/// GCP credentials from the answers of an operator and the content of the
/// key file. The key has to be a JSON document; an empty region stands for
/// `us-central1`.
pub fn gcp_credentials_from_answers(project_id: &str, key_content: String, region: &str) -> (r: Result<
    GcpCredentials,
    CredentialError,
>)
    ensures
        match r {
            Ok(gcp) => {
                &&& is_json_document(key_content@)
                &&& gcp.service_account_key@ == key_content@
                &&& gcp.project_id@ == trim(project_id@)
                &&& gcp.region matches Some(chosen) && chosen@ == (if trim(region@).len() == 0 {
                    "us-central1"@
                } else {
                    trim(region@)
                })
            },
            Err(e) => !is_json_document(key_content@) && e == CredentialError::InvalidKey,
        },
{
    let key_is_document = parses_as_json(key_content.as_str());
    gcp_credentials_from_checked_key(project_id, key_content, region, key_is_document)
}

/// Azure credentials from the answers of an operator, each taken without
/// the white space around it. All four are required.
pub fn azure_credentials_from_answers(
    client_id: &str,
    client_secret: &str,
    tenant_id: &str,
    subscription_id: &str,
) -> (r: Result<AzureCredentials, CredentialError>)
    ensures
        match r {
            Ok(azure) => {
                &&& trim(client_id@).len() > 0 && trim(client_secret@).len() > 0 && trim(
                    tenant_id@,
                ).len() > 0 && trim(subscription_id@).len() > 0
                &&& azure.client_id@ == trim(client_id@)
                &&& azure.client_secret@ == trim(client_secret@)
                &&& azure.tenant_id@ == trim(tenant_id@)
                &&& azure.subscription_id@ == trim(subscription_id@)
            },
            Err(e) => (trim(client_id@).len() == 0 || trim(client_secret@).len() == 0 || trim(
                tenant_id@,
            ).len() == 0 || trim(subscription_id@).len() == 0) && e
                == CredentialError::MissingAnswer(CloudProvider::Azure),
        },
{
    let client_id = answer(client_id);
    let client_secret = answer(client_secret);
    let tenant_id = answer(tenant_id);
    let subscription_id = answer(subscription_id);
    if client_id.as_str().unicode_len() == 0 || client_secret.as_str().unicode_len() == 0
        || tenant_id.as_str().unicode_len() == 0 || subscription_id.as_str().unicode_len() == 0 {
        return Err(CredentialError::MissingAnswer(CloudProvider::Azure));
    }
    Ok(AzureCredentials { client_id, client_secret, tenant_id, subscription_id })
}

/// What clearing does to a record, by the lower-case name of what to
/// clear; `None` for a name that stands for nothing to clear.
pub open spec fn cleared(record: CloudCredentials, lower: Seq<char>) -> Option<CloudCredentials> {
    if lower == "aws"@ {
        Some(CloudCredentials { aws: None, ..record })
    } else if lower == "gcp"@ || lower == "google"@ {
        Some(CloudCredentials { gcp: None, ..record })
    } else if lower == "azure"@ {
        Some(CloudCredentials { azure: None, ..record })
    } else if lower == "all"@ {
        Some(CloudCredentials { aws: None, gcp: None, azure: None })
    } else {
        None
    }
}

impl CloudCredentials {
    /// Clears what the lower-case name `lower` stands for: the credentials
    /// of one provider, or all of them. Says whether the name stood for
    /// anything; the record is unchanged when it did not.
    pub fn clear_named(&mut self, lower: &str) -> (r: bool)
        ensures
            r == cleared(*old(self), lower@) is Some,
            *final(self) == (match cleared(*old(self), lower@) {
                Some(record) => record,
                None => *old(self),
            }),
    {
        let l = to_chars(lower);
        if text_is(&l, "aws") {
            self.aws = None;
            true
        } else if text_is(&l, "gcp") || text_is(&l, "google") {
            self.gcp = None;
            true
        } else if text_is(&l, "azure") {
            self.azure = None;
            true
        } else if text_is(&l, "all") {
            self.aws = None;
            self.gcp = None;
            self.azure = None;
            true
        } else {
            false
        }
    }

    /// Clears what `lower` stands for, the lower-case form of the name
    /// `provider`. A name that stands for nothing is a failure that carries
    /// the name as it was given, and leaves the record as it is.
    pub fn clear_as(&mut self, provider: &str, lower: &str) -> (r: Result<(), CredentialError>)
        ensures
            match r {
                Ok(()) => cleared(*old(self), lower@) == Some(*final(self)),
                Err(CredentialError::UnknownProvider(name)) => cleared(*old(self), lower@) is None
                    && *final(self) == *old(self) && name@ == provider@,
                Err(_) => false,
            },
    {
        if self.clear_named(lower) {
            Ok(())
        } else {
            Err(CredentialError::UnknownProvider(provider.to_string()))
        }
    }

    /// Clears the credentials that `provider` names, in any case of
    /// letters: those of `aws`, `gcp` (or `google`) or `azure`, or `all`.
    pub fn clear(&mut self, provider: &str) -> (r: Result<(), CredentialError>)
        ensures
            match r {
                Ok(()) => cleared(*old(self), lowercase_of(provider@)) == Some(*final(self)),
                Err(CredentialError::UnknownProvider(name)) => cleared(
                    *old(self),
                    lowercase_of(provider@),
                ) is None && *final(self) == *old(self) && name@ == provider@,
                Err(_) => false,
            },
    {
        let lower = lowercase(provider);
        self.clear_as(provider, lower.as_str())
    }

    /// The lines that report which credentials the record holds, with a
    /// hint at the end when it holds none.
    pub fn status_lines(&self) -> (r: Vec<String>)
        ensures
            r.deep_view() == status_of(*self),
    {
        let mut lines: Vec<String> = Vec::new();
        lines.push(
            if self.aws.is_some() {
                "AWS:   ✅ Configured".to_string()
            } else {
                "AWS:   ❌ Not set".to_string()
            },
        );
        lines.push(
            if self.gcp.is_some() {
                "GCP:   ✅ Configured".to_string()
            } else {
                "GCP:   ❌ Not set".to_string()
            },
        );
        lines.push(
            if self.azure.is_some() {
                "Azure: ✅ Configured".to_string()
            } else {
                "Azure: ❌ Not set".to_string()
            },
        );
        if self.aws.is_none() && self.gcp.is_none() && self.azure.is_none() {
            lines.push("".to_string());
            lines.push("💡 Set up credentials with: cargo run -- credentials <cloud>".to_string());
            lines.push("   Example: cargo run -- credentials aws".to_string());
        }
        assert(lines.deep_view() =~= status_of(*self));
        lines
    }
}

/// The status report of a record.
pub open spec fn status_of(record: CloudCredentials) -> Seq<Seq<char>> {
    seq![
        if record.aws is Some {
            "AWS:   ✅ Configured"@
        } else {
            "AWS:   ❌ Not set"@
        },
        if record.gcp is Some {
            "GCP:   ✅ Configured"@
        } else {
            "GCP:   ❌ Not set"@
        },
        if record.azure is Some {
            "Azure: ✅ Configured"@
        } else {
            "Azure: ❌ Not set"@
        },
    ] + (if record.aws is None && record.gcp is None && record.azure is None {
        seq![
            ""@,
            "💡 Set up credentials with: cargo run -- credentials <cloud>"@,
            "   Example: cargo run -- credentials aws"@,
        ]
    } else {
        Seq::empty()
    })
}

} // verus!
