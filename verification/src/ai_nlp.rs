//! The boundary to the text-generation service: framing its answers and
//! turning extracted fields into the requirement model.

use vstd::prelude::*;
use crate::infrastructure::TerraformConfig;
use crate::terraform::{graph_resolved, references_resolved};
use crate::nlp::{
    ApplicationType, CloudProvider, DatabaseType, DeploymentRequirements, ScalingRequirements,
};
use crate::text::{
    append_str, copy_range, ends_with, find, first_match, from_chars, has_prefix, has_suffix,
    last_match, lemma_first_match, lemma_last_match, rfind, starts_with, text_is, to_chars, trim,
    trimmed,
};

verus! {

/// Why an answer of the service could not be used.
#[derive(Debug, Clone, PartialEq)]
pub enum ExtractionError {
    /// The answer is empty or white space only.
    EmptyResponse,
    /// The answer holds no `{...}` span with something in it; the field is
    /// the answer as it was searched.
    NoJsonObject(String),
    /// The service offered no candidate.
    NoCandidates,
    /// The first candidate has no part.
    NoParts,
    /// The drafted resource graph refers to a variable that the draft does
    /// not declare.
    UnresolvedReference,
}

/// `s` without `prefix` at its start, or `otherwise` when `s` does not
/// start with it.
pub open spec fn without_prefix(s: Seq<char>, prefix: Seq<char>, otherwise: Seq<char>) -> Seq<char> {
    if starts_with(s, prefix) {
        s.skip(prefix.len() as int)
    } else {
        otherwise
    }
}

/// `s` without `suffix` at its end, or `otherwise` when `s` does not end
/// with it.
pub open spec fn without_suffix(s: Seq<char>, suffix: Seq<char>, otherwise: Seq<char>) -> Seq<char> {
    if ends_with(s, suffix) {
        s.take(s.len() - suffix.len())
    } else {
        otherwise
    }
}

/// An answer without the code-fence markers around it. Each marker is
/// taken off what the step before left; where a marker is missing, the
/// search goes on with the whole trimmed answer.
pub open spec fn cleaned_response(response: Seq<char>) -> Seq<char> {
    let whole = trim(response);
    let a = without_prefix(whole, "```json"@, whole);
    let b = without_prefix(a, "```"@, whole);
    let c = without_suffix(b, "```"@, whole);
    trim(c)
}

/// The outermost `{...}` span of a text: from its first `{` to its last
/// `}`, when the brace closes after it opens and something stands between
/// the two.
pub open spec fn json_span(cleaned: Seq<char>) -> Option<Seq<char>> {
    let start = first_match(cleaned, seq!['{']);
    let end = last_match(cleaned, seq!['}']);
    if 0 <= start && start < end && end < cleaned.len() && end - start + 1 > 2 {
        Some(cleaned.subrange(start, end + 1))
    } else {
        None
    }
}

/// The message of each failure.
pub open spec fn extraction_message(error: ExtractionError) -> Seq<char> {
    match error {
        ExtractionError::EmptyResponse => "Empty response from API"@,
        ExtractionError::NoJsonObject(cleaned) => "No valid JSON object found in response: '"@
            + cleaned@ + "'"@,
        ExtractionError::NoCandidates => "No candidates in Gemini response"@,
        ExtractionError::NoParts => "No parts in Gemini response"@,
        ExtractionError::UnresolvedReference => "The drafted configuration refers to a variable that it does not declare"@,
    }
}

impl ExtractionError {
    pub fn message(&self) -> (r: String)
        ensures
            r@ == extraction_message(*self),
    {
        match self {
            ExtractionError::EmptyResponse => "Empty response from API".to_string(),
            ExtractionError::NoJsonObject(cleaned) => {
                let mut out = to_chars("No valid JSON object found in response: '");
                append_str(&mut out, cleaned.as_str());
                append_str(&mut out, "'");
                from_chars(&out)
            },
            ExtractionError::NoCandidates => "No candidates in Gemini response".to_string(),
            ExtractionError::NoParts => "No parts in Gemini response".to_string(),
            ExtractionError::UnresolvedReference => "The drafted configuration refers to a variable that it does not declare".to_string(),
        }
    }
}

/// A copy of `s` without `prefix`, or of `otherwise`.
fn strip_prefix_or(s: &Vec<char>, prefix: &str, otherwise: &Vec<char>) -> (r: Vec<char>)
    ensures
        r@ == without_prefix(s@, prefix@, otherwise@),
{
    let marker = to_chars(prefix);
    if has_prefix(s, &marker) {
        assert(s@.skip(marker@.len() as int) =~= s@.subrange(marker@.len() as int, s@.len() as int));
        copy_range(s, marker.len(), s.len())
    } else {
        assert(otherwise@.subrange(0, otherwise@.len() as int) =~= otherwise@);
        copy_range(otherwise, 0, otherwise.len())
    }
}

/// A copy of `s` without `suffix`, or of `otherwise`.
fn strip_suffix_or(s: &Vec<char>, suffix: &str, otherwise: &Vec<char>) -> (r: Vec<char>)
    ensures
        r@ == without_suffix(s@, suffix@, otherwise@),
{
    let marker = to_chars(suffix);
    if has_suffix(s, &marker) {
        assert(s@.take(s@.len() - marker@.len()) =~= s@.subrange(0, s@.len() - marker@.len()));
        copy_range(s, 0, s.len() - marker.len())
    } else {
        assert(otherwise@.subrange(0, otherwise@.len() as int) =~= otherwise@);
        copy_range(otherwise, 0, otherwise.len())
    }
}

/// Frames the JSON object in an answer of the service: takes white space
/// and code-fence markers off and returns the span from the first `{` to
/// the last `}`. An empty answer and an answer without such a span are
/// failures; nothing is made up in their place.
pub fn extract_json_from_response(response: &str) -> (r: Result<String, ExtractionError>)
    ensures
        match r {
            Ok(json) => trim(response@).len() > 0 && json_span(cleaned_response(response@)) == Some(
                json@,
            ),
            Err(ExtractionError::EmptyResponse) => trim(response@).len() == 0,
            Err(ExtractionError::NoJsonObject(cleaned)) => trim(response@).len() > 0 && json_span(
                cleaned_response(response@),
            ) is None && cleaned@ == cleaned_response(response@),
            Err(_) => false,
        },
{
    let chars = to_chars(response);
    let whole = trimmed(&chars);
    if whole.len() == 0 {
        return Err(ExtractionError::EmptyResponse);
    }
    let a = strip_prefix_or(&whole, "```json", &whole);
    let b = strip_prefix_or(&a, "```", &whole);
    let c = strip_suffix_or(&b, "```", &whole);
    let cleaned = trimmed(&c);
    let mut open: Vec<char> = Vec::new();
    open.push('{');
    assert(open@ =~= seq!['{']);
    let mut close: Vec<char> = Vec::new();
    close.push('}');
    assert(close@ =~= seq!['}']);
    proof {
        lemma_first_match(cleaned@, open@);
        lemma_last_match(cleaned@, close@);
    }
    match find(&cleaned, &open) {
        Some(start) => match rfind(&cleaned, &close) {
            Some(end) => {
                assert(crate::text::matches_at(cleaned@, close@, end as int));
                let limit: usize = cleaned.len();
                assert(end + 1 <= limit);
                if end > start && end - start + 1 > 2 {
                    let span = copy_range(&cleaned, start, end + 1);
                    return Ok(from_chars(&span));
                }
            },
            None => {},
        },
        None => {},
    }
    Err(ExtractionError::NoJsonObject(from_chars(&cleaned)))
}

/// The text of the first part of the first candidate of an answer.
/// `candidates` holds, for each candidate, the texts of its parts.
pub fn first_candidate_text(candidates: &Vec<Vec<String>>) -> (r: Result<String, ExtractionError>)
    ensures
        match r {
            Ok(text) => candidates@.len() > 0 && candidates@[0]@.len() > 0 && text@
                == candidates@[0]@[0]@,
            Err(ExtractionError::NoCandidates) => candidates@.len() == 0,
            Err(ExtractionError::NoParts) => candidates@.len() > 0 && candidates@[0]@.len() == 0,
            Err(_) => false,
        },
{
    if candidates.len() == 0 {
        return Err(ExtractionError::NoCandidates);
    }
    if candidates[0].len() == 0 {
        return Err(ExtractionError::NoParts);
    }
    Ok(candidates[0][0].clone())
}

/// Validates a drafted plan: a draft whose resource graph refers to a
/// variable that it does not declare is no usable answer.
pub fn validate_draft(config: &TerraformConfig) -> (r: Result<(), ExtractionError>)
    ensures
        r is Ok <==> graph_resolved(config@),
        r is Err ==> r == Err::<(), ExtractionError>(ExtractionError::UnresolvedReference),
{
    if references_resolved(config) {
        Ok(())
    } else {
        Err(ExtractionError::UnresolvedReference)
    }
}

/// The fields of a requirements answer, as the service words them.
#[derive(Debug, Clone, PartialEq)]
pub struct ParsedRequirements {
    pub application_type: String,
    pub scaling_requirements: String,
    pub database_requirements: Vec<String>,
    pub cloud_provider: String,
    pub port_requirements: Vec<u16>,
    pub ssl_required: bool,
    pub custom_domain: Option<String>,
    pub environment_variables: Vec<(String, String)>,
}

/// The application type that a word of the service stands for. A language
/// without a framework of its own is an application of unknown type, a
/// static site is served like a React build, and a word that the service
/// was not asked for stands for nothing.
pub open spec fn application_type_named(word: Seq<char>) -> Option<ApplicationType> {
    if word == "Flask"@ {
        Some(ApplicationType::Flask)
    } else if word == "Django"@ {
        Some(ApplicationType::Django)
    } else if word == "FastAPI"@ {
        Some(ApplicationType::FastAPI)
    } else if word == "NodeJS"@ {
        Some(ApplicationType::NodeJS)
    } else if word == "React"@ {
        Some(ApplicationType::React)
    } else if word == "NextJS"@ {
        Some(ApplicationType::NextJS)
    } else if word == "Express"@ {
        Some(ApplicationType::Express)
    } else if word == "Go"@ || word == "Rust"@ || word == "Ruby"@ || word == "PHP"@ {
        Some(ApplicationType::Unknown)
    } else if word == "Static"@ {
        Some(ApplicationType::React)
    } else {
        None
    }
}

/// The scaling mode that a word stands for; a single instance unless the
/// word asks for more.
pub open spec fn scaling_named(word: Seq<char>) -> ScalingRequirements {
    if word == "AutoScaling"@ {
        ScalingRequirements::AutoScale
    } else if word == "LoadBalanced"@ {
        ScalingRequirements::LoadBalanced
    } else if word == "Serverless"@ {
        ScalingRequirements::Serverless
    } else {
        ScalingRequirements::Single
    }
}

/// The provider that a word stands for. A word that names no provider is
/// carried on as `Unknown`: no provider is guessed in its place.
pub open spec fn provider_named(word: Seq<char>) -> CloudProvider {
    if word == "AWS"@ {
        CloudProvider::AWS
    } else if word == "GCP"@ {
        CloudProvider::GCP
    } else if word == "Azure"@ {
        CloudProvider::Azure
    } else if word == "DigitalOcean"@ {
        CloudProvider::DigitalOcean
    } else {
        CloudProvider::Unknown
    }
}

/// The database that a word stands for, if it names one that can be
/// provisioned.
pub open spec fn database_named(word: Seq<char>) -> Option<DatabaseType> {
    if word == "PostgreSQL"@ {
        Some(DatabaseType::PostgreSQL)
    } else if word == "MySQL"@ {
        Some(DatabaseType::MySQL)
    } else if word == "MongoDB"@ {
        Some(DatabaseType::MongoDB)
    } else if word == "Redis"@ {
        Some(DatabaseType::Redis)
    } else {
        None
    }
}

/// The databases that the first `upto` words name, each once and in the
/// order in which they are first named.
pub open spec fn databases_named(words: Seq<Seq<char>>, upto: nat) -> Seq<DatabaseType>
    decreases upto,
{
    if upto == 0 || upto > words.len() {
        Seq::empty()
    } else {
        let before = databases_named(words, (upto - 1) as nat);
        match database_named(words[upto - 1]) {
            Some(database) => if before.contains(database) {
                before
            } else {
                before.push(database)
            },
            None => before,
        }
    }
}

/// Whether `database` is one of `databases`.
fn holds_database(databases: &Vec<DatabaseType>, database: DatabaseType) -> (r: bool)
    ensures
        r == databases@.contains(database),
{
    let mut i: usize = 0;
    while i < databases.len()
        invariant
            i <= databases.len(),
            forall|j: int| 0 <= j < i ==> databases@[j] != database,
        decreases databases.len() - i,
    {
        if databases[i] == database {
            return true;
        }
        i = i + 1;
    }
    false
}

pub fn application_type_from(word: &str) -> (r: Option<ApplicationType>)
    ensures
        r == application_type_named(word@),
{
    let w = to_chars(word);
    if text_is(&w, "Flask") {
        Some(ApplicationType::Flask)
    } else if text_is(&w, "Django") {
        Some(ApplicationType::Django)
    } else if text_is(&w, "FastAPI") {
        Some(ApplicationType::FastAPI)
    } else if text_is(&w, "NodeJS") {
        Some(ApplicationType::NodeJS)
    } else if text_is(&w, "React") {
        Some(ApplicationType::React)
    } else if text_is(&w, "NextJS") {
        Some(ApplicationType::NextJS)
    } else if text_is(&w, "Express") {
        Some(ApplicationType::Express)
    } else if text_is(&w, "Go") || text_is(&w, "Rust") || text_is(&w, "Ruby") || text_is(&w, "PHP") {
        Some(ApplicationType::Unknown)
    } else if text_is(&w, "Static") {
        Some(ApplicationType::React)
    } else {
        None
    }
}

pub fn scaling_from(word: &str) -> (r: ScalingRequirements)
    ensures
        r == scaling_named(word@),
{
    let w = to_chars(word);
    if text_is(&w, "AutoScaling") {
        ScalingRequirements::AutoScale
    } else if text_is(&w, "LoadBalanced") {
        ScalingRequirements::LoadBalanced
    } else if text_is(&w, "Serverless") {
        ScalingRequirements::Serverless
    } else {
        ScalingRequirements::Single
    }
}

pub fn provider_from(word: &str) -> (r: CloudProvider)
    ensures
        r == provider_named(word@),
{
    let w = to_chars(word);
    if text_is(&w, "AWS") {
        CloudProvider::AWS
    } else if text_is(&w, "GCP") {
        CloudProvider::GCP
    } else if text_is(&w, "Azure") {
        CloudProvider::Azure
    } else if text_is(&w, "DigitalOcean") {
        CloudProvider::DigitalOcean
    } else {
        CloudProvider::Unknown
    }
}

pub fn database_from(word: &str) -> (r: Option<DatabaseType>)
    ensures
        r == database_named(word@),
{
    let w = to_chars(word);
    if text_is(&w, "PostgreSQL") {
        Some(DatabaseType::PostgreSQL)
    } else if text_is(&w, "MySQL") {
        Some(DatabaseType::MySQL)
    } else if text_is(&w, "MongoDB") {
        Some(DatabaseType::MongoDB)
    } else if text_is(&w, "Redis") {
        Some(DatabaseType::Redis)
    } else {
        None
    }
}

/// The requirement model of a requirements answer: each word turned into
/// the variant it stands for, the rest taken over as it is.
pub fn requirements_from_parsed(parsed: ParsedRequirements) -> (r: DeploymentRequirements)
    ensures
        r.application_type == application_type_named(parsed.application_type@),
        r.scaling_requirements == scaling_named(parsed.scaling_requirements@),
        r.cloud_provider == provider_named(parsed.cloud_provider@),
        r.database_requirements@ == databases_named(
            parsed.database_requirements.deep_view(),
            parsed.database_requirements.deep_view().len(),
        ),
        r.environment_variables == parsed.environment_variables,
        r.port_requirements == parsed.port_requirements,
        r.ssl_required == parsed.ssl_required,
        r.custom_domain == parsed.custom_domain,
{
    let application_type = application_type_from(parsed.application_type.as_str());
    let scaling_requirements = scaling_from(parsed.scaling_requirements.as_str());
    let cloud_provider = provider_from(parsed.cloud_provider.as_str());
    let mut databases: Vec<DatabaseType> = Vec::new();
    let mut i: usize = 0;
    while i < parsed.database_requirements.len()
        invariant
            i <= parsed.database_requirements.len(),
            databases@ == databases_named(parsed.database_requirements.deep_view(), i as nat),
        decreases parsed.database_requirements.len() - i,
    {
        assert(parsed.database_requirements.deep_view()[i as int]
            == parsed.database_requirements@[i as int]@);
        match database_from(parsed.database_requirements[i].as_str()) {
            Some(database) => {
                if !holds_database(&databases, database) {
                    databases.push(database);
                }
            },
            None => {},
        }
        i = i + 1;
    }
    DeploymentRequirements {
        cloud_provider,
        application_type,
        scaling_requirements,
        database_requirements: databases,
        environment_variables: parsed.environment_variables,
        port_requirements: parsed.port_requirements,
        ssl_required: parsed.ssl_required,
        custom_domain: parsed.custom_domain,
    }
}

/// The request for requirements, up to the description.
pub const REQUIREMENTS_PROMPT_HEAD: &'static str = "Analyze this deployment description and extract structured deployment requirements in JSON format:\n\nDescription: \"";

/// The request for requirements, after the description: the fields to
/// extract and the rules for filling them.
pub const REQUIREMENTS_PROMPT_TAIL: &'static str = "\"\n\nExtract the following information and respond with ONLY a JSON object (no markdown, no explanation):\n\n{\n  \"application_type\": \"Flask|Django|FastAPI|NodeJS|React|NextJS|Express|Go|Rust|Ruby|PHP|Static|Unknown\",\n  \"scaling_requirements\": \"Single|AutoScaling|LoadBalanced|Serverless\",\n  \"database_requirements\": [\"PostgreSQL\", \"MySQL\", \"MongoDB\", \"Redis\", \"None\"],\n  \"cloud_provider\": \"AWS|GCP|Azure|DigitalOcean\",\n  \"port_requirements\": [80, 443],\n  \"ssl_required\": true,\n  \"custom_domain\": \"example.com or null\",\n  \"environment_variables\": {\"DATABASE_URL\": \"postgresql://...\", \"API_KEY\": \"secret\"}\n}\n\nRules:\n- If not specified, use sensible defaults\n- application_type: infer from keywords (Flask, Django, Node, React, etc.)\n- scaling_requirements: \"Single\" unless \"auto-scaling\", \"load balanced\", or \"serverless\" mentioned\n- database_requirements: extract database types mentioned, use [\"None\"] if none\n- cloud_provider: AWS unless GCP/Google/Azure/DigitalOcean specified\n- port_requirements: [80, 443] for web apps, [80] for simple apps\n- ssl_required: true for production deployments\n- custom_domain: extract domain if mentioned, otherwise null\n- environment_variables: extract any env vars or configs mentioned";

/// The request for a configuration draft, up to the description.
pub const TERRAFORM_PROMPT_HEAD: &'static str = "Generate a Terraform configuration for this deployment:\n\nDescription: \"";

/// The request for a configuration draft, between the description and the
/// provider.
pub const TERRAFORM_PROMPT_PROVIDER: &'static str = "\"\nCloud Provider: ";

/// The request for a configuration draft, between the provider and the
/// topology.
pub const TERRAFORM_PROMPT_TOPOLOGY: &'static str = "\nDeployment Type: ";

/// The request for a configuration draft, from the topology to the place
/// of the repository reference in the example: the shape of the answer and
/// the rules for it.
pub const TERRAFORM_PROMPT_EXAMPLE: &'static str = "\n\nGenerate Terraform configuration as JSON with this exact structure:\n\n{\n  \"provider\": \"aws\",\n  \"resources\": [\n    {\n      \"resource_type\": \"aws_instance\",\n      \"name\": \"app_instance\",\n      \"config\": {\n        \"instance_type\": \"t3.micro\",\n        \"ami\": \"ami-0c02fb55956c7d316\",\n        \"vpc_security_group_ids\": [\"aws_security_group.app_sg.id\"],\n        \"user_data\": \"base64:setup_script_base64_encoded\"\n      }\n    },\n    {\n      \"resource_type\": \"aws_security_group\",\n      \"name\": \"app_sg\",\n      \"config\": {\n        \"name\": \"app_sg\",\n        \"description\": \"Allow inbound traffic\",\n        \"ingress\": [\n          {\n            \"from_port\": 22,\n            \"to_port\": 22,\n            \"protocol\": \"tcp\",\n            \"cidr_blocks\": [\"0.0.0.0/0\"],\n            \"description\": \"SSH\",\n            \"ipv6_cidr_blocks\": [],\n            \"prefix_list_ids\": [],\n            \"security_groups\": [],\n            \"self\": false\n          }\n        ],\n        \"egress\": [\n          {\n            \"from_port\": 0,\n            \"to_port\": 0,\n            \"protocol\": \"-1\",\n            \"cidr_blocks\": [\"0.0.0.0/0\"],\n            \"description\": \"All outbound\",\n            \"ipv6_cidr_blocks\": [],\n            \"prefix_list_ids\": [],\n            \"security_groups\": [],\n            \"self\": false\n          }\n        ]\n      }\n    }\n  ],\n  \"variables\": {\n    \"region\": \"AWS region\",\n    \"key_name\": \"AWS key pair\"\n  },\n  \"outputs\": {\n    \"public_ip\": {\n      \"value\": \"aws_instance.app_instance.public_ip\",\n      \"description\": \"Instance public IP\"\n    },\n    \"public_dns\": {\n      \"value\": \"aws_instance.app_instance.public_dns\",\n      \"description\": \"Instance public DNS\"\n    }\n  }\n}\n\nRequirements:\n- For AWS: Use EC2 instances, security groups, proper AMIs\n- For GCP: Use compute instances, firewall rules, proper images\n- For Azure: Use virtual machines, network security groups, proper images\n- Include proper networking, security, and application setup\n- Use appropriate instance types for the workload\n- For user_data: use simple bootstrap commands like \"apt update && apt install python3 -y\"\n- Avoid complex multi-line scripts or embedded quotes\n- Set up proper ports based on application type\n\nIMPORTANT:\n- Keep strings simple, avoid nested quotes, use minimal user_data scripts\n- Use modern Terraform syntax: \"aws_instance.app_instance.public_ip\" not \"${aws_instance.app_instance.public_ip}\"\n- Output values should be unquoted resource references\n- Variable references should be simple: \"var.region\" not \"${var.region}\"\n- Always include \"name\" field for all resources\n- Use \"allow\" blocks for firewall rules, not \"allows\"\n\nExample for Flask on GCP:\n{\n  \"provider\": \"google\",\n  \"resources\": [\n    {\n      \"resource_type\": \"google_compute_instance\",\n      \"name\": \"flask_app_instance\",\n      \"config\": {\n        \"name\": \"flask-app-instance\",\n        \"project\": \"var.project_id\",\n        \"zone\": \"var.zone\",\n        \"machine_type\": \"e2-medium\",\n        \"boot_disk\": {\n          \"initialize_params\": {\n            \"image\": \"debian-cloud/debian-11\"\n          }\n        },\n        \"network_interface\": {\n          \"network\": \"default\",\n          \"access_config\": [\n            {}\n          ]\n        },\n        \"metadata_startup_script\": \"sudo apt update -y && sudo apt install -y python3 python3-pip git && pip3 install Flask && git clone ";

/// The request for a configuration draft, after the repository reference.
pub const TERRAFORM_PROMPT_TAIL: &'static str = " /home/app && cd /home/app && python3 -c \\\\\\\"import os; [open(f, 'w').write(open(f).read().replace('localhost', '0.0.0.0').replace('127.0.0.1', '0.0.0.0')) for f in os.listdir('.') if f.endswith('.py')]\\\\\\\" 2>/dev/null || true && nohup python3 *.py > /var/log/flask.log 2>&1 &\",\n        \"tags\": [\"flask-app\", \"http-server\"]\n      }\n    },\n    {\n      \"resource_type\": \"google_compute_firewall\", \n      \"name\": \"flask_app_firewall\",\n      \"config\": {\n        \"name\": \"flask-app-firewall\",\n        \"project\": \"var.project_id\",\n        \"network\": \"default\",\n        \"allow\": [\n          {\n            \"protocol\": \"tcp\",\n            \"ports\": [\"22\", \"5000\"]\n          }\n        ],\n        \"source_ranges\": [\"0.0.0.0/0\"],\n        \"target_tags\": [\"flask-app\"]\n      }\n    }\n  ],\n  \"variables\": {\n    \"project_id\": \"GCP project ID\",\n    \"region\": \"GCP region\", \n    \"zone\": \"GCP zone\"\n  },\n  \"outputs\": {\n    \"instance_ip\": {\n      \"value\": \"google_compute_instance.flask_app_instance.network_interface[0].access_config[0].nat_ip\",\n      \"description\": \"Public IP address of the Flask application instance\"\n    }\n  }\n}\n\nRespond with ONLY the JSON object, no markdown or explanation.";

/// The request that asks the service for the requirements in a
/// description.
pub open spec fn requirements_prompt_of(description: Seq<char>) -> Seq<char> {
    REQUIREMENTS_PROMPT_HEAD@ + description + REQUIREMENTS_PROMPT_TAIL@
}

/// The request that asks the service to draft a configuration.
pub open spec fn terraform_prompt_of(
    description: Seq<char>,
    provider: CloudProvider,
    deployment_type: Seq<char>,
    repository_url: Seq<char>,
) -> Seq<char> {
    TERRAFORM_PROMPT_HEAD@ + description + TERRAFORM_PROMPT_PROVIDER@ + provider.spec_name()
        + TERRAFORM_PROMPT_TOPOLOGY@ + deployment_type + TERRAFORM_PROMPT_EXAMPLE@ + repository_url
        + TERRAFORM_PROMPT_TAIL@
}

/// The request that asks the service for the requirements in
/// `description`.
pub fn requirements_prompt(description: &str) -> (r: String)
    ensures
        r@ == requirements_prompt_of(description@),
{
    let mut out = to_chars(REQUIREMENTS_PROMPT_HEAD);
    append_str(&mut out, description);
    append_str(&mut out, REQUIREMENTS_PROMPT_TAIL);
    from_chars(&out)
}

/// The request that asks the service to draft the configuration of a
/// deployment of the topology `deployment_type` at `cloud_provider`, for
/// the application in the repository at `repository_url`.
pub fn terraform_prompt(
    description: &str,
    cloud_provider: &CloudProvider,
    deployment_type: &str,
    repository_url: &str,
) -> (r: String)
    ensures
        r@ == terraform_prompt_of(
            description@,
            *cloud_provider,
            deployment_type@,
            repository_url@,
        ),
{
    let mut out = to_chars(TERRAFORM_PROMPT_HEAD);
    append_str(&mut out, description);
    append_str(&mut out, TERRAFORM_PROMPT_PROVIDER);
    let provider = cloud_provider.name();
    append_str(&mut out, provider.as_str());
    append_str(&mut out, TERRAFORM_PROMPT_TOPOLOGY);
    append_str(&mut out, deployment_type);
    append_str(&mut out, TERRAFORM_PROMPT_EXAMPLE);
    append_str(&mut out, repository_url);
    append_str(&mut out, TERRAFORM_PROMPT_TAIL);
    assert(out@ =~= terraform_prompt_of(
        description@,
        *cloud_provider,
        deployment_type@,
        repository_url@,
    ));
    from_chars(&out)
}

} // verus!
