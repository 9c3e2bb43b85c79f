//! The provisioning orchestrator: a linear state machine around the
//! external provisioning tool. The machine decides; its caller writes the
//! files, looks the tool up, loads the credentials and runs the tool, and
//! reports back what happened.

use vstd::prelude::*;
use crate::credentials::{CloudCredentials, environment_view};
use crate::hcl::SerializationError;
use crate::infrastructure::{DeploymentResult, InfrastructureDecision};
use crate::json::{document_text, member_document, member_of_document, text_of_document};
use crate::nlp::CloudProvider;
use crate::terraform::{
    RenderedFile, config_representable, files_view, generate_terraform_files, rendered_files,
};
use crate::text::{append_str, from_chars, to_chars};

verus! {

/// The runs of the provisioning tool, in their order.
#[derive(Debug, Clone, Copy, PartialEq, Eq, Structural)]
pub enum BinaryStage {
    Init,
    Plan,
    Apply,
    Output,
}

/// Why a provisioning attempt ended without a result.
#[derive(Debug, Clone, PartialEq)]
pub enum ProvisionError {
    /// An attribute of the plan cannot be written down.
    Serialization(SerializationError),
    /// The provisioning tool is not on the execution path.
    ToolingMissing,
    /// The credential record has nothing for the provider.
    CredentialMissing(CloudProvider),
    /// The tool ended a run with a failure: the run, the code it exited
    /// with, if it exited with one, and what it wrote to its standard
    /// error, as it stands.
    ExternalProcessFailure { stage: BinaryStage, exit_code: Option<i32>, detail: String },
}

/// What one run of the provisioning tool gave: the code it exited with,
/// none when it did not exit by itself, and what it wrote to its standard
/// output and its standard error.
#[derive(Debug, Clone, PartialEq)]
pub struct ProcessOutput {
    pub exit_code: Option<i32>,
    pub stdout: Vec<u8>,
    pub stderr: String,
}

impl ProcessOutput {
    /// A run succeeded when it exited with code zero.
    pub open spec fn succeeded(&self) -> bool {
        self.exit_code == Some(0i32)
    }

    pub fn success(&self) -> (r: bool)
        ensures
            r == self.succeeded(),
    {
        match self.exit_code {
            Some(code) => code == 0,
            None => false,
        }
    }
}

/// One run of the provisioning tool: its arguments and the variables that
/// are added to its environment for this run only.
#[derive(Debug, Clone, PartialEq)]
pub struct Invocation {
    pub stage: BinaryStage,
    pub arguments: Vec<String>,
    pub environment: Vec<(String, String)>,
}

/// What the machine remembers between two steps.
#[derive(Debug, Clone, PartialEq)]
pub struct Session {
    pub provider: CloudProvider,
    pub infrastructure_type: String,
    pub dry_run: bool,
    pub logs: Vec<String>,
    pub environment: Vec<(String, String)>,
    pub plan_overrides: Vec<String>,
    pub stage: BinaryStage,
}

/// What the caller has to do next, or how the attempt ended.
#[derive(Debug, PartialEq)]
pub enum Step {
    /// Write `files` into a fresh directory called `directory_name`, then
    /// call `files_written`.
    WriteFiles { session: Session, directory_name: String, files: Vec<RenderedFile> },
    /// Look for the provisioning tool, then call `binary_located`.
    LocateBinary { session: Session },
    /// Load the credential record, then call `credentials_loaded`.
    LoadCredentials { session: Session },
    /// Run the tool as `invocation` says, then call `process_exited`.
    Run { session: Session, invocation: Invocation },
    /// The attempt is over.
    Done(Result<DeploymentResult, ProvisionError>),
}

/// The name under which the provisioning tool is looked up and run.
pub fn binary_name() -> (r: String)
    ensures
        r@ == "terraform"@,
{
    "terraform".to_string()
}

impl BinaryStage {
    /// The subcommand of the run.
    pub open spec fn spec_subcommand(self) -> Seq<char> {
        match self {
            BinaryStage::Init => "init"@,
            BinaryStage::Plan => "plan"@,
            BinaryStage::Apply => "apply"@,
            BinaryStage::Output => "output"@,
        }
    }

    pub fn subcommand(&self) -> (r: String)
        ensures
            r@ == self.spec_subcommand(),
    {
        match self {
            BinaryStage::Init => "init".to_string(),
            BinaryStage::Plan => "plan".to_string(),
            BinaryStage::Apply => "apply".to_string(),
            BinaryStage::Output => "output".to_string(),
        }
    }
}

/// The provider's name in the command that sets its credentials up.
pub open spec fn setup_name(provider: CloudProvider) -> Seq<char> {
    match provider {
        CloudProvider::AWS => "aws"@,
        CloudProvider::GCP => "gcp"@,
        CloudProvider::Azure => "azure"@,
        CloudProvider::DigitalOcean => "digitalocean"@,
        CloudProvider::Unknown => "unknown"@,
    }
}

/// The message of each failure.
pub open spec fn error_message(error: ProvisionError) -> Seq<char> {
    match error {
        ProvisionError::Serialization(_) => "A resource attribute cannot be represented in the configuration."@,
        ProvisionError::ToolingMissing => "Terraform is not installed. Please install Terraform to deploy for real."@,
        ProvisionError::CredentialMissing(provider) => "No credentials found for "@
            + provider.spec_name() + ". Set up with: cargo run -- credentials setup "@ + setup_name(
            provider,
        ),
        ProvisionError::ExternalProcessFailure { stage, exit_code, detail } => "Terraform "@
            + stage.spec_subcommand() + " failed: "@ + detail@,
    }
}

impl ProvisionError {
    /// The failure in words: what is missing and how to get it, or the
    /// stage that failed with the tool's own diagnostic.
    pub fn message(&self) -> (r: String)
        ensures
            r@ == error_message(*self),
    {
        match self {
            ProvisionError::Serialization(_) => "A resource attribute cannot be represented in the configuration.".to_string(),
            ProvisionError::ToolingMissing => "Terraform is not installed. Please install Terraform to deploy for real.".to_string(),
            ProvisionError::CredentialMissing(provider) => {
                let mut out: Vec<char> = Vec::new();
                append_str(&mut out, "No credentials found for ");
                let name = provider.name();
                append_str(&mut out, name.as_str());
                append_str(&mut out, ". Set up with: cargo run -- credentials setup ");
                match provider {
                    CloudProvider::AWS => append_str(&mut out, "aws"),
                    CloudProvider::GCP => append_str(&mut out, "gcp"),
                    CloudProvider::Azure => append_str(&mut out, "azure"),
                    CloudProvider::DigitalOcean => append_str(&mut out, "digitalocean"),
                    CloudProvider::Unknown => append_str(&mut out, "unknown"),
                }
                assert(out@ =~= error_message(*self));
                from_chars(&out)
            },
            ProvisionError::ExternalProcessFailure { stage, exit_code, detail } => {
                let mut out: Vec<char> = Vec::new();
                append_str(&mut out, "Terraform ");
                let sub = stage.subcommand();
                append_str(&mut out, sub.as_str());
                append_str(&mut out, " failed: ");
                append_str(&mut out, detail.as_str());
                assert(out@ =~= error_message(*self));
                from_chars(&out)
            },
        }
    }
}

/// The literal text `head` followed by `tail`.
fn joined(head: &str, tail: &str) -> (r: String)
    ensures
        r@ == head@ + tail@,
{
    let mut out: Vec<char> = to_chars(head);
    append_str(&mut out, tail);
    from_chars(&out)
}

/// The log after the files have been written.
pub open spec fn render_log(infrastructure_type: Seq<char>, directory: Seq<char>) -> Seq<Seq<char>> {
    seq![
        "✅ Terraform files generated successfully"@,
        "📁 Generated terraform configuration for "@ + infrastructure_type,
        "📄 Files saved to: "@ + directory,
    ]
}

/// What a dry run adds to the log.
pub open spec fn dry_run_log() -> Seq<Seq<char>> {
    seq![
        "🧪 Dry run - no infrastructure provisioned"@,
        "📄 Terraform files available for review and testing"@,
    ]
}

/// The endpoint that a dry run reports.
pub open spec fn dry_run_url() -> Seq<char> {
    "dry-run"@
}

/// The directory of one run: `deployment_` and the run's stamp.
pub open spec fn directory_name_of(stamp: Seq<char>) -> Seq<char> {
    "deployment_"@ + stamp
}

/// Starts a provisioning attempt: renders the plan's documents and asks for
/// them to be written into the run's own directory. `name_stamp` is the
/// suffix for the names of filtering rules and `directory_stamp` the one
/// for the directory; both come from the clock of the caller. Ends at once
/// when the plan cannot be rendered.
pub fn begin(
    decision: &InfrastructureDecision,
    repo_url: &str,
    name_stamp: &str,
    directory_stamp: &str,
    dry_run: bool,
    cloud_provider: &CloudProvider,
) -> (step: Step)
    ensures
        match step {
            Step::WriteFiles { session, directory_name, files } => {
                &&& config_representable(decision.terraform_config@)
                &&& files_view(files@) == rendered_files(
                    decision.terraform_config@,
                    repo_url@,
                    name_stamp@,
                )
                &&& directory_name@ == directory_name_of(directory_stamp@)
                &&& session.provider == *cloud_provider
                &&& session.dry_run == dry_run
                &&& session.infrastructure_type@ == decision.deployment_type.spec_name()
                &&& session.logs@.len() == 0
                &&& session.environment@.len() == 0
                &&& session.plan_overrides@.len() == 0
                &&& session.stage == BinaryStage::Init
            },
            Step::Done(Err(ProvisionError::Serialization(e))) => !config_representable(
                decision.terraform_config@,
            ) && e == SerializationError::UnsupportedValue,
            _ => false,
        },
{
    match generate_terraform_files(&decision.terraform_config, repo_url, name_stamp) {
        Ok(files) => {
            let session = Session {
                provider: *cloud_provider,
                infrastructure_type: decision.deployment_type.name(),
                dry_run,
                logs: Vec::new(),
                environment: Vec::new(),
                plan_overrides: Vec::new(),
                stage: BinaryStage::Init,
            };
            Step::WriteFiles { session, directory_name: joined("deployment_", directory_stamp), files }
        },
        Err(e) => Step::Done(Err(ProvisionError::Serialization(e))),
    }
}

/// The files are on disk in `directory`. A dry run ends here, with the
/// sentinel endpoint and the render log; otherwise the tool is looked up
/// next.
pub fn files_written(session: Session, directory: &str) -> (step: Step)
    ensures
        session.dry_run ==> (step matches Step::Done(Ok(result)) && {
            &&& result.url@ == dry_run_url()
            &&& result.infrastructure_type@ == session.infrastructure_type@
            &&& result.public_ip is None
            &&& result.logs.deep_view() == session.logs.deep_view() + render_log(
                session.infrastructure_type@,
                directory@,
            ) + dry_run_log()
        }),
        !session.dry_run ==> (step matches Step::LocateBinary { session: next } && {
            &&& next.logs.deep_view() == session.logs.deep_view() + render_log(
                session.infrastructure_type@,
                directory@,
            )
            &&& next.provider == session.provider
            &&& next.infrastructure_type@ == session.infrastructure_type@
            &&& next.dry_run == session.dry_run
            &&& next.stage == session.stage
            &&& next.environment == session.environment
            &&& next.plan_overrides == session.plan_overrides
        }),
{
    let mut session = session;
    let ghost before = session.logs.deep_view();
    let ghost label = session.infrastructure_type@;
    session.logs.push("✅ Terraform files generated successfully".to_string());
    session.logs.push(
        joined("📁 Generated terraform configuration for ", session.infrastructure_type.as_str()),
    );
    session.logs.push(joined("📄 Files saved to: ", directory));
    assert(session.logs.deep_view() =~= before + render_log(label, directory@));
    if session.dry_run {
        let ghost rendered = session.logs.deep_view();
        session.logs.push("🧪 Dry run - no infrastructure provisioned".to_string());
        session.logs.push("📄 Terraform files available for review and testing".to_string());
        assert(session.logs.deep_view() =~= rendered + dry_run_log());
        Step::Done(
            Ok(
                DeploymentResult {
                    url: "dry-run".to_string(),
                    infrastructure_type: session.infrastructure_type,
                    public_ip: None,
                    logs: session.logs,
                },
            ),
        )
    } else {
        Step::LocateBinary { session }
    }
}

/// The tool was looked up. Without it the attempt ends with
/// `ToolingMissing`; with it the credentials are loaded next.
pub fn binary_located(session: Session, found: bool) -> (step: Step)
    ensures
        !found ==> step == Step::Done(Err(ProvisionError::ToolingMissing)),
        found ==> step == (Step::LoadCredentials { session }),
{
    if found {
        Step::LoadCredentials { session }
    } else {
        Step::Done(Err(ProvisionError::ToolingMissing))
    }
}


/// The region of a credential set, or the provider's usual one.
pub open spec fn region_or(region: Option<String>, usual: Seq<char>) -> Seq<char> {
    match region {
        Some(r) => r@,
        None => usual,
    }
}

/// The inputs that the plan run sets from the credential record rather
/// than from the plan: project, region and zone for GCP, the region for
/// AWS.
pub open spec fn plan_overrides_of(credentials: CloudCredentials, provider: CloudProvider) -> Seq<
    Seq<char>,
> {
    match provider {
        CloudProvider::GCP => match credentials.gcp {
            Some(gcp) => seq![
                "-var"@,
                "project_id="@ + gcp.project_id@,
                "-var"@,
                "region="@ + region_or(gcp.region, "us-central1"@),
                "-var"@,
                "zone="@ + region_or(gcp.region, "us-central1"@) + "-a"@,
            ],
            None => Seq::empty(),
        },
        CloudProvider::AWS => match credentials.aws {
            Some(aws) => seq!["-var"@, "region="@ + region_or(aws.region, "us-east-1"@)],
            None => Seq::empty(),
        },
        _ => Seq::empty(),
    }
}

/// The arguments of each run.
pub open spec fn arguments_of(stage: BinaryStage, overrides: Seq<Seq<char>>) -> Seq<Seq<char>> {
    match stage {
        BinaryStage::Init => seq!["init"@],
        BinaryStage::Plan => seq!["plan"@, "-out=tfplan"@] + overrides,
        BinaryStage::Apply => seq!["apply"@, "-auto-approve"@, "tfplan"@],
        BinaryStage::Output => seq!["output"@, "-json"@],
    }
}

/// A copy of a list of variables.
fn copy_environment(env: &Vec<(String, String)>) -> (r: Vec<(String, String)>)
    ensures
        environment_view(r@) == environment_view(env@),
{
    let mut r: Vec<(String, String)> = Vec::new();
    let mut i: usize = 0;
    while i < env.len()
        invariant
            i <= env.len(),
            r@.len() == i,
            forall|j: int|
                0 <= j < i ==> (#[trigger] r@[j]).0@ == env@[j].0@ && r@[j].1@ == env@[j].1@,
        decreases env.len() - i,
    {
        r.push((env[i].0.clone(), env[i].1.clone()));
        i = i + 1;
    }
    assert(environment_view(r@) =~= environment_view(env@));
    r
}

/// The invocation of the run `stage` for a session.
fn invocation_for(session: &Session, stage: BinaryStage) -> (r: Invocation)
    ensures
        r.stage == stage,
        r.arguments.deep_view() == arguments_of(stage, session.plan_overrides.deep_view()),
        environment_view(r.environment@) == environment_view(session.environment@),
{
    let mut arguments: Vec<String> = Vec::new();
    match stage {
        BinaryStage::Init => {
            arguments.push("init".to_string());
        },
        BinaryStage::Plan => {
            arguments.push("plan".to_string());
            arguments.push("-out=tfplan".to_string());
            let mut i: usize = 0;
            while i < session.plan_overrides.len()
                invariant
                    i <= session.plan_overrides.len(),
                    arguments.deep_view() == seq!["plan"@, "-out=tfplan"@]
                        + session.plan_overrides.deep_view().take(i as int),
                decreases session.plan_overrides.len() - i,
            {
                let ghost before = arguments.deep_view();
                arguments.push(session.plan_overrides[i].clone());
                assert(arguments.deep_view() =~= before.push(session.plan_overrides@[i as int]@));
                assert(session.plan_overrides.deep_view().take(i + 1)
                    =~= session.plan_overrides.deep_view().take(i as int).push(
                    session.plan_overrides@[i as int]@,
                ));
                i = i + 1;
            }
            assert(session.plan_overrides.deep_view().take(session.plan_overrides@.len() as int)
                =~= session.plan_overrides.deep_view());
        },
        BinaryStage::Apply => {
            arguments.push("apply".to_string());
            arguments.push("-auto-approve".to_string());
            arguments.push("tfplan".to_string());
        },
        BinaryStage::Output => {
            arguments.push("output".to_string());
            arguments.push("-json".to_string());
        },
    }
    assert(arguments.deep_view() =~= arguments_of(stage, session.plan_overrides.deep_view()));
    Invocation { stage, arguments, environment: copy_environment(&session.environment) }
}

/// The inputs that the plan run takes from the credential record.
fn plan_overrides(credentials: &CloudCredentials, provider: &CloudProvider) -> (r: Vec<String>)
    ensures
        r.deep_view() == plan_overrides_of(*credentials, *provider),
{
    let mut r: Vec<String> = Vec::new();
    match provider {
        CloudProvider::GCP => match &credentials.gcp {
            Some(gcp) => {
                let region: String = match &gcp.region {
                    Some(region) => region.clone(),
                    None => "us-central1".to_string(),
                };
                let mut zone = to_chars("zone=");
                append_str(&mut zone, region.as_str());
                append_str(&mut zone, "-a");
                r.push("-var".to_string());
                r.push(joined("project_id=", gcp.project_id.as_str()));
                r.push("-var".to_string());
                r.push(joined("region=", region.as_str()));
                r.push("-var".to_string());
                r.push(from_chars(&zone));
            },
            None => {},
        },
        CloudProvider::AWS => match &credentials.aws {
            Some(aws) => {
                let region: String = match &aws.region {
                    Some(region) => region.clone(),
                    None => "us-east-1".to_string(),
                };
                r.push("-var".to_string());
                r.push(joined("region=", region.as_str()));
            },
            None => {},
        },
        _ => {},
    }
    assert(r.deep_view() =~= plan_overrides_of(*credentials, *provider));
    r
}

/// The credential record was loaded; `gcp_key_path` is the file that holds
/// the GCP service account key, when one had to be written and could be.
/// Without credentials for the session's provider the attempt ends with
/// `CredentialMissing`, before the tool has run once; with them the tool is
/// initialised next, with the credentials in its environment.
pub fn credentials_loaded(
    session: Session,
    credentials: &CloudCredentials,
    gcp_key_path: Option<&str>,
) -> (step: Step)
    ensures
        !credentials.covers(session.provider) ==> step == Step::Done(
            Err(ProvisionError::CredentialMissing(session.provider)),
        ),
        credentials.covers(session.provider) ==> (step matches Step::Run {
            session: next,
            invocation,
        } && {
            &&& invocation.stage == BinaryStage::Init
            &&& invocation.arguments.deep_view() == seq!["init"@]
            &&& Some(environment_view(invocation.environment@)) == credentials.environment_for(
                session.provider,
                match gcp_key_path {
                    Some(path) => Some(path@),
                    None => None,
                },
            )
            &&& environment_view(next.environment@) == environment_view(invocation.environment@)
            &&& next.plan_overrides.deep_view() == plan_overrides_of(*credentials, session.provider)
            &&& next.logs.deep_view() == session.logs.deep_view().push("🔧 Initializing Terraform..."@)
            &&& next.stage == BinaryStage::Init
            &&& next.provider == session.provider
            &&& next.dry_run == session.dry_run
            &&& next.infrastructure_type@ == session.infrastructure_type@
        }),
{
    let mut session = session;
    match credentials.get_credentials_for(&session.provider, gcp_key_path) {
        None => Step::Done(Err(ProvisionError::CredentialMissing(session.provider))),
        Some(environment) => {
            let ghost before = session.logs.deep_view();
            session.environment = environment;
            session.plan_overrides = plan_overrides(credentials, &session.provider);
            session.stage = BinaryStage::Init;
            session.logs.push("🔧 Initializing Terraform...".to_string());
            assert(session.logs.deep_view() =~= before.push("🔧 Initializing Terraform..."@));
            let invocation = invocation_for(&session, BinaryStage::Init);
            Step::Run { session, invocation }
        },
    }
}

/// The answer of a document for one output: `None` when the document is
/// no map or has no member called `member`; otherwise the text of that
/// member's own member `field`, when it has one that is a string.
pub open spec fn output_answer(document: Seq<u8>, member: Seq<char>, field: Seq<char>) -> Option<
    Option<Seq<char>>,
> {
    match member_document(document, member) {
        Some(entry) => Some(
            match member_document(entry, field) {
                Some(value) => document_text(value),
                None => None,
            },
        ),
        None => None,
    }
}

/// Looks a member of a JSON document up, and in it a string.
pub fn output_text(document: &Vec<u8>, member: &str, field: &str) -> (r: Option<Option<String>>)
    ensures
        r.deep_view() == output_answer(document@, member@, field@),
{
    match member_of_document(document.as_slice(), member) {
        Some(entry) => {
            let text: Option<String> = match member_of_document(entry.as_slice(), field) {
                Some(value) => text_of_document(value.as_slice()),
                None => None,
            };
            Some(text)
        },
        None => None,
    }
}

/// The answer for the first of the probed outputs that the document has:
/// its text, or nothing when its value is no string. `None` when the
/// document has none of them.
pub open spec fn first_present(probes: Seq<Option<Option<Seq<char>>>>, from: int) -> Option<
    Option<Seq<char>>,
>
    decreases probes.len() - from,
{
    if from < 0 || from >= probes.len() {
        None
    } else if probes[from] is Some {
        probes[from]
    } else {
        first_present(probes, from + 1)
    }
}

/// The text that the probes select: that of the first output that is
/// present, if it has one.
pub open spec fn selected_text(probes: Seq<Option<Option<Seq<char>>>>) -> Option<Seq<char>> {
    match first_present(probes, 0) {
        Some(Some(text)) => Some(text),
        _ => None,
    }
}

/// Picks among the answers for a priority list of output names: the first
/// output that is present decides, also when it has no text.
pub fn select_output(probes: &Vec<Option<Option<String>>>) -> (r: Option<String>)
    ensures
        r.deep_view() == selected_text(probes.deep_view()),
{
    let mut i: usize = 0;
    while i < probes.len()
        invariant
            i <= probes.len(),
            first_present(probes.deep_view(), 0) == first_present(probes.deep_view(), i as int),
        decreases probes.len() - i,
    {
        match &probes[i] {
            Some(answer) => {
                assert(probes.deep_view()[i as int] == probes@[i as int].deep_view());
                return match answer {
                    Some(text) => Some(text.clone()),
                    None => None,
                };
            },
            None => {
                assert(probes.deep_view()[i as int] == probes@[i as int].deep_view());
            },
        }
        i = i + 1;
    }
    None
}

/// The answers for the output names `names`, in order.
pub open spec fn probes_of(document: Seq<u8>, names: Seq<Seq<char>>) -> Seq<Option<Option<Seq<char>>>> {
    Seq::new(names.len(), |i: int| output_answer(document, names[i], "value"@))
}

/// The output names that can hold the endpoint, in priority order.
pub open spec fn endpoint_outputs() -> Seq<Seq<char>> {
    seq!["instance_ip"@, "public_ip"@, "public_dns"@, "website_url"@]
}

/// The output names that can hold the public address, in priority order.
pub open spec fn address_outputs() -> Seq<Seq<char>> {
    seq!["instance_ip"@, "public_ip"@]
}

/// The endpoint that a selection gives: the selected text, or the literal
/// `unknown` when nothing was selected.
pub open spec fn endpoint_or_unknown(selected: Option<Seq<char>>) -> Seq<char> {
    match selected {
        Some(text) => text,
        None => "unknown"@,
    }
}

/// The endpoint that the outputs of the tool give, `unknown` when they
/// give none.
pub open spec fn endpoint_of(document: Seq<u8>) -> Seq<char> {
    endpoint_or_unknown(selected_text(probes_of(document, endpoint_outputs())))
}

/// The endpoint of a finished run: what its outputs give when the query
/// for them succeeded, `unknown` otherwise. It is reported as it stands;
/// nothing is put before it.
pub open spec fn reported_endpoint(success: bool, document: Seq<u8>) -> Seq<char> {
    if success {
        endpoint_of(document)
    } else {
        "unknown"@
    }
}

/// The endpoint that the answers for the endpoint outputs give: the text of
/// the first output that is present, `unknown` when none is present or the
/// first that is present has no text.
pub fn endpoint_from_probes(probes: &Vec<Option<Option<String>>>) -> (r: String)
    ensures
        r@ == endpoint_or_unknown(selected_text(probes.deep_view())),
{
    match select_output(probes) {
        Some(text) => text,
        None => "unknown".to_string(),
    }
}

/// The public address that the outputs of the tool give.
pub open spec fn address_of(document: Seq<u8>) -> Option<Seq<char>> {
    selected_text(probes_of(document, address_outputs()))
}

/// Reads the endpoint from the structured outputs of the tool.
pub fn endpoint_from_outputs(document: &Vec<u8>) -> (r: String)
    ensures
        r@ == endpoint_of(document@),
{
    let mut probes: Vec<Option<Option<String>>> = Vec::new();
    probes.push(output_text(document, "instance_ip", "value"));
    probes.push(output_text(document, "public_ip", "value"));
    probes.push(output_text(document, "public_dns", "value"));
    probes.push(output_text(document, "website_url", "value"));
    assert(probes.deep_view() =~= probes_of(document@, endpoint_outputs()));
    endpoint_from_probes(&probes)
}

/// Reads the public address from the structured outputs of the tool.
pub fn public_ip_from_outputs(document: &Vec<u8>) -> (r: Option<String>)
    ensures
        r.deep_view() == address_of(document@),
{
    let mut probes: Vec<Option<Option<String>>> = Vec::new();
    probes.push(output_text(document, "instance_ip", "value"));
    probes.push(output_text(document, "public_ip", "value"));
    assert(probes.deep_view() =~= probes_of(document@, address_outputs()));
    select_output(&probes)
}

/// What a successful run adds to the log.
pub open spec fn success_log(stage: BinaryStage) -> Seq<Seq<char>> {
    match stage {
        BinaryStage::Init => seq![
            "✅ Terraform initialized successfully"@,
            "📋 Planning Terraform deployment..."@,
        ],
        BinaryStage::Plan => seq![
            "✅ Terraform plan completed successfully"@,
            "🚀 Applying Terraform configuration..."@,
        ],
        BinaryStage::Apply => seq!["✅ Infrastructure provisioned successfully!"@],
        BinaryStage::Output => Seq::empty(),
    }
}

/// The run that follows a successful run.
pub open spec fn stage_after(stage: BinaryStage) -> BinaryStage {
    match stage {
        BinaryStage::Init => BinaryStage::Plan,
        BinaryStage::Plan => BinaryStage::Apply,
        _ => BinaryStage::Output,
    }
}

/// The run of the session's stage has ended. An initialisation, plan or
/// application that did not exit with code zero ends the attempt with the
/// run, the exit code and the tool's own diagnostic; no run is tried again. After a success the next run follows. The outputs are
/// advisory: whatever their run gives, the attempt ends with a result,
/// whose endpoint is `unknown` when the outputs give none.
pub fn process_exited(session: Session, output: &ProcessOutput) -> (step: Step)
    ensures
        session.stage != BinaryStage::Output && !output.succeeded() ==> (step matches Step::Done(
            Err(ProvisionError::ExternalProcessFailure { stage, exit_code, detail }),
        ) && stage == session.stage && exit_code == output.exit_code && detail@ == output.stderr@),
        session.stage != BinaryStage::Output && output.succeeded() ==> (step matches Step::Run {
            session: next,
            invocation,
        } && {
            &&& next.stage == stage_after(session.stage)
            &&& invocation.stage == next.stage
            &&& invocation.arguments.deep_view() == arguments_of(
                next.stage,
                session.plan_overrides.deep_view(),
            )
            &&& environment_view(invocation.environment@) == environment_view(session.environment@)
            &&& environment_view(next.environment@) == environment_view(session.environment@)
            &&& next.plan_overrides.deep_view() == session.plan_overrides.deep_view()
            &&& next.logs.deep_view() == session.logs.deep_view() + success_log(session.stage)
            &&& next.provider == session.provider
            &&& next.dry_run == session.dry_run
            &&& next.infrastructure_type@ == session.infrastructure_type@
        }),
        session.stage == BinaryStage::Output ==> (step matches Step::Done(Ok(result)) && {
            let endpoint = reported_endpoint(output.succeeded(), output.stdout@);
            &&& result.url@ == endpoint
            &&& result.infrastructure_type@ == session.infrastructure_type@
            &&& result.public_ip.deep_view() == (if output.succeeded() {
                address_of(output.stdout@)
            } else {
                None
            })
            &&& result.logs.deep_view() == session.logs.deep_view().push(
                "🌐 Deployment URL: "@ + endpoint,
            )
        }),
{
    let mut session = session;
    let ghost before = session.logs.deep_view();
    let success = output.success();
    match session.stage {
        BinaryStage::Output => {
            let endpoint: String = if success {
                endpoint_from_outputs(&output.stdout)
            } else {
                "unknown".to_string()
            };
            let public_ip: Option<String> = if success {
                public_ip_from_outputs(&output.stdout)
            } else {
                None
            };
            session.logs.push(joined("🌐 Deployment URL: ", endpoint.as_str()));
            assert(session.logs.deep_view() =~= before.push("🌐 Deployment URL: "@ + endpoint@));
            Step::Done(
                Ok(
                    DeploymentResult {
                        url: endpoint,
                        infrastructure_type: session.infrastructure_type,
                        public_ip,
                        logs: session.logs,
                    },
                ),
            )
        },
        stage => {
            if !success {
                return Step::Done(
                    Err(
                        ProvisionError::ExternalProcessFailure {
                            stage,
                            exit_code: output.exit_code,
                            detail: output.stderr.clone(),
                        },
                    ),
                );
            }
            match stage {
                BinaryStage::Init => {
                    session.logs.push("✅ Terraform initialized successfully".to_string());
                    session.logs.push("📋 Planning Terraform deployment...".to_string());
                    session.stage = BinaryStage::Plan;
                },
                BinaryStage::Plan => {
                    session.logs.push("✅ Terraform plan completed successfully".to_string());
                    session.logs.push("🚀 Applying Terraform configuration...".to_string());
                    session.stage = BinaryStage::Apply;
                },
                _ => {
                    session.logs.push("✅ Infrastructure provisioned successfully!".to_string());
                    session.stage = BinaryStage::Output;
                },
            }
            assert(session.logs.deep_view() =~= before + success_log(stage));
            let invocation = invocation_for(&session, session.stage);
            Step::Run { session, invocation }
        },
    }
}

} // verus!
