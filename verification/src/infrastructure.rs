//! The decision engine: from requirements and a fact sheet to a topology,
//! an instance size, a cost estimate and a justification.

use vstd::prelude::*;
use crate::json::{JsonTree, JsonValue, members_view};
use crate::nlp::{ApplicationType, CloudProvider, DeploymentRequirements, ScalingRequirements};
use crate::repository::RepositoryAnalysis;
use crate::text::{append_str, from_chars};

verus! {

/// The coarse shape of a deployment.
#[derive(Debug, Clone, Copy, PartialEq, Eq, Structural)]
pub enum DeploymentType {
    SingleVM,
    ContainerService,
    Serverless,
    Kubernetes,
    StaticSite,
}

/// One resource declaration: its type, its name and its attributes in
/// order.
#[derive(Debug, Clone, PartialEq)]
pub struct TerraformResource {
    pub resource_type: String,
    pub name: String,
    pub config: Vec<(String, JsonValue)>,
}

/// A resource graph with its input and output declarations, each list in
/// the order in which it is rendered.
#[derive(Debug, Clone, PartialEq)]
pub struct TerraformConfig {
    pub provider: String,
    pub resources: Vec<TerraformResource>,
    pub variables: Vec<(String, JsonValue)>,
    pub outputs: Vec<(String, JsonValue)>,
}

/// A deployment plan. `estimated_cost` is a monthly figure in cents, for
/// illustration only: it is no billing forecast.
#[derive(Debug, Clone, PartialEq)]
pub struct InfrastructureDecision {
    pub deployment_type: DeploymentType,
    pub instance_type: String,
    pub terraform_config: TerraformConfig,
    pub estimated_cost: u32,
    pub justification: String,
}

/// What a provisioning attempt reports.
#[derive(Debug, Clone, PartialEq)]
pub struct DeploymentResult {
    pub url: String,
    pub infrastructure_type: String,
    pub public_ip: Option<String>,
    pub logs: Vec<String>,
}

/// What a resource declaration stands for.
pub struct ResourceView {
    pub resource_type: Seq<char>,
    pub name: Seq<char>,
    pub config: Seq<(Seq<char>, JsonTree)>,
}

/// What a resource graph with its declarations stands for.
pub struct ConfigView {
    pub provider: Seq<char>,
    pub resources: Seq<ResourceView>,
    pub variables: Seq<(Seq<char>, JsonTree)>,
    pub outputs: Seq<(Seq<char>, JsonTree)>,
}

impl View for TerraformResource {
    type V = ResourceView;

    open spec fn view(&self) -> ResourceView {
        ResourceView {
            resource_type: self.resource_type@,
            name: self.name@,
            config: members_view(self.config@),
        }
    }
}

impl View for TerraformConfig {
    type V = ConfigView;

    open spec fn view(&self) -> ConfigView {
        ConfigView {
            provider: self.provider@,
            resources: Seq::new(self.resources@.len(), |i: int| self.resources@[i]@),
            variables: members_view(self.variables@),
            outputs: members_view(self.outputs@),
        }
    }
}

impl DeploymentType {
    /// The topology's label in results and messages.
    pub open spec fn spec_name(self) -> Seq<char> {
        match self {
            DeploymentType::SingleVM => "SingleVM"@,
            DeploymentType::ContainerService => "ContainerService"@,
            DeploymentType::Serverless => "Serverless"@,
            DeploymentType::Kubernetes => "Kubernetes"@,
            DeploymentType::StaticSite => "StaticSite"@,
        }
    }

    pub fn name(&self) -> (r: String)
        ensures
            r@ == self.spec_name(),
    {
        match self {
            DeploymentType::SingleVM => "SingleVM".to_string(),
            DeploymentType::ContainerService => "ContainerService".to_string(),
            DeploymentType::Serverless => "Serverless".to_string(),
            DeploymentType::Kubernetes => "Kubernetes".to_string(),
            DeploymentType::StaticSite => "StaticSite".to_string(),
        }
    }
}

/// The topology rule, in order: an explicit serverless or load-balanced
/// request decides; then a frontend application without a build step is a
/// static site; then a Docker configuration asks for a container service;
/// anything else is a single virtual machine.
pub open spec fn topology_of(
    scaling: ScalingRequirements,
    app_type: ApplicationType,
    requires_build_step: bool,
    has_docker: bool,
) -> DeploymentType {
    if scaling == ScalingRequirements::Serverless {
        DeploymentType::Serverless
    } else if scaling == ScalingRequirements::LoadBalanced {
        DeploymentType::Kubernetes
    } else if (app_type == ApplicationType::React || app_type == ApplicationType::NextJS)
        && !requires_build_step {
        DeploymentType::StaticSite
    } else if has_docker {
        DeploymentType::ContainerService
    } else {
        DeploymentType::SingleVM
    }
}

pub fn determine_deployment_type(
    requirements: &DeploymentRequirements,
    analysis: &RepositoryAnalysis,
) -> (r: DeploymentType)
    ensures
        r == topology_of(
            requirements.scaling_requirements,
            analysis.app_type,
            analysis.requires_build_step,
            analysis.docker_config is Some,
        ),
{
    match requirements.scaling_requirements {
        ScalingRequirements::Serverless => DeploymentType::Serverless,
        ScalingRequirements::LoadBalanced => DeploymentType::Kubernetes,
        _ => {
            let frontend = match analysis.app_type {
                ApplicationType::React => true,
                ApplicationType::NextJS => true,
                _ => false,
            };
            if frontend && !analysis.requires_build_step {
                DeploymentType::StaticSite
            } else if analysis.docker_config.is_some() {
                DeploymentType::ContainerService
            } else {
                DeploymentType::SingleVM
            }
        },
    }
}

/// An explicit scaling request always wins over what the workload looks
/// like: a serverless request gives a serverless topology and a
/// load-balanced request an orchestrated one, whatever the fact sheet says.
pub proof fn lemma_scaling_request_overrides(
    scaling: ScalingRequirements,
    app_type: ApplicationType,
    requires_build_step: bool,
    has_docker: bool,
)
    ensures
        scaling == ScalingRequirements::Serverless ==> topology_of(
            scaling,
            app_type,
            requires_build_step,
            has_docker,
        ) == DeploymentType::Serverless,
        scaling == ScalingRequirements::LoadBalanced ==> topology_of(
            scaling,
            app_type,
            requires_build_step,
            has_docker,
        ) == DeploymentType::Kubernetes,
        (scaling == ScalingRequirements::Single || scaling == ScalingRequirements::AutoScale)
            ==> topology_of(scaling, app_type, requires_build_step, has_docker) == topology_of(
            ScalingRequirements::Single,
            app_type,
            requires_build_step,
            has_docker,
        ),
{
}

/// The instance size table, with one provider-agnostic size wherever the
/// table has no entry.
pub open spec fn instance_type_of(deployment_type: DeploymentType, provider: CloudProvider) -> Seq<
    char,
> {
    match (deployment_type, provider) {
        (DeploymentType::SingleVM, CloudProvider::AWS) => "t3.micro"@,
        (DeploymentType::SingleVM, CloudProvider::GCP) => "e2-micro"@,
        (DeploymentType::SingleVM, CloudProvider::Azure) => "Standard_B1s"@,
        (DeploymentType::ContainerService, CloudProvider::AWS) => "t3.small"@,
        (DeploymentType::ContainerService, CloudProvider::GCP) => "e2-small"@,
        (DeploymentType::Kubernetes, CloudProvider::AWS) => "t3.medium"@,
        (DeploymentType::Kubernetes, CloudProvider::GCP) => "e2-medium"@,
        (DeploymentType::Serverless, _) => "lambda"@,
        (DeploymentType::StaticSite, _) => "static-hosting"@,
        _ => "smallest-general-purpose"@,
    }
}

pub fn determine_instance_type(deployment_type: &DeploymentType, cloud_provider: &CloudProvider) -> (r:
    String)
    ensures
        r@ == instance_type_of(*deployment_type, *cloud_provider),
{
    match (deployment_type, cloud_provider) {
        (DeploymentType::SingleVM, CloudProvider::AWS) => "t3.micro".to_string(),
        (DeploymentType::SingleVM, CloudProvider::GCP) => "e2-micro".to_string(),
        (DeploymentType::SingleVM, CloudProvider::Azure) => "Standard_B1s".to_string(),
        (DeploymentType::ContainerService, CloudProvider::AWS) => "t3.small".to_string(),
        (DeploymentType::ContainerService, CloudProvider::GCP) => "e2-small".to_string(),
        (DeploymentType::Kubernetes, CloudProvider::AWS) => "t3.medium".to_string(),
        (DeploymentType::Kubernetes, CloudProvider::GCP) => "e2-medium".to_string(),
        (DeploymentType::Serverless, _) => "lambda".to_string(),
        (DeploymentType::StaticSite, _) => "static-hosting".to_string(),
        _ => "smallest-general-purpose".to_string(),
    }
}

/// The monthly cost table, in cents, with a flat 1000 wherever the table
/// has no entry.
pub open spec fn cost_of(deployment_type: DeploymentType, provider: CloudProvider) -> u32 {
    match (deployment_type, provider) {
        (DeploymentType::SingleVM, CloudProvider::AWS) => 876,
        (DeploymentType::SingleVM, CloudProvider::GCP) => 532,
        (DeploymentType::ContainerService, _) => 2500,
        (DeploymentType::Kubernetes, _) => 7300,
        (DeploymentType::Serverless, _) => 500,
        (DeploymentType::StaticSite, _) => 100,
        _ => 1000,
    }
}

/// The estimated monthly cost in cents.
pub fn estimate_cost(deployment_type: &DeploymentType, cloud_provider: &CloudProvider) -> (r: u32)
    ensures
        r == cost_of(*deployment_type, *cloud_provider),
{
    match (deployment_type, cloud_provider) {
        (DeploymentType::SingleVM, CloudProvider::AWS) => 876,
        (DeploymentType::SingleVM, CloudProvider::GCP) => 532,
        (DeploymentType::ContainerService, _) => 2500,
        (DeploymentType::Kubernetes, _) => 7300,
        (DeploymentType::Serverless, _) => 500,
        (DeploymentType::StaticSite, _) => 100,
        _ => 1000,
    }
}

/// The decimal digit that writes `d`, for `d` below ten.
pub open spec fn digit_char(d: nat) -> char {
    if d == 0 {
        '0'
    } else if d == 1 {
        '1'
    } else if d == 2 {
        '2'
    } else if d == 3 {
        '3'
    } else if d == 4 {
        '4'
    } else if d == 5 {
        '5'
    } else if d == 6 {
        '6'
    } else if d == 7 {
        '7'
    } else if d == 8 {
        '8'
    } else {
        '9'
    }
}

/// The decimal numeral of `n`, without leading zeros.
pub open spec fn decimal_text(n: nat) -> Seq<char>
    decreases n,
{
    if n < 10 {
        seq![digit_char(n)]
    } else {
        decimal_text(n / 10).push(digit_char(n % 10))
    }
}

/// An amount of cents as dollars with two decimals, such as `8.76`.
pub open spec fn cost_text(cents: u32) -> Seq<char> {
    decimal_text((cents / 100) as nat) + seq![
        '.',
        digit_char(((cents / 10) % 10) as nat),
        digit_char((cents % 10) as nat),
    ]
}

fn digit_of(d: u32) -> (c: char)
    requires
        d < 10,
    ensures
        c == digit_char(d as nat),
{
    if d == 0 {
        '0'
    } else if d == 1 {
        '1'
    } else if d == 2 {
        '2'
    } else if d == 3 {
        '3'
    } else if d == 4 {
        '4'
    } else if d == 5 {
        '5'
    } else if d == 6 {
        '6'
    } else if d == 7 {
        '7'
    } else if d == 8 {
        '8'
    } else {
        '9'
    }
}

/// Appends the decimal numeral of `n` to `out`.
pub fn decimal_into(out: &mut Vec<char>, n: u32)
    ensures
        final(out)@ == old(out)@ + decimal_text(n as nat),
    decreases n,
{
    if n < 10 {
        out.push(digit_of(n));
        assert(out@ =~= old(out)@ + decimal_text(n as nat));
    } else {
        decimal_into(out, n / 10);
        out.push(digit_of(n % 10));
        assert(out@ =~= old(out)@ + decimal_text(n as nat));
    }
}

/// Appends an amount of cents, written as dollars with two decimals.
pub fn cost_into(out: &mut Vec<char>, cents: u32)
    ensures
        final(out)@ == old(out)@ + cost_text(cents),
{
    decimal_into(out, cents / 100);
    out.push('.');
    out.push(digit_of((cents / 10) % 10));
    out.push(digit_of(cents % 10));
    assert(out@ =~= old(out)@ + cost_text(cents));
}

/// The opening of the justification of a single machine.
pub const SINGLE_VM_HEAD: &'static str = "Single VM deployment chosen for ";

/// The reasons for a single machine.
pub const SINGLE_VM_REASONS: &'static str = " application. Cost-effective for simple apps with moderate traffic. Estimated cost: $";

/// The opening of the justification of a container service.
pub const CONTAINER_SERVICE_HEAD: &'static str = "Container service deployment chosen for ";

/// The reasons for a container service.
pub const CONTAINER_SERVICE_REASONS: &'static str = " application. Better scalability and isolation, suitable for applications with Docker configuration. Estimated cost: $";

/// The opening of the justification of a serverless deployment.
pub const SERVERLESS_HEAD: &'static str = "Serverless deployment chosen for ";

/// The reasons for a serverless deployment.
pub const SERVERLESS_REASONS: &'static str = " application. Automatic scaling and pay-per-use pricing, ideal for applications with variable traffic. Estimated cost: $";

/// The opening of the justification of an orchestrated deployment.
pub const KUBERNETES_HEAD: &'static str = "Kubernetes deployment chosen for ";

/// The reasons for an orchestrated deployment.
pub const KUBERNETES_REASONS: &'static str = " application. High availability and advanced orchestration, suitable for complex applications requiring load balancing. Estimated cost: $";

/// The opening of the justification of static hosting.
pub const STATIC_SITE_HEAD: &'static str = "Static site hosting chosen for ";

/// The reasons for static hosting.
pub const STATIC_SITE_REASONS: &'static str = " application. Most cost-effective for client-side rendered applications. Estimated cost: $";

/// The end of every justification.
pub const JUSTIFICATION_END: &'static str = "/month.";

/// How the justification of a topology opens.
pub open spec fn justification_head(deployment_type: DeploymentType) -> Seq<char> {
    match deployment_type {
        DeploymentType::SingleVM => SINGLE_VM_HEAD@,
        DeploymentType::ContainerService => CONTAINER_SERVICE_HEAD@,
        DeploymentType::Serverless => SERVERLESS_HEAD@,
        DeploymentType::Kubernetes => KUBERNETES_HEAD@,
        DeploymentType::StaticSite => STATIC_SITE_HEAD@,
    }
}

/// The reasons that the justification of a topology gives.
pub open spec fn justification_reasons(deployment_type: DeploymentType) -> Seq<char> {
    match deployment_type {
        DeploymentType::SingleVM => SINGLE_VM_REASONS@,
        DeploymentType::ContainerService => CONTAINER_SERVICE_REASONS@,
        DeploymentType::Serverless => SERVERLESS_REASONS@,
        DeploymentType::Kubernetes => KUBERNETES_REASONS@,
        DeploymentType::StaticSite => STATIC_SITE_REASONS@,
    }
}

/// The justification of a decision: the template of the topology, with
/// the detected application type and the cost estimate for the chosen
/// provider in its two blanks.
pub open spec fn justification_of(
    deployment_type: DeploymentType,
    provider: CloudProvider,
    app_type: ApplicationType,
) -> Seq<char> {
    justification_head(deployment_type) + app_type.spec_name() + justification_reasons(
        deployment_type,
    ) + cost_text(cost_of(deployment_type, provider)) + JUSTIFICATION_END@
}

pub fn generate_justification(
    deployment_type: &DeploymentType,
    requirements: &DeploymentRequirements,
    analysis: &RepositoryAnalysis,
) -> (r: String)
    ensures
        r@ == justification_of(*deployment_type, requirements.cloud_provider, analysis.app_type),
{
    let (head, reasons) = match deployment_type {
        DeploymentType::SingleVM => (SINGLE_VM_HEAD, SINGLE_VM_REASONS),
        DeploymentType::ContainerService => (CONTAINER_SERVICE_HEAD, CONTAINER_SERVICE_REASONS),
        DeploymentType::Serverless => (SERVERLESS_HEAD, SERVERLESS_REASONS),
        DeploymentType::Kubernetes => (KUBERNETES_HEAD, KUBERNETES_REASONS),
        DeploymentType::StaticSite => (STATIC_SITE_HEAD, STATIC_SITE_REASONS),
    };
    let mut out: Vec<char> = Vec::new();
    append_str(&mut out, head);
    let app = analysis.app_type.name();
    append_str(&mut out, app.as_str());
    append_str(&mut out, reasons);
    cost_into(&mut out, estimate_cost(deployment_type, &requirements.cloud_provider));
    append_str(&mut out, JUSTIFICATION_END);
    assert(out@ =~= justification_of(
        *deployment_type,
        requirements.cloud_provider,
        analysis.app_type,
    ));
    from_chars(&out)
}

/// The plan for a deployment: the topology rule, the two tables and the
/// justification template, around the resource graph that was drafted for
/// it.
pub fn decide_infrastructure(
    requirements: &DeploymentRequirements,
    analysis: &RepositoryAnalysis,
    terraform_config: TerraformConfig,
) -> (r: InfrastructureDecision)
    ensures
        r.deployment_type == topology_of(
            requirements.scaling_requirements,
            analysis.app_type,
            analysis.requires_build_step,
            analysis.docker_config is Some,
        ),
        r.instance_type@ == instance_type_of(r.deployment_type, requirements.cloud_provider),
        r.estimated_cost == cost_of(r.deployment_type, requirements.cloud_provider),
        r.justification@ == justification_of(
            r.deployment_type,
            requirements.cloud_provider,
            analysis.app_type,
        ),
        r.terraform_config == terraform_config,
{
    let deployment_type = determine_deployment_type(requirements, analysis);
    let instance_type = determine_instance_type(&deployment_type, &requirements.cloud_provider);
    let estimated_cost = estimate_cost(&deployment_type, &requirements.cloud_provider);
    let justification = generate_justification(&deployment_type, requirements, analysis);
    InfrastructureDecision {
        deployment_type,
        instance_type,
        terraform_config,
        estimated_cost,
        justification,
    }
}

} // verus!
