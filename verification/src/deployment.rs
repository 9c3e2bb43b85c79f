//! The decisions of a deployment run that stand between its steps: which
//! provider is meant, whether credentials are due, what to rewrite in the
//! fetched sources, which endpoint to report, and what a line of the
//! interactive session asks for.

use vstd::prelude::*;
use crate::credentials::CloudCredentials;
use crate::infrastructure::DeploymentResult;
use crate::nlp::{CloudProvider, provider_of_tag};
use crate::provision::ProvisionError;
use crate::tree::has_extension;
use crate::text::{
    append_str, copy_range, from_chars, has_prefix, has_suffix, lowercase, lowercase_of,
    replace_all, replaced, same_text, starts_with, text_is, to_chars, trim, trimmed,
};

verus! {

/// The provider that an operator names, in any case of letters.
pub fn parse_provider(name: &str) -> (r: CloudProvider)
    ensures
        r == provider_of_tag(lowercase_of(name@)),
{
    let lower = lowercase(name);
    CloudProvider::from_tag(lower.as_str())
}

/// The provider of a request: the operator's explicit choice where there
/// is one, the extracted provider otherwise.
pub fn resolve_provider(extracted: CloudProvider, chosen: Option<&str>) -> (r: CloudProvider)
    ensures
        r == (match chosen {
            Some(name) => provider_of_tag(lowercase_of(name@)),
            None => extracted,
        }),
{
    match chosen {
        Some(name) => parse_provider(name),
        None => extracted,
    }
}

/// Credentials are due for every run that provisions: for all but a dry
/// run that is not forced.
pub open spec fn credentials_due(dry_run: bool, force_deploy: bool) -> bool {
    !dry_run || force_deploy
}

/// Checks, before anything is fetched or provisioned, that the record
/// holds credentials for the provider of a run that needs them.
pub fn check_credentials(
    credentials: &CloudCredentials,
    provider: &CloudProvider,
    dry_run: bool,
    force_deploy: bool,
) -> (r: Result<(), ProvisionError>)
    ensures
        r is Err <==> credentials_due(dry_run, force_deploy) && !credentials.covers(*provider),
        r is Err ==> r == Err::<(), ProvisionError>(ProvisionError::CredentialMissing(*provider)),
{
    if (!dry_run || force_deploy) && !credentials.has_credentials_for(provider) {
        Err(ProvisionError::CredentialMissing(*provider))
    } else {
        Ok(())
    }
}

/// The endpoint of a result whose address is known but whose endpoint is
/// not: the address with the default application port.
pub open spec fn endpoint_at(address: Seq<char>) -> Seq<char> {
    "http://"@ + address + ":5000"@
}

/// Completes the result of a deployment: where the tool reported an
/// address but the endpoint is the literal `unknown`, the endpoint is built
/// from the address. Any other result stays as it is.
pub fn finalize_endpoint(result: DeploymentResult) -> (r: DeploymentResult)
    ensures
        r.infrastructure_type == result.infrastructure_type,
        r.public_ip == result.public_ip,
        r.logs == result.logs,
        r.url@ == (match result.public_ip {
            Some(address) => if result.url@ == "unknown"@ {
                endpoint_at(address@)
            } else {
                result.url@
            },
            None => result.url@,
        }),
{
    let mut result = result;
    let url = to_chars(result.url.as_str());
    match &result.public_ip {
        Some(address) => {
            if text_is(&url, "unknown") {
                let mut out = to_chars("http://");
                append_str(&mut out, address.as_str());
                append_str(&mut out, ":5000");
                result.url = from_chars(&out);
            }
        },
        None => {},
    }
    result
}

/// What the `regex` crate makes of a text when every match of `pattern`,
/// from left to right and without overlap, is replaced by `replacement`, in
/// which `$` refers to capture groups. `None` when `pattern` is no regular
/// expression.
pub uninterp spec fn regex_replaced(pattern: Seq<char>, text: Seq<char>, replacement: Seq<char>) -> Option<
    Seq<char>,
>;

/// Replaces every match of a pattern.
///
/// Trusted: the body compiles the pattern with `Regex::new` and copies what
/// `Regex::replace_all` returns. The contract only names the result: the
/// same pattern, text and replacement give the same answer.
#[verifier::external_body]
fn replace_pattern(pattern: &str, text: &str, replacement: &str) -> (r: Option<String>)
    ensures
        r.deep_view() == regex_replaced(pattern@, text@, replacement@),
{
    let expression = regex::Regex::new(pattern).ok()?;
    Some(expression.replace_all(text, replacement).to_string())
}

/// The text after one attempt to replace: the new text, or the old one when
/// the attempt gave nothing.
pub open spec fn replaced_or_same(text: Seq<char>, attempt: Option<Seq<char>>) -> Seq<char> {
    match attempt {
        Some(changed) => changed,
        None => text,
    }
}

/// The text after one attempt to replace.
pub fn apply_replacement(text: String, attempt: Option<String>) -> (r: String)
    ensures
        r@ == replaced_or_same(text@, attempt.deep_view()),
{
    match attempt {
        Some(changed) => changed,
        None => text,
    }
}

/// A host setting that names the loopback interface, in double quotes.
pub const HOST_NAMED_DOUBLE: &'static str = "host\\s*=\\s*\"localhost\"";

/// A host setting that names the loopback interface, in single quotes.
pub const HOST_NAMED_SINGLE: &'static str = "host\\s*=\\s*'localhost'";

/// A host setting with the loopback address, in double quotes.
pub const HOST_NUMBERED_DOUBLE: &'static str = "host\\s*=\\s*\"127\\.0\\.0\\.1\"";

/// A host setting with the loopback address, in single quotes.
pub const HOST_NUMBERED_SINGLE: &'static str = "host\\s*=\\s*'127\\.0\\.0\\.1'";

/// The host setting for every interface, in double quotes.
pub const HOST_ANY_DOUBLE: &'static str = "host=\"0.0.0.0\"";

/// The host setting for every interface, in single quotes.
pub const HOST_ANY_SINGLE: &'static str = "host='0.0.0.0'";

/// The host settings that bind a Python application to the loopback
/// interface, each with the setting that binds it to every interface.
pub open spec fn host_rewrites() -> Seq<(Seq<char>, Seq<char>)> {
    seq![
        (HOST_NAMED_DOUBLE@, HOST_ANY_DOUBLE@),
        (HOST_NAMED_SINGLE@, HOST_ANY_SINGLE@),
        (HOST_NUMBERED_DOUBLE@, HOST_ANY_DOUBLE@),
        (HOST_NUMBERED_SINGLE@, HOST_ANY_SINGLE@),
    ]
}

/// The text after the first `upto` host rewrites.
pub open spec fn hosts_rewritten(text: Seq<char>, upto: nat) -> Seq<char>
    decreases upto,
{
    if upto == 0 || upto > host_rewrites().len() {
        text
    } else {
        let before = hosts_rewritten(text, (upto - 1) as nat);
        replaced_or_same(
            before,
            regex_replaced(host_rewrites()[upto - 1].0, before, host_rewrites()[upto - 1].1),
        )
    }
}

/// A Python source in which a bare `app.run()` binds to every interface.
pub open spec fn bare_run_bound(content: Seq<char>) -> Seq<char> {
    replace_all(content, "app.run()"@, "app.run(host='0.0.0.0', port=5000)"@)
}

/// A source in which the loopback references that are left point at the
/// public address: the loopback name and the loopback address, and outside
/// Python sources the wildcard address too.
pub open spec fn address_set(text: Seq<char>, is_python: bool, address: Seq<char>) -> Seq<char> {
    let named = replace_all(replace_all(text, "localhost"@, address), "127.0.0.1"@, address);
    if is_python {
        named
    } else {
        replace_all(named, "0.0.0.0"@, address)
    }
}

/// A Python source made reachable: a bare `app.run()` binds to every
/// interface, host settings for the loopback interface do so too, and what
/// is left of loopback names becomes the public address.
pub open spec fn python_rewritten(content: Seq<char>, address: Seq<char>) -> Seq<char> {
    address_set(hosts_rewritten(bare_run_bound(content), 4), true, address)
}

/// Any other source made reachable: loopback names and the wildcard
/// address become the public address.
pub open spec fn other_rewritten(content: Seq<char>, address: Seq<char>) -> Seq<char> {
    address_set(content, false, address)
}

/// What a source file becomes when the loopback references in it are
/// rewritten for the public address.
pub open spec fn localhost_rewritten(content: Seq<char>, is_python: bool, address: Seq<char>) -> Seq<
    char,
> {
    if is_python {
        python_rewritten(content, address)
    } else {
        other_rewritten(content, address)
    }
}

/// Binds a bare `app.run()` of a Python source to every interface.
pub fn bind_bare_run(content: &str) -> (r: String)
    ensures
        r@ == bare_run_bound(content@),
{
    let given = to_chars(content);
    let bare = to_chars("app.run()");
    let bound_call = to_chars("app.run(host='0.0.0.0', port=5000)");
    from_chars(&replaced(&given, &bare, &bound_call))
}

/// Points the loopback references of a source at the public address.
pub fn set_address(text: &str, is_python: bool, public_ip: &str) -> (r: String)
    ensures
        r@ == address_set(text@, is_python, public_ip@),
{
    let given = to_chars(text);
    let address = to_chars(public_ip);
    let localhost = to_chars("localhost");
    let loopback = to_chars("127.0.0.1");
    let named = replaced(&given, &localhost, &address);
    let numbered = replaced(&named, &loopback, &address);
    if is_python {
        from_chars(&numbered)
    } else {
        let wildcard = to_chars("0.0.0.0");
        from_chars(&replaced(&numbered, &wildcard, &address))
    }
}

/// The new text of a file, or `None` when it is the text that the file
/// holds already.
pub fn changed_text(content: &str, rewritten: String) -> (r: Option<String>)
    ensures
        match r {
            Some(text) => text@ == rewritten@ && text@ != content@,
            None => rewritten@ == content@,
        },
{
    let given = to_chars(content);
    let result = to_chars(rewritten.as_str());
    if same_text(&result, &given) {
        None
    } else {
        Some(rewritten)
    }
}

/// Rewrites the loopback references of one source file for the public
/// address `public_ip`. Gives the new text, or `None` when nothing changes
/// and the file can stay as it is.
pub fn replace_localhost_in_file(content: &str, is_python: bool, public_ip: &str) -> (r: Option<String>)
    ensures
        match r {
            Some(text) => text@ == localhost_rewritten(content@, is_python, public_ip@) && text@
                != content@,
            None => localhost_rewritten(content@, is_python, public_ip@) == content@,
        },
{
    if !is_python {
        return changed_text(content, set_address(content, false, public_ip));
    }
    let bound = bind_bare_run(content);
    let mut text: String = bound.clone();
    assert(text@ == hosts_rewritten(bound@, 0));
    let attempt = replace_pattern(HOST_NAMED_DOUBLE, text.as_str(), HOST_ANY_DOUBLE);
    text = apply_replacement(text, attempt);
    assert(text@ == hosts_rewritten(bound@, 1));
    let attempt = replace_pattern(HOST_NAMED_SINGLE, text.as_str(), HOST_ANY_SINGLE);
    text = apply_replacement(text, attempt);
    assert(text@ == hosts_rewritten(bound@, 2));
    let attempt = replace_pattern(HOST_NUMBERED_DOUBLE, text.as_str(), HOST_ANY_DOUBLE);
    text = apply_replacement(text, attempt);
    assert(text@ == hosts_rewritten(bound@, 3));
    let attempt = replace_pattern(HOST_NUMBERED_SINGLE, text.as_str(), HOST_ANY_SINGLE);
    text = apply_replacement(text, attempt);
    assert(text@ == hosts_rewritten(bound@, 4));
    changed_text(content, set_address(text.as_str(), true, public_ip))
}

/// The extensions of the files in which loopback references are rewritten.
pub open spec fn rewritable_extensions() -> Seq<Seq<char>> {
    seq![
        "py"@,
        "js"@,
        "ts"@,
        "html"@,
        "css"@,
        "json"@,
        "yaml"@,
        "yml"@,
        "toml"@,
        "cfg"@,
        "ini"@,
    ]
}

/// The file name has one of the first `upto` rewritable extensions.
pub open spec fn has_rewritable_extension(name: Seq<char>, upto: nat) -> bool
    decreases upto,
{
    if upto == 0 || upto > rewritable_extensions().len() {
        false
    } else {
        has_rewritable_extension(name, (upto - 1) as nat) || has_extension(
            name,
            rewritable_extensions()[upto - 1],
        )
    }
}

/// Whether loopback references are rewritten in the file called
/// `file_name`: whether it is a source, markup or configuration file by
/// its extension.
pub fn is_rewritable(file_name: &str) -> (r: bool)
    ensures
        r == has_rewritable_extension(file_name@, rewritable_extensions().len()),
{
    let name = to_chars(file_name);
    let mut extensions: Vec<&str> = Vec::new();
    extensions.push("py");
    extensions.push("js");
    extensions.push("ts");
    extensions.push("html");
    extensions.push("css");
    extensions.push("json");
    extensions.push("yaml");
    extensions.push("yml");
    extensions.push("toml");
    extensions.push("cfg");
    extensions.push("ini");
    assert(Seq::new(extensions@.len(), |i: int| extensions@[i]@) =~= rewritable_extensions());
    let mut found = false;
    let mut i: usize = 0;
    while i < extensions.len()
        invariant
            i <= extensions.len(),
            name@ == file_name@,
            Seq::new(extensions@.len(), |i: int| extensions@[i]@) == rewritable_extensions(),
            found == has_rewritable_extension(file_name@, i as nat),
        decreases extensions.len() - i,
    {
        assert(rewritable_extensions()[i as int] == extensions@[i as int]@);
        let mut suffix: Vec<char> = Vec::new();
        suffix.push('.');
        append_str(&mut suffix, extensions[i]);
        assert(suffix@ =~= seq!['.'] + extensions@[i as int]@);
        if name.len() > suffix.len() && has_suffix(&name, &suffix) {
            found = true;
        }
        i = i + 1;
    }
    found
}

/// Whether a file is rewritten as a Python source.
pub fn is_python_source(file_name: &str) -> (r: bool)
    ensures
        r == has_extension(file_name@, "py"@),
{
    let name = to_chars(file_name);
    let mut suffix: Vec<char> = Vec::new();
    suffix.push('.');
    append_str(&mut suffix, "py");
    assert(suffix@ =~= seq!['.'] + "py"@);
    name.len() > suffix.len() && has_suffix(&name, &suffix)
}

/// What a line of the interactive session asks for.
#[derive(Debug, Clone, PartialEq)]
pub enum ChatCommand {
    /// Nothing was typed.
    Empty,
    Quit,
    Help,
    Status,
    /// Load and analyse the repository at the given reference.
    Load(String),
    /// Deploy the loaded repository as described.
    Deploy(String),
    /// Plan a deployment as described, without carrying it out.
    Plan(String),
    /// Anything else, as it was typed.
    Unknown(String),
}

/// What a command stands for, as plain values.
pub enum ChatCommandView {
    Empty,
    Quit,
    Help,
    Status,
    Load(Seq<char>),
    Deploy(Seq<char>),
    Plan(Seq<char>),
    Unknown(Seq<char>),
}

impl View for ChatCommand {
    type V = ChatCommandView;

    open spec fn view(&self) -> ChatCommandView {
        match self {
            ChatCommand::Empty => ChatCommandView::Empty,
            ChatCommand::Quit => ChatCommandView::Quit,
            ChatCommand::Help => ChatCommandView::Help,
            ChatCommand::Status => ChatCommandView::Status,
            ChatCommand::Load(s) => ChatCommandView::Load(s@),
            ChatCommand::Deploy(s) => ChatCommandView::Deploy(s@),
            ChatCommand::Plan(s) => ChatCommandView::Plan(s@),
            ChatCommand::Unknown(s) => ChatCommandView::Unknown(s@),
        }
    }
}

/// The command that a typed line stands for. `typed` is the line without
/// the white space around it and `lower` its lower-case form: the bare
/// words are taken in any case of letters, the words with an argument as
/// they are written.
pub open spec fn command_of(typed: Seq<char>, lower: Seq<char>) -> ChatCommandView {
    if typed.len() == 0 {
        ChatCommandView::Empty
    } else if lower == "quit"@ || lower == "exit"@ {
        ChatCommandView::Quit
    } else if lower == "help"@ {
        ChatCommandView::Help
    } else if lower == "status"@ {
        ChatCommandView::Status
    } else if starts_with(typed, "load "@) {
        ChatCommandView::Load(trim(typed.skip("load "@.len() as int)))
    } else if starts_with(typed, "deploy "@) {
        ChatCommandView::Deploy(trim(typed.skip("deploy "@.len() as int)))
    } else if starts_with(typed, "plan "@) {
        ChatCommandView::Plan(trim(typed.skip("plan "@.len() as int)))
    } else {
        ChatCommandView::Unknown(typed)
    }
}

/// The argument of a command: what follows `word`, trimmed.
fn argument_after(typed: &Vec<char>, word: &Vec<char>) -> (r: String)
    requires
        starts_with(typed@, word@),
    ensures
        r@ == trim(typed@.skip(word@.len() as int)),
{
    assert(typed@.skip(word@.len() as int) =~= typed@.subrange(
        word@.len() as int,
        typed@.len() as int,
    ));
    let rest = copy_range(typed, word.len(), typed.len());
    from_chars(&trimmed(&rest))
}

/// The command that a trimmed line with the lower-case form `lower` stands
/// for.
pub fn chat_command(typed: &str, lower: &str) -> (r: ChatCommand)
    ensures
        r@ == command_of(typed@, lower@),
{
    let t = to_chars(typed);
    let l = to_chars(lower);
    let load = to_chars("load ");
    let deploy = to_chars("deploy ");
    let plan = to_chars("plan ");
    if t.len() == 0 {
        ChatCommand::Empty
    } else if text_is(&l, "quit") || text_is(&l, "exit") {
        ChatCommand::Quit
    } else if text_is(&l, "help") {
        ChatCommand::Help
    } else if text_is(&l, "status") {
        ChatCommand::Status
    } else if has_prefix(&t, &load) {
        ChatCommand::Load(argument_after(&t, &load))
    } else if has_prefix(&t, &deploy) {
        ChatCommand::Deploy(argument_after(&t, &deploy))
    } else if has_prefix(&t, &plan) {
        ChatCommand::Plan(argument_after(&t, &plan))
    } else {
        ChatCommand::Unknown(typed.to_string())
    }
}

/// Reads one line of the interactive session.
pub fn parse_chat_command(input: &str) -> (r: ChatCommand)
    ensures
        r@ == command_of(trim(input@), lowercase_of(trim(input@))),
{
    let chars = to_chars(input);
    let typed = from_chars(&trimmed(&chars));
    let lower = lowercase(typed.as_str());
    chat_command(typed.as_str(), lower.as_str())
}

/// Whether the lower-case form of an answer says yes: whether it is the
/// letter `y`.
pub fn confirms(lower: &str) -> (r: bool)
    ensures
        r == (lower@ == "y"@),
{
    let l = to_chars(lower);
    text_is(&l, "y")
}

/// Whether an answer to the question whether to go on says yes: whether
/// it is the letter `y`, in either case, with white space around it at
/// most.
pub fn is_confirmation(answer: &str) -> (r: bool)
    ensures
        r == (lowercase_of(trim(answer@)) == "y"@),
{
    let chars = to_chars(answer);
    let typed = from_chars(&trimmed(&chars));
    let lower = lowercase(typed.as_str());
    confirms(lower.as_str())
}


/// The steps of a deployment run, in their order.
#[derive(Debug, Clone, Copy, PartialEq, Eq, Structural)]
pub enum DeployPhase {
    /// Ask the extraction service for the requirements in the description.
    ExtractRequirements,
    /// Load the credential record and check it for the provider.
    CheckCredentials,
    /// Fetch the working tree of the repository.
    CloneRepository,
    /// Ask for the public address of this machine.
    FindPublicAddress,
    /// Rewrite the loopback references in the fetched sources.
    RewriteSources,
    /// Analyse the working tree.
    AnalyzeRepository,
    /// Ask the drafting service for the resource graph.
    DraftConfiguration,
    /// Render the documents of the plan, as a dry run of provisioning.
    RenderFiles,
    /// Provision the infrastructure.
    Provision,
    /// The run is over.
    Done,
}

/// The step that follows `phase`. Credentials are checked only for a run
/// that needs them, and a dry run ends when the documents are rendered.
pub open spec fn phase_after(phase: DeployPhase, dry_run: bool, force_deploy: bool) -> DeployPhase {
    match phase {
        DeployPhase::ExtractRequirements => if credentials_due(dry_run, force_deploy) {
            DeployPhase::CheckCredentials
        } else {
            DeployPhase::CloneRepository
        },
        DeployPhase::CheckCredentials => DeployPhase::CloneRepository,
        DeployPhase::CloneRepository => DeployPhase::FindPublicAddress,
        DeployPhase::FindPublicAddress => DeployPhase::RewriteSources,
        DeployPhase::RewriteSources => DeployPhase::AnalyzeRepository,
        DeployPhase::AnalyzeRepository => DeployPhase::DraftConfiguration,
        DeployPhase::DraftConfiguration => DeployPhase::RenderFiles,
        DeployPhase::RenderFiles => if dry_run {
            DeployPhase::Done
        } else {
            DeployPhase::Provision
        },
        DeployPhase::Provision => DeployPhase::Done,
        DeployPhase::Done => DeployPhase::Done,
    }
}

/// The step that follows a step that succeeded.
pub fn next_phase(phase: DeployPhase, dry_run: bool, force_deploy: bool) -> (r: DeployPhase)
    ensures
        r == phase_after(phase, dry_run, force_deploy),
{
    match phase {
        DeployPhase::ExtractRequirements => if !dry_run || force_deploy {
            DeployPhase::CheckCredentials
        } else {
            DeployPhase::CloneRepository
        },
        DeployPhase::CheckCredentials => DeployPhase::CloneRepository,
        DeployPhase::CloneRepository => DeployPhase::FindPublicAddress,
        DeployPhase::FindPublicAddress => DeployPhase::RewriteSources,
        DeployPhase::RewriteSources => DeployPhase::AnalyzeRepository,
        DeployPhase::AnalyzeRepository => DeployPhase::DraftConfiguration,
        DeployPhase::DraftConfiguration => DeployPhase::RenderFiles,
        DeployPhase::RenderFiles => if dry_run {
            DeployPhase::Done
        } else {
            DeployPhase::Provision
        },
        DeployPhase::Provision => DeployPhase::Done,
        DeployPhase::Done => DeployPhase::Done,
    }
}

/// Whether a failure of `phase` ends the run. Only the two best-effort
/// steps, the lookup of the public address and the rewriting of the
/// sources, may fail without ending it.
pub fn failure_is_fatal(phase: DeployPhase) -> (r: bool)
    ensures
        r == !(phase == DeployPhase::FindPublicAddress || phase == DeployPhase::RewriteSources),
{
    match phase {
        DeployPhase::FindPublicAddress => false,
        DeployPhase::RewriteSources => false,
        _ => true,
    }
}

/// A dry run of a deployment never provisions: from its start to its end
/// it passes through no provisioning step, and unless it is forced it does
/// not ask for credentials either.
pub proof fn lemma_dry_run_never_provisions(phase: DeployPhase, force_deploy: bool)
    requires
        phase != DeployPhase::Provision,
    ensures
        phase_after(phase, true, force_deploy) != DeployPhase::Provision,
        !force_deploy ==> phase_after(phase, true, force_deploy) != DeployPhase::CheckCredentials,
{
}

/// The address that loopback references are rewritten to: the public
/// address when it was found, the wildcard address otherwise.
pub fn public_address_or_wildcard(found: Option<String>) -> (r: String)
    ensures
        r@ == (match found {
            Some(address) => address@,
            None => "0.0.0.0"@,
        }),
{
    match found {
        Some(address) => address,
        None => "0.0.0.0".to_string(),
    }
}

/// The result of a dry run of a deployment: the sentinel endpoint, the
/// topology label and the log of the rendering.
pub fn dry_run_result(rendering: DeploymentResult) -> (r: DeploymentResult)
    ensures
        r.url@ == "dry-run"@,
        r.infrastructure_type == rendering.infrastructure_type,
        r.public_ip is None,
        r.logs == rendering.logs,
{
    DeploymentResult {
        url: "dry-run".to_string(),
        infrastructure_type: rendering.infrastructure_type,
        public_ip: None,
        logs: rendering.logs,
    }
}

/// What the interactive session does for a command.
#[derive(Debug, Clone, PartialEq)]
pub enum ChatAction {
    /// Ask for the next line.
    Continue,
    Quit,
    ShowHelp,
    /// Show the fact sheet of the loaded repository.
    ShowStatus,
    /// Fetch and analyse the repository at the reference.
    Load(String),
    /// Deploy the loaded repository as described.
    Deploy(String),
    /// Plan the deployment of the loaded repository as described.
    Plan(String),
    /// Say the lines.
    Say(Vec<String>),
}

/// What an action stands for, as plain values.
pub enum ChatActionView {
    Continue,
    Quit,
    ShowHelp,
    ShowStatus,
    Load(Seq<char>),
    Deploy(Seq<char>),
    Plan(Seq<char>),
    Say(Seq<Seq<char>>),
}

impl View for ChatAction {
    type V = ChatActionView;

    open spec fn view(&self) -> ChatActionView {
        match self {
            ChatAction::Continue => ChatActionView::Continue,
            ChatAction::Quit => ChatActionView::Quit,
            ChatAction::ShowHelp => ChatActionView::ShowHelp,
            ChatAction::ShowStatus => ChatActionView::ShowStatus,
            ChatAction::Load(s) => ChatActionView::Load(s@),
            ChatAction::Deploy(s) => ChatActionView::Deploy(s@),
            ChatAction::Plan(s) => ChatActionView::Plan(s@),
            ChatAction::Say(lines) => ChatActionView::Say(lines.deep_view()),
        }
    }
}

/// The action for a command. Status, deployment and planning need a loaded
/// repository; without one the session says so. A line that is no command
/// is taken for a description when a repository is loaded.
pub open spec fn action_of(command: ChatCommandView, loaded: bool) -> ChatActionView {
    match command {
        ChatCommandView::Empty => ChatActionView::Continue,
        ChatCommandView::Quit => ChatActionView::Quit,
        ChatCommandView::Help => ChatActionView::ShowHelp,
        ChatCommandView::Status => if loaded {
            ChatActionView::ShowStatus
        } else {
            ChatActionView::Say(
                seq!["❌ No repository loaded. Use 'load <repo_url>' to load a repository."@],
            )
        },
        ChatCommandView::Load(reference) => ChatActionView::Load(reference),
        ChatCommandView::Deploy(description) => if loaded {
            ChatActionView::Deploy(description)
        } else {
            ChatActionView::Say(seq!["❌ No repository loaded. Use 'load <repo_url>' first."@])
        },
        ChatCommandView::Plan(description) => if loaded {
            ChatActionView::Plan(description)
        } else {
            ChatActionView::Say(seq!["❌ No repository loaded. Use 'load <repo_url>' first."@])
        },
        ChatCommandView::Unknown(typed) => if loaded {
            ChatActionView::Say(
                seq![
                    "🤔 Did you mean to deploy? Use 'deploy "@ + typed + "' to proceed."@,
                    "    Or use 'plan "@ + typed + "' to see the deployment plan."@,
                ],
            )
        } else {
            ChatActionView::Say(seq!["❓ Unknown command. Type 'help' for available commands."@])
        },
    }
}

/// One line made of three parts.
fn framed(head: &str, middle: &str, tail: &str) -> (r: String)
    ensures
        r@ == head@ + middle@ + tail@,
{
    let mut out = to_chars(head);
    append_str(&mut out, middle);
    append_str(&mut out, tail);
    from_chars(&out)
}

/// What the interactive session does for `command`, with or without a
/// loaded repository.
pub fn chat_action(command: ChatCommand, loaded: bool) -> (r: ChatAction)
    ensures
        r@ == action_of(command@, loaded),
{
    let mut lines: Vec<String> = Vec::new();
    match command {
        ChatCommand::Empty => ChatAction::Continue,
        ChatCommand::Quit => ChatAction::Quit,
        ChatCommand::Help => ChatAction::ShowHelp,
        ChatCommand::Status => {
            if loaded {
                ChatAction::ShowStatus
            } else {
                lines.push(
                    "❌ No repository loaded. Use 'load <repo_url>' to load a repository.".to_string(),
                );
                assert(lines.deep_view() =~= seq![
                    "❌ No repository loaded. Use 'load <repo_url>' to load a repository."@,
                ]);
                ChatAction::Say(lines)
            }
        },
        ChatCommand::Load(reference) => ChatAction::Load(reference),
        ChatCommand::Deploy(description) => {
            if loaded {
                ChatAction::Deploy(description)
            } else {
                lines.push("❌ No repository loaded. Use 'load <repo_url>' first.".to_string());
                assert(lines.deep_view() =~= seq![
                    "❌ No repository loaded. Use 'load <repo_url>' first."@,
                ]);
                ChatAction::Say(lines)
            }
        },
        ChatCommand::Plan(description) => {
            if loaded {
                ChatAction::Plan(description)
            } else {
                lines.push("❌ No repository loaded. Use 'load <repo_url>' first.".to_string());
                assert(lines.deep_view() =~= seq![
                    "❌ No repository loaded. Use 'load <repo_url>' first."@,
                ]);
                ChatAction::Say(lines)
            }
        },
        ChatCommand::Unknown(typed) => {
            if loaded {
                lines.push(
                    framed("🤔 Did you mean to deploy? Use 'deploy ", typed.as_str(), "' to proceed."),
                );
                lines.push(
                    framed("    Or use 'plan ", typed.as_str(), "' to see the deployment plan."),
                );
                assert(lines.deep_view() =~= seq![
                    "🤔 Did you mean to deploy? Use 'deploy "@ + typed@ + "' to proceed."@,
                    "    Or use 'plan "@ + typed@ + "' to see the deployment plan."@,
                ]);
            } else {
                lines.push("❓ Unknown command. Type 'help' for available commands.".to_string());
                assert(lines.deep_view() =~= seq![
                    "❓ Unknown command. Type 'help' for available commands."@,
                ]);
            }
            ChatAction::Say(lines)
        },
    }
}

} // verus!
