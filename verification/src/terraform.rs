//! The configuration generator: the four documents of a plan.

use vstd::prelude::*;
use crate::hcl::{
    SerializationError, escape_into, lemma_members_stay_unrepresentable, members_representable,
    quoted, render_attribute, render_into, representable,
};
use crate::infrastructure::{ConfigView, ResourceView, TerraformConfig, TerraformResource};
use crate::nlp::{CloudProvider, provider_of_tag};
use crate::json::{
    JsonTree, JsonValue, items_view, lemma_array_view, lemma_object_view, member_from, members_view,
};
use crate::text::{
    append_chars, append_str, contains, copy_range, find_from, first_match_from, from_chars,
    has_match, has_prefix, last_match, lemma_last_match, rfind, same_text, starts_with, text_is,
    to_chars,
};

verus! {

/// The step that a bootstrap script gets after it has fetched the source.
pub const LOOPBACK_REWRITE: &'static str = " && find . -name '*.py' -exec sed -i 's/127\\.0\\.0\\.1/0.0.0.0/g' {} \\; && find . -name '*.py' -exec sed -i 's/localhost/0.0.0.0/g' {} \\; && find . -name '*.html' -exec sed -i 's/http:\\/\\/localhost:5000//g' {} \\; && find . -name '*.js' -exec sed -i 's/http:\\/\\/localhost:5000//g' {} \\; && find . -name '*.ts' -exec sed -i 's/http:\\/\\/localhost:5000//g' {} \\;";

/// The provider and version declaration for AWS.
pub const AWS_PROVIDER_BLOCK: &'static str = "terraform {\n  required_providers {\n    aws = {\n      source  = \"hashicorp/aws\"\n      version = \"~> 5.0\"\n    }\n  }\n}\n\nprovider \"aws\" {\n  region = var.region\n}\n\n";

/// The provider and version declaration for GCP. It refers to the region
/// input only: the project reaches the provider through the environment of
/// each run, so that the declaration stands on the two fixed inputs alone.
pub const GCP_PROVIDER_BLOCK: &'static str = "terraform {\n  required_providers {\n    google = {\n      source  = \"hashicorp/google\"\n      version = \"~> 4.0\"\n    }\n  }\n}\n\nprovider \"google\" {\n  region = var.region\n}\n\n";

/// The declaration of the repository input, up to its default.
pub const REPOSITORY_INPUT: &'static str = "variable \"repository_url\" {\n  description = \"Repository URL\"\n  type = string\n  default = ";

/// The declaration of the region input, from the end of the repository
/// input up to its default.
pub const REGION_INPUT: &'static str = "\n}\n\nvariable \"region\" {\n  description = \"Cloud region\"\n  type = string\n  default = ";

/// The end of the region input.
pub const INPUT_END: &'static str = "\n}\n\n";

/// One rendered document.
#[derive(Debug, Clone, PartialEq)]
pub struct RenderedFile {
    pub name: String,
    pub text: String,
}

/// The step that a bootstrap script gets after it has fetched the source:
/// it rewrites loopback addresses in the fetched files to the wildcard
/// address.
pub open spec fn loopback_rewrite() -> Seq<char> {
    LOOPBACK_REWRITE@
}

/// Where the fetch of a script ends: behind its last `git clone`. `-1` for
/// a script that does not fetch.
pub open spec fn fetch_end(script: Seq<char>) -> int {
    let fetch = last_match(script, "git clone"@);
    if fetch < 0 {
        -1
    } else {
        fetch + "git clone"@.len()
    }
}

/// Where the rewrite step goes into a script that fetches source. The
/// step follows the fetch: it stands before the command that follows the
/// last change of directory behind the fetch, and at the end of the script
/// when there is no such change of directory or no command behind it. `-1`
/// stands for the end.
pub open spec fn rewrite_position(script: Seq<char>) -> int {
    let pos = last_match(script, " && cd "@);
    if pos < 0 || pos < fetch_end(script) {
        -1
    } else {
        first_match_from(script, " && "@, pos + 6)
    }
}

/// A bootstrap script with the rewrite step, when it fetches source; the
/// script itself when it does not.
pub open spec fn bootstrap_script(script: Seq<char>) -> Seq<char> {
    if !contains(script, "git clone"@) {
        script
    } else {
        let at = rewrite_position(script);
        if 0 <= at <= script.len() {
            script.take(at) + loopback_rewrite() + script.skip(at)
        } else {
            script + loopback_rewrite()
        }
    }
}

/// A string is taken for a bootstrap script; any other value stays as it
/// is.
pub open spec fn bootstrap_value(v: JsonTree) -> JsonTree {
    match v {
        JsonTree::Text(s) => JsonTree::Text(bootstrap_script(s)),
        _ => v,
    }
}

/// The attribute names under which a bootstrap script stands.
pub open spec fn is_bootstrap_key(key: Seq<char>) -> bool {
    key == "metadata_startup_script"@ || key == "user_data"@
}

/// A resource type that denotes a network-filtering rule.
pub open spec fn is_filter_rule(resource_type: Seq<char>) -> bool {
    contains(resource_type, "firewall"@)
}

/// The value that is written for the attribute `key`.
pub open spec fn attribute_value(key: Seq<char>, v: JsonTree) -> JsonTree {
    if is_bootstrap_key(key) {
        bootstrap_value(v)
    } else {
        v
    }
}

/// The declared name of a filtering rule gets the timestamp as a suffix.
pub open spec fn is_stamped(resource_type: Seq<char>, key: Seq<char>, v: JsonTree) -> bool {
    key == "name"@ && is_filter_rule(resource_type) && attribute_value(key, v) is Text
}

/// The line, or lines, of one attribute of a resource.
pub open spec fn attribute_line(
    resource_type: Seq<char>,
    key: Seq<char>,
    v: JsonTree,
    timestamp: Seq<char>,
) -> Seq<char> {
    let value = attribute_value(key, v);
    if is_stamped(resource_type, key, v) {
        "  name = "@ + quoted(value->Text_0 + "-"@ + timestamp) + "\n"@
    } else {
        "  "@ + render_attribute(key, value, "  "@) + "\n"@
    }
}

/// The lines of the first `upto` attributes of a resource.
pub open spec fn attribute_lines(resource: ResourceView, timestamp: Seq<char>, upto: nat) -> Seq<char>
    decreases upto,
{
    if upto == 0 || upto > resource.config.len() {
        Seq::empty()
    } else {
        attribute_lines(resource, timestamp, (upto - 1) as nat) + attribute_line(
            resource.resource_type,
            resource.config[upto - 1].0,
            resource.config[upto - 1].1,
            timestamp,
        )
    }
}

/// The block of one resource.
pub open spec fn resource_text(resource: ResourceView, timestamp: Seq<char>) -> Seq<char> {
    "resource \""@ + resource.resource_type + "\" \""@ + resource.name + "\" {\n"@ + attribute_lines(
        resource,
        timestamp,
        resource.config.len(),
    ) + "}\n\n"@
}

/// The blocks of the first `upto` resources.
pub open spec fn resources_text(resources: Seq<ResourceView>, timestamp: Seq<char>, upto: nat) -> Seq<
    char,
>
    decreases upto,
{
    if upto == 0 || upto > resources.len() {
        Seq::empty()
    } else {
        resources_text(resources, timestamp, (upto - 1) as nat) + resource_text(
            resources[upto - 1],
            timestamp,
        )
    }
}

/// Every attribute of the first `upto` resources can be written down.
pub open spec fn resources_representable(resources: Seq<ResourceView>, upto: nat) -> bool
    decreases upto,
{
    if upto == 0 || upto > resources.len() {
        true
    } else {
        &&& resources_representable(resources, (upto - 1) as nat)
        &&& members_representable(resources[upto - 1].config, resources[upto - 1].config.len())
    }
}

/// Every attribute of every resource can be written down.
pub open spec fn config_representable(config: ConfigView) -> bool {
    resources_representable(config.resources, config.resources.len())
}

/// The provider and version declaration. Providers other than AWS and GCP
/// get none.
pub open spec fn provider_text(provider: CloudProvider) -> Seq<char> {
    match provider {
        CloudProvider::AWS => AWS_PROVIDER_BLOCK@,
        CloudProvider::GCP => GCP_PROVIDER_BLOCK@,
        _ => Seq::empty(),
    }
}

/// The region that the `region` input defaults to.
pub open spec fn default_region(provider: CloudProvider) -> Seq<char> {
    match provider {
        CloudProvider::GCP => "us-central1"@,
        _ => "us-east-1"@,
    }
}

/// The text of the member `name` of a declaration, when it is a string.
pub open spec fn text_member(declaration: JsonTree, name: Seq<char>) -> Option<Seq<char>> {
    match declaration.member(name) {
        Some(v) => v.as_text(),
        None => None,
    }
}

/// The two inputs that every plan has.
pub open spec fn fixed_inputs(provider: CloudProvider, repo_url: Seq<char>) -> Seq<char> {
    REPOSITORY_INPUT@ + quoted(repo_url) + REGION_INPUT@ + quoted(default_region(provider))
        + INPUT_END@
}

/// Whether an input is written. The value that an input declares is its
/// default: an input that declares a default that is no string is left
/// out. An input without a default declares no value; it is written, and
/// has to be set when the plan is applied.
pub open spec fn input_is_written(declaration: JsonTree) -> bool {
    match declaration.member("default"@) {
        Some(value) => value is Text,
        None => true,
    }
}

/// Whether an output is written. The value that an output declares is its
/// `value`: an output is left out unless that is a string.
pub open spec fn output_is_written(declaration: JsonTree) -> bool {
    text_member(declaration, "value"@) is Some
}

/// One input declaration. Of `type` and `description` only those that are
/// strings are written.
pub open spec fn variable_block(name: Seq<char>, declaration: JsonTree) -> Seq<char> {
    "variable \""@ + name + "\" {\n"@ + (match text_member(declaration, "type"@) {
        Some(t) => "  type = "@ + t + "\n"@,
        None => Seq::empty(),
    }) + (match text_member(declaration, "description"@) {
        Some(d) => "  description = "@ + quoted(d) + "\n"@,
        None => Seq::empty(),
    }) + (match text_member(declaration, "default"@) {
        Some(d) => "  default = "@ + quoted(d) + "\n"@,
        None => Seq::empty(),
    }) + "}\n\n"@
}

/// One output declaration. The value is an expression and stands
/// unquoted; the description is written when it is a string.
pub open spec fn output_block(name: Seq<char>, declaration: JsonTree) -> Seq<char> {
    "output \""@ + name + "\" {\n"@ + (match text_member(declaration, "value"@) {
        Some(v) => "  value = "@ + v + "\n"@,
        None => Seq::empty(),
    }) + (match text_member(declaration, "description"@) {
        Some(d) => "  description = "@ + quoted(d) + "\n"@,
        None => Seq::empty(),
    }) + "}\n\n"@
}

/// `name` is the name of one of the first `upto` declarations.
pub open spec fn declared_among(declarations: Seq<(Seq<char>, JsonTree)>, name: Seq<char>, upto: nat) -> bool
    decreases upto,
{
    if upto == 0 || upto > declarations.len() {
        false
    } else {
        declarations[upto - 1].0 == name || declared_among(declarations, name, (upto - 1) as nat)
    }
}

/// The plan's own inputs among the first `upto`: one declaration for each
/// name that is not one of the two fixed inputs and has not been declared
/// before, unless the input declares a value that is no string. Such an
/// input is left out without a failure.
pub open spec fn variable_blocks(variables: Seq<(Seq<char>, JsonTree)>, upto: nat) -> Seq<char>
    decreases upto,
{
    if upto == 0 || upto > variables.len() {
        Seq::empty()
    } else {
        let name = variables[upto - 1].0;
        let before = variable_blocks(variables, (upto - 1) as nat);
        if name == "repository_url"@ || name == "region"@ || declared_among(
            variables,
            name,
            (upto - 1) as nat,
        ) || !input_is_written(variables[upto - 1].1) {
            before
        } else {
            before + variable_block(name, variables[upto - 1].1)
        }
    }
}

/// The outputs among the first `upto`: one declaration for each name that
/// has not been declared before, unless the value of the output is no
/// string. Such an output is left out without a failure.
pub open spec fn output_blocks(outputs: Seq<(Seq<char>, JsonTree)>, upto: nat) -> Seq<char>
    decreases upto,
{
    if upto == 0 || upto > outputs.len() {
        Seq::empty()
    } else {
        let name = outputs[upto - 1].0;
        let before = output_blocks(outputs, (upto - 1) as nat);
        if declared_among(outputs, name, (upto - 1) as nat) || !output_is_written(
            outputs[upto - 1].1,
        ) {
            before
        } else {
            before + output_block(name, outputs[upto - 1].1)
        }
    }
}

/// The resource-definition document.
pub open spec fn main_text(config: ConfigView, timestamp: Seq<char>) -> Seq<char> {
    resources_text(config.resources, timestamp, config.resources.len())
}

/// The inputs-declaration document.
pub open spec fn variables_text(config: ConfigView, repo_url: Seq<char>) -> Seq<char> {
    fixed_inputs(provider_of_tag(config.provider), repo_url) + variable_blocks(
        config.variables,
        config.variables.len(),
    )
}

/// The outputs-declaration document.
pub open spec fn outputs_text(config: ConfigView) -> Seq<char> {
    output_blocks(config.outputs, config.outputs.len())
}

/// The four documents of a plan, each with its file name.
pub open spec fn rendered_files(config: ConfigView, repo_url: Seq<char>, timestamp: Seq<char>) -> Seq<
    (Seq<char>, Seq<char>),
> {
    seq![
        ("provider.tf"@, provider_text(provider_of_tag(config.provider))),
        ("main.tf"@, main_text(config, timestamp)),
        ("variables.tf"@, variables_text(config, repo_url)),
        ("outputs.tf"@, outputs_text(config)),
    ]
}

/// The documents as pairs of name and text.
pub open spec fn files_view(files: Seq<RenderedFile>) -> Seq<(Seq<char>, Seq<char>)> {
    Seq::new(files.len(), |i: int| (files[i].name@, files[i].text@))
}

/// The script with the rewrite step in its place.
pub fn with_loopback_rewrite(script: &Vec<char>) -> (r: Vec<char>)
    ensures
        r@ == bootstrap_script(script@),
{
    let fetch = to_chars("git clone");
    if !has_match(script, &fetch) {
        assert(script@.subrange(0, script@.len() as int) =~= script@);
        return copy_range(script, 0, script.len());
    }
    let change_dir = to_chars(" && cd ");
    let and_then = to_chars(" && ");
    let step = to_chars(LOOPBACK_REWRITE);
    proof {
        lemma_last_match(script@, fetch@);
        lemma_last_match(script@, change_dir@);
    }
    let fetched: usize = match rfind(script, &fetch) {
        Some(at) => {
            assert(crate::text::matches_at(script@, fetch@, at as int));
            at + fetch.len()
        },
        None => 0,
    };
    let place: Option<usize> = match rfind(script, &change_dir) {
        Some(pos) => {
            if pos < fetched {
                None
            } else {
                proof {
                    reveal_strlit(" && cd ");
                    crate::text::lemma_first_match_from(script@, and_then@, pos + 6);
                }
                find_from(script, &and_then, pos + 6)
            }
        },
        None => None,
    };
    let mut out: Vec<char> = Vec::new();
    match place {
        Some(at) => {
            let head = copy_range(script, 0, at);
            let tail = copy_range(script, at, script.len());
            append_chars(&mut out, &head);
            append_chars(&mut out, &step);
            append_chars(&mut out, &tail);
            assert(out@ =~= script@.take(at as int) + loopback_rewrite() + script@.skip(at as int));
        },
        None => {
            append_chars(&mut out, script);
            append_chars(&mut out, &step);
            assert(out@ =~= script@ + loopback_rewrite());
        },
    }
    out
}

/// The rewrite step is one piece that stands behind the fetch: a script
/// that fetches source becomes itself with the step put in at one place,
/// and that place lies behind the last `git clone`. Taking the step out
/// again gives the script back.
pub proof fn lemma_rewrite_follows_fetch(script: Seq<char>)
    requires
        contains(script, "git clone"@),
    ensures
        exists|at: int|
            fetch_end(script) <= at <= script.len() && 0 <= fetch_end(script)
                && #[trigger] script.take(at) + loopback_rewrite() + script.skip(at)
                == bootstrap_script(script),
{
    lemma_last_match(script, "git clone"@);
    lemma_last_match(script, " && cd "@);
    let end = fetch_end(script);
    assert(0 <= end <= script.len());
    let at = rewrite_position(script);
    if 0 <= at <= script.len() {
        let pos = last_match(script, " && cd "@);
        crate::text::lemma_first_match_from(script, " && "@, pos + 6);
        assert(end <= at);
        assert(script.take(at) + loopback_rewrite() + script.skip(at) == bootstrap_script(script));
    } else {
        let last = script.len() as int;
        assert(script.take(last) + loopback_rewrite() + script.skip(last) =~= script
            + loopback_rewrite());
    }
}

/// A bootstrap script with the step that makes the fetched application
/// reachable from outside; any value that is no string unchanged.
pub fn replace_git_clone_with_download(script: &JsonValue, _download_url: &str) -> (r: JsonValue)
    ensures
        r@ == bootstrap_value(script@),
{
    match script {
        JsonValue::Text(s) => {
            let chars = to_chars(s.as_str());
            let changed = with_loopback_rewrite(&chars);
            JsonValue::Text(from_chars(&changed))
        },
        _ => script.duplicate(),
    }
}

/// Whether `key` is a name under which a bootstrap script stands.
fn holds_bootstrap(key: &Vec<char>) -> (r: bool)
    ensures
        r == is_bootstrap_key(key@),
{
    text_is(key, "metadata_startup_script") || text_is(key, "user_data")
}

/// Appends the lines of one attribute of a resource to `out`.
fn attribute_into(
    out: &mut Vec<char>,
    resource_type: &Vec<char>,
    key: &Vec<char>,
    value: &JsonValue,
    timestamp: &Vec<char>,
) -> (r: Result<(), SerializationError>)
    ensures
        r is Ok <==> representable(value@),
        r is Ok ==> final(out)@ == old(out)@ + attribute_line(
            resource_type@,
            key@,
            value@,
            timestamp@,
        ),
{
    let firewall = to_chars("firewall");
    let stamped_name = text_is(key, "name") && has_match(resource_type, &firewall);
    if holds_bootstrap(key) {
        let processed = replace_git_clone_with_download(value, "");
        attribute_value_into(out, stamped_name, key, &processed, timestamp)
    } else {
        attribute_value_into(out, stamped_name, key, value, timestamp)
    }
}

/// Appends the lines of an attribute whose value is ready to be written.
fn attribute_value_into(
    out: &mut Vec<char>,
    stamped_name: bool,
    key: &Vec<char>,
    value: &JsonValue,
    timestamp: &Vec<char>,
) -> (r: Result<(), SerializationError>)
    ensures
        r is Ok <==> representable(value@),
        r is Ok ==> final(out)@ == old(out)@ + (if stamped_name && value@ is Text {
            "  name = "@ + quoted(value@->Text_0 + "-"@ + timestamp@) + "\n"@
        } else {
            "  "@ + render_attribute(key@, value@, "  "@) + "\n"@
        }),
{
    if stamped_name {
        match value {
            JsonValue::Text(name) => {
                let mut unique: Vec<char> = to_chars(name.as_str());
                append_str(&mut unique, "-");
                append_chars(&mut unique, timestamp);
                append_str(out, "  name = ");
                out.push('"');
                escape_into(out, &unique);
                out.push('"');
                append_str(out, "\n");
                assert(out@ =~= old(out)@ + ("  name = "@ + quoted(
                    value@->Text_0 + "-"@ + timestamp@,
                ) + "\n"@));
                return Ok(());
            },
            _ => {},
        }
    }
    let indent = to_chars("  ");
    append_str(out, "  ");
    match render_into(out, key, value, &indent) {
        Ok(()) => {},
        Err(e) => {
            return Err(e);
        },
    }
    append_str(out, "\n");
    assert(out@ =~= old(out)@ + ("  "@ + render_attribute(key@, value@, "  "@) + "\n"@));
    Ok(())
}

/// Appends the block of one resource to `out`.
fn resource_into(out: &mut Vec<char>, resource: &TerraformResource, timestamp: &Vec<char>) -> (r:
    Result<(), SerializationError>)
    ensures
        r is Ok <==> members_representable(resource@.config, resource@.config.len()),
        r is Ok ==> final(out)@ == old(out)@ + resource_text(resource@, timestamp@),
{
    let resource_type = to_chars(resource.resource_type.as_str());
    append_str(out, "resource \"");
    append_chars(out, &resource_type);
    append_str(out, "\" \"");
    append_str(out, resource.name.as_str());
    append_str(out, "\" {\n");
    let ghost head = out@;
    let ghost view = resource@;
    let mut i: usize = 0;
    assert(out@ =~= head + attribute_lines(view, timestamp@, 0));
    while i < resource.config.len()
        invariant
            i <= resource.config.len(),
            view == resource@,
            resource_type@ == view.resource_type,
            members_representable(view.config, i as nat),
            out@ == head + attribute_lines(view, timestamp@, i as nat),
        decreases resource.config.len() - i,
    {
        let key = to_chars(resource.config[i].0.as_str());
        assert(view.config[i as int] == (resource.config@[i as int].0@, resource.config@[i as int].1@));
        match attribute_into(out, &resource_type, &key, &resource.config[i].1, timestamp) {
            Ok(()) => {},
            Err(e) => {
                proof {
                    lemma_members_stay_unrepresentable(
                        view.config,
                        (i + 1) as nat,
                        view.config.len(),
                    );
                }
                return Err(e);
            },
        }
        assert(out@ =~= head + attribute_lines(view, timestamp@, (i + 1) as nat));
        i = i + 1;
    }
    append_str(out, "}\n\n");
    assert(out@ =~= old(out)@ + resource_text(view, timestamp@));
    Ok(())
}

pub proof fn lemma_resources_stay_unrepresentable(resources: Seq<ResourceView>, at: nat, upto: nat)
    requires
        !resources_representable(resources, at),
        at <= upto <= resources.len(),
    ensures
        !resources_representable(resources, upto),
    decreases upto - at,
{
    if at < upto {
        lemma_resources_stay_unrepresentable(resources, at, (upto - 1) as nat);
    }
}

/// The resource-definition document of `config`.
fn render_main(config: &TerraformConfig, timestamp: &Vec<char>) -> (r: Result<
    Vec<char>,
    SerializationError,
>)
    ensures
        r is Ok <==> config_representable(config@),
        r matches Ok(text) ==> text@ == main_text(config@, timestamp@),
{
    let mut out: Vec<char> = Vec::new();
    let ghost view = config@;
    let mut i: usize = 0;
    assert(out@ =~= resources_text(view.resources, timestamp@, 0));
    while i < config.resources.len()
        invariant
            i <= config.resources.len(),
            view == config@,
            resources_representable(view.resources, i as nat),
            out@ == resources_text(view.resources, timestamp@, i as nat),
        decreases config.resources.len() - i,
    {
        assert(view.resources[i as int] == config.resources@[i as int]@);
        match resource_into(&mut out, &config.resources[i], timestamp) {
            Ok(()) => {},
            Err(e) => {
                proof {
                    lemma_resources_stay_unrepresentable(
                        view.resources,
                        (i + 1) as nat,
                        view.resources.len(),
                    );
                }
                return Err(e);
            },
        }
        i = i + 1;
    }
    Ok(out)
}

/// The provider and version declaration document.
fn render_provider(provider: CloudProvider) -> (r: Vec<char>)
    ensures
        r@ == provider_text(provider),
{
    match provider {
        CloudProvider::AWS => to_chars(AWS_PROVIDER_BLOCK),
        CloudProvider::GCP => to_chars(GCP_PROVIDER_BLOCK),
        _ => Vec::new(),
    }
}

/// Appends `  label = "text"` and a line feed when the member `member` of
/// `declaration` is a string; `quote` says whether the text is quoted.
fn member_line_into(
    out: &mut Vec<char>,
    declaration: &JsonValue,
    member: &str,
    label: &str,
    quote: bool,
)
    ensures
        final(out)@ == old(out)@ + (match text_member(declaration@, member@) {
            Some(t) => label@ + (if quote {
                quoted(t)
            } else {
                t
            }) + "\n"@,
            None => Seq::empty(),
        }),
{
    let found: Option<&str> = match declaration.member(member) {
        Some(v) => v.as_text(),
        None => None,
    };
    match found {
        Some(t) => {
            let chars = to_chars(t);
            append_str(out, label);
            if quote {
                out.push('"');
                escape_into(out, &chars);
                out.push('"');
            } else {
                append_chars(out, &chars);
            }
            append_str(out, "\n");
            assert(out@ =~= old(out)@ + (label@ + (if quote {
                quoted(t@)
            } else {
                t@
            }) + "\n"@));
        },
        None => {
            assert(out@ =~= old(out)@ + Seq::<char>::empty());
        },
    }
}

/// Whether `name` is the name of one of the first `upto` declarations.
fn is_declared(declarations: &Vec<(String, JsonValue)>, name: &Vec<char>, upto: usize) -> (r: bool)
    requires
        upto <= declarations.len(),
    ensures
        r == declared_among(members_view(declarations@), name@, upto as nat),
{
    let mut i: usize = 0;
    while i < upto
        invariant
            i <= upto <= declarations.len(),
            !declared_among(members_view(declarations@), name@, i as nat),
        decreases upto - i,
    {
        let other = to_chars(declarations[i].0.as_str());
        if same_text(&other, name) {
            proof {
                lemma_declared_stays(members_view(declarations@), name@, (i + 1) as nat, upto as nat);
            }
            return true;
        }
        i = i + 1;
    }
    false
}

proof fn lemma_declared_stays(declarations: Seq<(Seq<char>, JsonTree)>, name: Seq<char>, at: nat, upto: nat)
    requires
        declared_among(declarations, name, at),
        at <= upto <= declarations.len(),
    ensures
        declared_among(declarations, name, upto),
    decreases upto - at,
{
    if at < upto {
        lemma_declared_stays(declarations, name, at, (upto - 1) as nat);
    }
}

/// Whether the input with this declaration is written.
fn writes_input(declaration: &JsonValue) -> (r: bool)
    ensures
        r == input_is_written(declaration@),
{
    match declaration.member("default") {
        Some(value) => value.as_text().is_some(),
        None => true,
    }
}

/// Whether the output with this declaration is written.
fn writes_output(declaration: &JsonValue) -> (r: bool)
    ensures
        r == output_is_written(declaration@),
{
    match declaration.member("value") {
        Some(value) => value.as_text().is_some(),
        None => false,
    }
}

/// Appends the declaration of one input.
fn variable_block_into(out: &mut Vec<char>, name: &Vec<char>, declaration: &JsonValue)
    ensures
        final(out)@ == old(out)@ + variable_block(name@, declaration@),
{
    append_str(out, "variable \"");
    append_chars(out, name);
    append_str(out, "\" {\n");
    let ghost head = out@;
    member_line_into(out, declaration, "type", "  type = ", false);
    let ghost typed = out@;
    member_line_into(out, declaration, "description", "  description = ", true);
    let ghost described = out@;
    member_line_into(out, declaration, "default", "  default = ", true);
    let ghost defaulted = out@;
    append_str(out, "}\n\n");
    assert(head =~= old(out)@ + ("variable \""@ + name@ + "\" {\n"@));
    assert(out@ =~= old(out)@ + variable_block(name@, declaration@));
}

/// Appends the declaration of one output.
fn output_block_into(out: &mut Vec<char>, name: &Vec<char>, declaration: &JsonValue)
    ensures
        final(out)@ == old(out)@ + output_block(name@, declaration@),
{
    append_str(out, "output \"");
    append_chars(out, name);
    append_str(out, "\" {\n");
    let ghost head = out@;
    member_line_into(out, declaration, "value", "  value = ", false);
    member_line_into(out, declaration, "description", "  description = ", true);
    append_str(out, "}\n\n");
    assert(head =~= old(out)@ + ("output \""@ + name@ + "\" {\n"@));
    assert(out@ =~= old(out)@ + output_block(name@, declaration@));
}

/// The two inputs that every plan has.
fn fixed_inputs_text(provider: CloudProvider, repo_url: &Vec<char>) -> (r: Vec<char>)
    ensures
        r@ == fixed_inputs(provider, repo_url@),
{
    let mut out: Vec<char> = Vec::new();
    append_str(&mut out, REPOSITORY_INPUT);
    out.push('"');
    escape_into(&mut out, repo_url);
    out.push('"');
    append_str(&mut out, REGION_INPUT);
    let region = match provider {
        CloudProvider::GCP => to_chars("us-central1"),
        _ => to_chars("us-east-1"),
    };
    out.push('"');
    escape_into(&mut out, &region);
    out.push('"');
    append_str(&mut out, INPUT_END);
    assert(out@ =~= fixed_inputs(provider, repo_url@));
    out
}

/// The inputs-declaration document of `config`.
fn render_variables(config: &TerraformConfig, repo_url: &Vec<char>) -> (r: Vec<char>)
    ensures
        r@ == variables_text(config@, repo_url@),
{
    let provider = CloudProvider::from_tag(config.provider.as_str());
    let mut out: Vec<char> = fixed_inputs_text(provider, repo_url);
    let ghost head = out@;
    let ghost variables = members_view(config.variables@);
    let mut i: usize = 0;
    assert(out@ =~= head + variable_blocks(variables, 0));
    while i < config.variables.len()
        invariant
            i <= config.variables.len(),
            variables == members_view(config.variables@),
            out@ == head + variable_blocks(variables, i as nat),
        decreases config.variables.len() - i,
    {
        let name = to_chars(config.variables[i].0.as_str());
        let declaration = &config.variables[i].1;
        assert(variables[i as int] == (config.variables@[i as int].0@, config.variables@[i as int].1@));
        let skip = text_is(&name, "repository_url") || text_is(&name, "region") || is_declared(
            &config.variables,
            &name,
            i,
        ) || !writes_input(declaration);
        if !skip {
            variable_block_into(&mut out, &name, declaration);
        }
        i = i + 1;
    }
    out
}

/// The outputs-declaration document of `config`.
fn render_outputs(config: &TerraformConfig) -> (r: Vec<char>)
    ensures
        r@ == outputs_text(config@),
{
    let mut out: Vec<char> = Vec::new();
    let ghost outputs = members_view(config.outputs@);
    let mut i: usize = 0;
    assert(out@ =~= output_blocks(outputs, 0));
    while i < config.outputs.len()
        invariant
            i <= config.outputs.len(),
            outputs == members_view(config.outputs@),
            out@ == output_blocks(outputs, i as nat),
        decreases config.outputs.len() - i,
    {
        let name = to_chars(config.outputs[i].0.as_str());
        let declaration = &config.outputs[i].1;
        assert(outputs[i as int] == (config.outputs@[i as int].0@, config.outputs@[i as int].1@));
        if !is_declared(&config.outputs, &name, i) && writes_output(declaration) {
            output_block_into(&mut out, &name, declaration);
        }
        i = i + 1;
    }
    out
}

/// Renders the four documents of a plan: the provider declaration, the
/// resources, the inputs and the outputs. `timestamp` is the suffix that
/// the names of filtering rules get. Fails exactly when some attribute of
/// some resource cannot be written down; an empty resource graph gives an
/// empty resource document.
pub fn generate_terraform_files(config: &TerraformConfig, repo_url: &str, timestamp: &str) -> (r:
    Result<Vec<RenderedFile>, SerializationError>)
    ensures
        match r {
            Ok(files) => config_representable(config@) && files_view(files@) == rendered_files(
                config@,
                repo_url@,
                timestamp@,
            ),
            Err(e) => !config_representable(config@) && e == SerializationError::UnsupportedValue,
        },
{
    let stamp = to_chars(timestamp);
    let url = to_chars(repo_url);
    let provider = CloudProvider::from_tag(config.provider.as_str());
    let main = match render_main(config, &stamp) {
        Ok(text) => text,
        Err(e) => {
            return Err(SerializationError::UnsupportedValue);
        },
    };
    let provider_tf = render_provider(provider);
    let variables = render_variables(config, &url);
    let outputs = render_outputs(config);
    let mut files: Vec<RenderedFile> = Vec::new();
    files.push(RenderedFile { name: "provider.tf".to_string(), text: from_chars(&provider_tf) });
    files.push(RenderedFile { name: "main.tf".to_string(), text: from_chars(&main) });
    files.push(RenderedFile { name: "variables.tf".to_string(), text: from_chars(&variables) });
    files.push(RenderedFile { name: "outputs.tf".to_string(), text: from_chars(&outputs) });
    assert(files_view(files@) =~= rendered_files(config@, repo_url@, timestamp@));
    Ok(files)
}


/// None of the first `upto` attributes of the resource is a name that gets
/// the timestamp.
pub open spec fn stamps_no_attribute(resource: ResourceView, upto: nat) -> bool
    decreases upto,
{
    if upto == 0 || upto > resource.config.len() {
        true
    } else {
        stamps_no_attribute(resource, (upto - 1) as nat) && !is_stamped(
            resource.resource_type,
            resource.config[upto - 1].0,
            resource.config[upto - 1].1,
        )
    }
}

/// None of the first `upto` resources has a name that gets the timestamp.
pub open spec fn stamps_nothing(resources: Seq<ResourceView>, upto: nat) -> bool
    decreases upto,
{
    if upto == 0 || upto > resources.len() {
        true
    } else {
        stamps_nothing(resources, (upto - 1) as nat) && stamps_no_attribute(
            resources[upto - 1],
            resources[upto - 1].config.len(),
        )
    }
}

/// The timestamp shows in the line of an attribute only where the line is
/// the declared name of a filtering rule, and there only as the suffix of
/// that name.
pub proof fn lemma_attribute_line_timestamp(
    resource_type: Seq<char>,
    key: Seq<char>,
    v: JsonTree,
    first: Seq<char>,
    second: Seq<char>,
)
    ensures
        !is_stamped(resource_type, key, v) ==> attribute_line(resource_type, key, v, first)
            == attribute_line(resource_type, key, v, second),
        is_stamped(resource_type, key, v) ==> attribute_line(resource_type, key, v, first)
            == "  name = "@ + quoted(attribute_value(key, v)->Text_0 + "-"@ + first) + "\n"@,
{
}

proof fn lemma_attribute_lines_timestamp(
    resource: ResourceView,
    first: Seq<char>,
    second: Seq<char>,
    upto: nat,
)
    requires
        upto <= resource.config.len(),
        stamps_no_attribute(resource, upto),
    ensures
        attribute_lines(resource, first, upto) == attribute_lines(resource, second, upto),
    decreases upto,
{
    if upto > 0 {
        lemma_attribute_lines_timestamp(resource, first, second, (upto - 1) as nat);
    }
}

proof fn lemma_resources_timestamp(
    resources: Seq<ResourceView>,
    first: Seq<char>,
    second: Seq<char>,
    upto: nat,
)
    requires
        upto <= resources.len(),
        stamps_nothing(resources, upto),
    ensures
        resources_text(resources, first, upto) == resources_text(resources, second, upto),
    decreases upto,
{
    if upto > 0 {
        lemma_resources_timestamp(resources, first, second, (upto - 1) as nat);
        lemma_attribute_lines_timestamp(
            resources[upto - 1],
            first,
            second,
            resources[upto - 1].config.len(),
        );
    }
}

/// Rendering is repeatable: the documents are a function of the plan, the
/// repository reference and the timestamp. Two renderings of one plan at
/// different moments give the same provider, inputs and outputs documents,
/// and the same resource document too unless the plan declares the name of
/// a filtering rule.
pub proof fn lemma_rendering_is_repeatable(
    config: ConfigView,
    repo_url: Seq<char>,
    first: Seq<char>,
    second: Seq<char>,
)
    ensures
        rendered_files(config, repo_url, first).len() == 4,
        rendered_files(config, repo_url, second).len() == 4,
        rendered_files(config, repo_url, first)[0] == rendered_files(config, repo_url, second)[0],
        rendered_files(config, repo_url, first)[2] == rendered_files(config, repo_url, second)[2],
        rendered_files(config, repo_url, first)[3] == rendered_files(config, repo_url, second)[3],
        rendered_files(config, repo_url, first)[1].0 == rendered_files(config, repo_url, second)[1].0,
        stamps_nothing(config.resources, config.resources.len()) ==> rendered_files(
            config,
            repo_url,
            first,
        ) == rendered_files(config, repo_url, second),
        first == second ==> rendered_files(config, repo_url, first) == rendered_files(
            config,
            repo_url,
            second,
        ),
{
    if stamps_nothing(config.resources, config.resources.len()) {
        lemma_resources_timestamp(config.resources, first, second, config.resources.len());
    }
}

/// A plan without resources renders a resource document without a single
/// block, whatever its declarations are, and its four documents are always
/// there.
pub proof fn lemma_empty_graph(config: ConfigView, repo_url: Seq<char>, timestamp: Seq<char>)
    requires
        config.resources.len() == 0,
    ensures
        config_representable(config),
        main_text(config, timestamp) == Seq::<char>::empty(),
        rendered_files(config, repo_url, timestamp).len() == 4,
{
}


/// A character of the name of a variable: a letter, a digit, an underscore
/// or a hyphen.
pub open spec fn is_name_char(c: char) -> bool {
    ('a' <= c <= 'z') || ('A' <= c <= 'Z') || ('0' <= c <= '9') || c == '_' || c == '-'
}

/// Where the name that begins at `from` ends.
pub open spec fn name_end(s: Seq<char>, from: int) -> int
    decreases s.len() - from,
{
    if from < 0 || from >= s.len() || !is_name_char(s[from]) {
        from
    } else {
        name_end(s, from + 1)
    }
}

/// The variable that a string refers to: the name behind `var.` at its
/// start. A string that begins otherwise refers to none.
pub open spec fn referenced_variable(text: Seq<char>) -> Option<Seq<char>> {
    if starts_with(text, "var."@) {
        Some(text.subrange("var."@.len() as int, name_end(text, "var."@.len() as int)))
    } else {
        None
    }
}

/// The inputs that the inputs document declares: the two fixed ones, and
/// those of the plan's own whose first declaration is written.
pub open spec fn is_declared_input(variables: Seq<(Seq<char>, JsonTree)>, name: Seq<char>) -> bool {
    name == "repository_url"@ || name == "region"@ || (match member_from(variables, name, 0) {
        Some(declaration) => input_is_written(declaration),
        None => false,
    })
}

/// Every string in `v` that refers to a variable refers to a declared one.
pub open spec fn value_resolved(v: JsonTree, variables: Seq<(Seq<char>, JsonTree)>) -> bool
    decreases v, 0nat,
{
    match v {
        JsonTree::Text(text) => match referenced_variable(text) {
            Some(name) => is_declared_input(variables, name),
            None => true,
        },
        JsonTree::Array(items) => items_resolved(items, variables, items.len()),
        JsonTree::Object(members) => members_resolved(members, variables, members.len()),
        _ => true,
    }
}

/// The first `upto` of `items` refer to declared variables only.
pub open spec fn items_resolved(items: Seq<JsonTree>, variables: Seq<(Seq<char>, JsonTree)>, upto: nat) -> bool
    decreases items, upto,
{
    if upto == 0 || upto > items.len() {
        true
    } else {
        items_resolved(items, variables, (upto - 1) as nat) && value_resolved(
            items[upto - 1],
            variables,
        )
    }
}

/// The values of the first `upto` of `members` refer to declared variables
/// only.
pub open spec fn members_resolved(
    members: Seq<(Seq<char>, JsonTree)>,
    variables: Seq<(Seq<char>, JsonTree)>,
    upto: nat,
) -> bool
    decreases members, upto,
{
    if upto == 0 || upto > members.len() {
        true
    } else {
        members_resolved(members, variables, (upto - 1) as nat) && value_resolved(
            members[upto - 1].1,
            variables,
        )
    }
}

/// The attributes of the first `upto` resources refer to declared
/// variables only.
pub open spec fn resources_resolved(
    resources: Seq<ResourceView>,
    variables: Seq<(Seq<char>, JsonTree)>,
    upto: nat,
) -> bool
    decreases upto,
{
    if upto == 0 || upto > resources.len() {
        true
    } else {
        resources_resolved(resources, variables, (upto - 1) as nat) && members_resolved(
            resources[upto - 1].config,
            variables,
            resources[upto - 1].config.len(),
        )
    }
}

/// The resource graph of the plan refers to no variable that the plan does
/// not declare.
pub open spec fn graph_resolved(config: ConfigView) -> bool {
    resources_resolved(config.resources, config.variables, config.resources.len())
}

/// Whether the string refers to no variable or to a declared one.
fn text_resolves(text: &Vec<char>, variables: &Vec<(String, JsonValue)>) -> (r: bool)
    ensures
        r == value_resolved(JsonTree::Text(text@), members_view(variables@)),
{
    let marker = to_chars("var.");
    if !has_prefix(text, &marker) {
        return true;
    }
    let start: usize = marker.len();
    let mut end: usize = start;
    while end < text.len() && is_name(text[end])
        invariant
            start <= end <= text.len(),
            name_end(text@, start as int) == name_end(text@, end as int),
        decreases text.len() - end,
    {
        end = end + 1;
    }
    let name = copy_range(text, start, end);
    if text_is(&name, "repository_url") || text_is(&name, "region") {
        return true;
    }
    let mut i: usize = 0;
    while i < variables.len()
        invariant
            i <= variables.len(),
            referenced_variable(text@) == Some(name@),
            name@ != "repository_url"@,
            name@ != "region"@,
            member_from(members_view(variables@), name@, 0) == member_from(
                members_view(variables@),
                name@,
                i as int,
            ),
        decreases variables.len() - i,
    {
        assert(members_view(variables@)[i as int] == (variables@[i as int].0@, variables@[i as int].1@));
        let other = to_chars(variables[i].0.as_str());
        if same_text(&other, &name) {
            return writes_input(&variables[i].1);
        }
        i = i + 1;
    }
    false
}

fn is_name(c: char) -> (r: bool)
    ensures
        r == is_name_char(c),
{
    ('a' <= c && c <= 'z') || ('A' <= c && c <= 'Z') || ('0' <= c && c <= '9') || c == '_' || c == '-'
}

/// Whether every string in `value` that refers to a variable refers to a
/// declared one.
fn value_resolves(value: &JsonValue, variables: &Vec<(String, JsonValue)>) -> (r: bool)
    ensures
        r == value_resolved(value@, members_view(variables@)),
    decreases value,
{
    match value {
        JsonValue::Text(text) => {
            let chars = to_chars(text.as_str());
            text_resolves(&chars, variables)
        },
        JsonValue::Array(items) => {
            proof {
                lemma_array_view(*items);
            }
            let ghost trees = items_view(items@);
            let mut i: usize = 0;
            while i < items.len()
                invariant
                    i <= items.len(),
                    value == JsonValue::Array(*items),
                    value@ == JsonTree::Array(trees),
                    trees == items_view(items@),
                    items_resolved(trees, members_view(variables@), i as nat),
                decreases items.len() - i,
            {
                proof {
                    assert(value is Array && value->Array_0 == *items);
                    assert(decreases_to!(value => value->Array_0));
                    assert(decreases_to!(*items => items[i as int]));
                    assert(trees[i as int] == items@[i as int]@);
                }
                if !value_resolves(&items[i], variables) {
                    proof {
                        lemma_items_stay_unresolved(
                            trees,
                            members_view(variables@),
                            (i + 1) as nat,
                            trees.len(),
                        );
                    }
                    return false;
                }
                i = i + 1;
            }
            true
        },
        JsonValue::Object(members) => {
            proof {
                lemma_object_view(*members);
            }
            proof {
                assert(value is Object && value->Object_0 == *members);
                assert(decreases_to!(value => value->Object_0));
            }
            members_resolve(members, variables)
        },
        _ => true,
    }
}

/// Whether the values of `members` refer to declared variables only.
fn members_resolve(members: &Vec<(String, JsonValue)>, variables: &Vec<(String, JsonValue)>) -> (r:
    bool)
    ensures
        r == members_resolved(members_view(members@), members_view(variables@), members@.len() as nat),
    decreases *members,
{
    let ghost trees = members_view(members@);
    let mut i: usize = 0;
    while i < members.len()
        invariant
            i <= members.len(),
            trees == members_view(members@),
            members_resolved(trees, members_view(variables@), i as nat),
        decreases members.len() - i,
    {
        proof {
            assert(decreases_to!(*members => members[i as int]));
            assert(decreases_to!(members[i as int] => members[i as int].1));
            assert(trees[i as int].1 == members@[i as int].1@);
        }
        if !value_resolves(&members[i].1, variables) {
            proof {
                lemma_members_stay_unresolved(
                    trees,
                    members_view(variables@),
                    (i + 1) as nat,
                    trees.len(),
                );
            }
            return false;
        }
        i = i + 1;
    }
    true
}

proof fn lemma_items_stay_unresolved(
    items: Seq<JsonTree>,
    variables: Seq<(Seq<char>, JsonTree)>,
    at: nat,
    upto: nat,
)
    requires
        !items_resolved(items, variables, at),
        at <= upto <= items.len(),
    ensures
        !items_resolved(items, variables, upto),
    decreases upto - at,
{
    if at < upto {
        lemma_items_stay_unresolved(items, variables, at, (upto - 1) as nat);
    }
}

proof fn lemma_members_stay_unresolved(
    members: Seq<(Seq<char>, JsonTree)>,
    variables: Seq<(Seq<char>, JsonTree)>,
    at: nat,
    upto: nat,
)
    requires
        !members_resolved(members, variables, at),
        at <= upto <= members.len(),
    ensures
        !members_resolved(members, variables, upto),
    decreases upto - at,
{
    if at < upto {
        lemma_members_stay_unresolved(members, variables, at, (upto - 1) as nat);
    }
}

proof fn lemma_resources_stay_unresolved(
    resources: Seq<ResourceView>,
    variables: Seq<(Seq<char>, JsonTree)>,
    at: nat,
    upto: nat,
)
    requires
        !resources_resolved(resources, variables, at),
        at <= upto <= resources.len(),
    ensures
        !resources_resolved(resources, variables, upto),
    decreases upto - at,
{
    if at < upto {
        lemma_resources_stay_unresolved(resources, variables, at, (upto - 1) as nat);
    }
}

/// Checks a plan that came from outside: whether its resource graph refers
/// to declared inputs only. A string refers to a variable when it begins
/// with `var.`; the two fixed inputs count as declared.
pub fn references_resolved(config: &TerraformConfig) -> (r: bool)
    ensures
        r == graph_resolved(config@),
{
    let ghost view = config@;
    let mut i: usize = 0;
    while i < config.resources.len()
        invariant
            i <= config.resources.len(),
            view == config@,
            resources_resolved(view.resources, view.variables, i as nat),
        decreases config.resources.len() - i,
    {
        assert(view.resources[i as int] == config.resources@[i as int]@);
        let resource = &config.resources[i];
        if !members_resolve(&resource.config, &config.variables) {
            proof {
                lemma_resources_stay_unresolved(
                    view.resources,
                    view.variables,
                    (i + 1) as nat,
                    view.resources.len(),
                );
            }
            return false;
        }
        i = i + 1;
    }
    true
}

} // verus!
