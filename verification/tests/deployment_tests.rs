use autodeployment::credentials::{AwsCredentials, CloudCredentials};
use autodeployment::deployment::{
    apply_replacement, bind_bare_run, changed_text, chat_action, chat_command, check_credentials,
    confirms, dry_run_result, failure_is_fatal, finalize_endpoint, is_confirmation,
    is_python_source, is_rewritable, next_phase, parse_chat_command, parse_provider,
    public_address_or_wildcard, replace_localhost_in_file, resolve_provider, set_address,
    ChatAction, ChatCommand, DeployPhase,
};
use autodeployment::infrastructure::DeploymentResult;
use autodeployment::nlp::CloudProvider;
use autodeployment::provision::ProvisionError;

fn result_with(url: &str, public_ip: Option<&str>) -> DeploymentResult {
    DeploymentResult {
        url: url.to_string(),
        infrastructure_type: "SingleVM".to_string(),
        public_ip: public_ip.map(|s| s.to_string()),
        logs: vec!["line".to_string()],
    }
}

fn record_with_aws() -> CloudCredentials {
    CloudCredentials {
        aws: Some(AwsCredentials {
            access_key_id: "a".to_string(),
            secret_access_key: "s".to_string(),
            region: None,
            session_token: None,
        }),
        gcp: None,
        azure: None,
    }
}

#[test]
fn provider_names() {
    assert_eq!(parse_provider("aws"), CloudProvider::AWS);
    assert_eq!(parse_provider("AWS"), CloudProvider::AWS);
    assert_eq!(parse_provider("gcp"), CloudProvider::GCP);
    assert_eq!(parse_provider("Google"), CloudProvider::GCP);
    assert_eq!(parse_provider("Azure"), CloudProvider::Azure);
    assert_eq!(parse_provider("DigitalOcean"), CloudProvider::DigitalOcean);
    assert_eq!(parse_provider("heroku"), CloudProvider::Unknown);
    assert_eq!(parse_provider(""), CloudProvider::Unknown);
    assert_eq!(CloudProvider::from_tag("AWS"), CloudProvider::Unknown);
    assert_eq!(CloudProvider::from_tag("aws"), CloudProvider::AWS);
    assert_eq!(CloudProvider::from_tag("gcp"), CloudProvider::GCP);
    assert_eq!(CloudProvider::from_tag("google"), CloudProvider::GCP);
    assert_eq!(CloudProvider::from_tag("azure"), CloudProvider::Azure);
    assert_eq!(CloudProvider::from_tag("digitalocean"), CloudProvider::DigitalOcean);
    assert_eq!(CloudProvider::from_tag(""), CloudProvider::Unknown);
}

#[test]
fn explicit_choice_takes_precedence() {
    assert_eq!(resolve_provider(CloudProvider::AWS, Some("GCP")), CloudProvider::GCP);
    assert_eq!(resolve_provider(CloudProvider::Azure, None), CloudProvider::Azure);
    assert_eq!(resolve_provider(CloudProvider::AWS, Some("nonsense")), CloudProvider::Unknown);
}

#[test]
fn credentials_are_due_for_every_run_that_provisions() {
    let none = CloudCredentials::new();
    let missing = Err(ProvisionError::CredentialMissing(CloudProvider::AWS));
    assert_eq!(check_credentials(&none, &CloudProvider::AWS, false, false), missing);
    assert_eq!(check_credentials(&none, &CloudProvider::AWS, false, true), missing);
    assert_eq!(check_credentials(&none, &CloudProvider::AWS, true, true), missing);
    assert_eq!(check_credentials(&none, &CloudProvider::AWS, true, false), Ok(()));
    let aws = record_with_aws();
    assert_eq!(check_credentials(&aws, &CloudProvider::AWS, false, false), Ok(()));
    assert_eq!(
        check_credentials(&aws, &CloudProvider::GCP, false, false),
        Err(ProvisionError::CredentialMissing(CloudProvider::GCP))
    );
    assert_eq!(
        check_credentials(&aws, &CloudProvider::Unknown, false, false),
        Err(ProvisionError::CredentialMissing(CloudProvider::Unknown))
    );
}

#[test]
fn endpoint_is_built_from_the_address_when_the_url_is_unknown() {
    assert_eq!(
        finalize_endpoint(result_with("unknown", Some("1.2.3.4"))),
        result_with("http://1.2.3.4:5000", Some("1.2.3.4"))
    );
    assert_eq!(finalize_endpoint(result_with("unknown", None)), result_with("unknown", None));
    assert_eq!(
        finalize_endpoint(result_with("1.2.3.4", Some("1.2.3.4"))),
        result_with("1.2.3.4", Some("1.2.3.4"))
    );
    assert_eq!(
        finalize_endpoint(result_with("unknown.example.com", Some("1.2.3.4"))),
        result_with("unknown.example.com", Some("1.2.3.4"))
    );
}

#[test]
fn python_sources_are_bound_to_every_interface() {
    assert_eq!(
        replace_localhost_in_file("app.run()\n", true, "1.2.3.4"),
        Some("app.run(host='0.0.0.0', port=5000)\n".to_string())
    );
    assert_eq!(
        replace_localhost_in_file(
            "app.run(host = \"localhost\", port=80)\nrun(host='127.0.0.1')\nx(host=\"127.0.0.1\")\ny(host  =  'localhost')\n",
            true,
            "1.2.3.4"
        ),
        Some(
            "app.run(host=\"0.0.0.0\", port=80)\nrun(host='0.0.0.0')\nx(host=\"0.0.0.0\")\ny(host='0.0.0.0')\n"
                .to_string()
        )
    );
    assert_eq!(
        replace_localhost_in_file("url = 'http://localhost:5000/api at 127.0.0.1'", true, "1.2.3.4"),
        Some("url = 'http://1.2.3.4:5000/api at 1.2.3.4'".to_string())
    );
    assert_eq!(replace_localhost_in_file("bind('0.0.0.0')", true, "1.2.3.4"), None);
    assert_eq!(replace_localhost_in_file("print('hello')", true, "1.2.3.4"), None);
}

#[test]
fn other_sources_point_at_the_public_address() {
    assert_eq!(
        replace_localhost_in_file(
            "fetch('http://localhost:5000'); a = '127.0.0.1'; b = '0.0.0.0'; host=\"localhost\"",
            false,
            "1.2.3.4"
        ),
        Some(
            "fetch('http://1.2.3.4:5000'); a = '1.2.3.4'; b = '1.2.3.4'; host=\"1.2.3.4\""
                .to_string()
        )
    );
    assert_eq!(replace_localhost_in_file("app.run()", false, "1.2.3.4"), None);
    assert_eq!(replace_localhost_in_file("", false, "1.2.3.4"), None);
    assert_eq!(
        replace_localhost_in_file("localhostlocalhost", false, ""),
        Some("".to_string())
    );
}

#[test]
fn an_attempt_that_gives_nothing_leaves_the_text() {
    assert_eq!(apply_replacement("old".to_string(), Some("new".to_string())), "new");
    assert_eq!(apply_replacement("old".to_string(), None), "old");
}

#[test]
fn rewritable_files_are_known_by_their_extension() {
    for name in [
        "app.py", "index.js", "main.ts", "index.html", "site.css", "package.json", "a.yaml",
        "b.yml", "Cargo.toml", "setup.cfg", "tox.ini", "archive.tar.ini", "..py",
    ] {
        assert!(is_rewritable(name), "{}", name);
    }
    for name in ["README.md", "Makefile", ".py", "py", "app.pyc", "app.py.bak", "", "a.PY"] {
        assert!(!is_rewritable(name), "{}", name);
    }
    assert!(is_python_source("app.py"));
    assert!(!is_python_source("app.js"));
    assert!(!is_python_source(".py"));
}

#[test]
fn chat_commands() {
    assert_eq!(parse_chat_command("  \n"), ChatCommand::Empty);
    assert_eq!(parse_chat_command("quit\n"), ChatCommand::Quit);
    assert_eq!(parse_chat_command(" EXIT "), ChatCommand::Quit);
    assert_eq!(parse_chat_command("Help"), ChatCommand::Help);
    assert_eq!(parse_chat_command("status"), ChatCommand::Status);
    assert_eq!(
        parse_chat_command("load   https://github.com/Arvo-AI/hello_world \n"),
        ChatCommand::Load("https://github.com/Arvo-AI/hello_world".to_string())
    );
    assert_eq!(
        parse_chat_command("deploy Deploy with auto-scaling on GCP"),
        ChatCommand::Deploy("Deploy with auto-scaling on GCP".to_string())
    );
    assert_eq!(
        parse_chat_command("plan Deploy this Flask app on AWS"),
        ChatCommand::Plan("Deploy this Flask app on AWS".to_string())
    );
    assert_eq!(parse_chat_command("Load x"), ChatCommand::Unknown("Load x".to_string()));
    assert_eq!(parse_chat_command("load"), ChatCommand::Unknown("load".to_string()));
    assert_eq!(parse_chat_command("deployment"), ChatCommand::Unknown("deployment".to_string()));
    assert_eq!(
        parse_chat_command("what now?"),
        ChatCommand::Unknown("what now?".to_string())
    );
    assert_eq!(chat_command("QUIT", "quit"), ChatCommand::Quit);
    assert_eq!(chat_command("quit", "other"), ChatCommand::Unknown("quit".to_string()));
    assert_eq!(chat_command("", "quit"), ChatCommand::Empty);
}

#[test]
fn confirmation() {
    assert!(is_confirmation("y\n"));
    assert!(is_confirmation("  Y  "));
    assert!(!is_confirmation("yes"));
    assert!(!is_confirmation("n"));
    assert!(!is_confirmation(""));
    assert!(confirms("y"));
    assert!(!confirms("Y"));
    assert!(!confirms(" y"));
    assert!(!confirms(""));
}

#[test]
fn steps_of_the_rewrite() {
    assert_eq!(bind_bare_run("app.run()  app.run(debug=True)"), "app.run(host='0.0.0.0', port=5000)  app.run(debug=True)");
    assert_eq!(set_address("localhost 127.0.0.1 0.0.0.0", true, "1.2.3.4"), "1.2.3.4 1.2.3.4 0.0.0.0");
    assert_eq!(set_address("localhost 127.0.0.1 0.0.0.0", false, "1.2.3.4"), "1.2.3.4 1.2.3.4 1.2.3.4");
    assert_eq!(set_address("nothing", false, "1.2.3.4"), "nothing");
    assert_eq!(changed_text("old", "new".to_string()), Some("new".to_string()));
    assert_eq!(changed_text("same", "same".to_string()), None);
}

fn phases(dry_run: bool, force_deploy: bool) -> Vec<DeployPhase> {
    let mut visited = vec![DeployPhase::ExtractRequirements];
    while *visited.last().unwrap() != DeployPhase::Done {
        visited.push(next_phase(*visited.last().unwrap(), dry_run, force_deploy));
    }
    visited
}

#[test]
fn a_run_goes_through_its_steps_in_order() {
    assert_eq!(
        phases(false, false),
        vec![
            DeployPhase::ExtractRequirements,
            DeployPhase::CheckCredentials,
            DeployPhase::CloneRepository,
            DeployPhase::FindPublicAddress,
            DeployPhase::RewriteSources,
            DeployPhase::AnalyzeRepository,
            DeployPhase::DraftConfiguration,
            DeployPhase::RenderFiles,
            DeployPhase::Provision,
            DeployPhase::Done,
        ]
    );
    assert_eq!(phases(false, true), phases(false, false));
    assert_eq!(next_phase(DeployPhase::Done, false, false), DeployPhase::Done);
}

#[test]
fn a_dry_run_neither_provisions_nor_asks_for_credentials() {
    assert_eq!(
        phases(true, false),
        vec![
            DeployPhase::ExtractRequirements,
            DeployPhase::CloneRepository,
            DeployPhase::FindPublicAddress,
            DeployPhase::RewriteSources,
            DeployPhase::AnalyzeRepository,
            DeployPhase::DraftConfiguration,
            DeployPhase::RenderFiles,
            DeployPhase::Done,
        ]
    );
    let forced = phases(true, true);
    assert!(forced.contains(&DeployPhase::CheckCredentials));
    assert!(!forced.contains(&DeployPhase::Provision));
}

#[test]
fn only_the_best_effort_steps_may_fail_quietly() {
    for phase in [
        DeployPhase::ExtractRequirements,
        DeployPhase::CheckCredentials,
        DeployPhase::CloneRepository,
        DeployPhase::AnalyzeRepository,
        DeployPhase::DraftConfiguration,
        DeployPhase::RenderFiles,
        DeployPhase::Provision,
        DeployPhase::Done,
    ] {
        assert!(failure_is_fatal(phase));
    }
    assert!(!failure_is_fatal(DeployPhase::FindPublicAddress));
    assert!(!failure_is_fatal(DeployPhase::RewriteSources));
}

#[test]
fn rewrite_address_defaults_to_the_wildcard() {
    assert_eq!(public_address_or_wildcard(Some("1.2.3.4".to_string())), "1.2.3.4");
    assert_eq!(public_address_or_wildcard(None), "0.0.0.0");
}

#[test]
fn dry_run_of_a_deployment_reports_the_sentinel() {
    assert_eq!(
        dry_run_result(result_with("http://1.2.3.4", Some("1.2.3.4"))),
        result_with("dry-run", None)
    );
}

#[test]
fn chat_actions() {
    let say = |lines: &[&str]| ChatAction::Say(lines.iter().map(|l| l.to_string()).collect());
    for loaded in [false, true] {
        assert_eq!(chat_action(ChatCommand::Empty, loaded), ChatAction::Continue);
        assert_eq!(chat_action(ChatCommand::Quit, loaded), ChatAction::Quit);
        assert_eq!(chat_action(ChatCommand::Help, loaded), ChatAction::ShowHelp);
        assert_eq!(
            chat_action(ChatCommand::Load("url".to_string()), loaded),
            ChatAction::Load("url".to_string())
        );
    }
    assert_eq!(chat_action(ChatCommand::Status, true), ChatAction::ShowStatus);
    assert_eq!(
        chat_action(ChatCommand::Status, false),
        say(&["❌ No repository loaded. Use 'load <repo_url>' to load a repository."])
    );
    assert_eq!(
        chat_action(ChatCommand::Deploy("d".to_string()), true),
        ChatAction::Deploy("d".to_string())
    );
    assert_eq!(
        chat_action(ChatCommand::Deploy("d".to_string()), false),
        say(&["❌ No repository loaded. Use 'load <repo_url>' first."])
    );
    assert_eq!(
        chat_action(ChatCommand::Plan("p".to_string()), true),
        ChatAction::Plan("p".to_string())
    );
    assert_eq!(
        chat_action(ChatCommand::Plan("p".to_string()), false),
        say(&["❌ No repository loaded. Use 'load <repo_url>' first."])
    );
    assert_eq!(
        chat_action(ChatCommand::Unknown("run it".to_string()), true),
        say(&[
            "🤔 Did you mean to deploy? Use 'deploy run it' to proceed.",
            "    Or use 'plan run it' to see the deployment plan.",
        ])
    );
    assert_eq!(
        chat_action(ChatCommand::Unknown("run it".to_string()), false),
        say(&["❓ Unknown command. Type 'help' for available commands."])
    );
}
