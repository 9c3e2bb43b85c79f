use autodeployment::hcl::{
    escape_hcl_string, is_number, json_to_hcl, parse_scalar_literal, SerializationError,
};
use autodeployment::infrastructure::{
    decide_infrastructure, TerraformConfig, TerraformResource,
};
use autodeployment::json::JsonValue;
use autodeployment::nlp::{
    ApplicationType, CloudProvider, DatabaseType, DeploymentRequirements, ScalingRequirements,
};
use autodeployment::repository::{PackageManager, RepositoryAnalysis};
use autodeployment::ai_nlp::{validate_draft, ExtractionError};
use autodeployment::terraform::{
    generate_terraform_files, references_resolved, replace_git_clone_with_download,
};

fn text(s: &str) -> JsonValue {
    JsonValue::Text(s.to_string())
}

fn number(s: &str) -> JsonValue {
    JsonValue::Number(s.to_string())
}

fn object(members: Vec<(&str, JsonValue)>) -> JsonValue {
    JsonValue::Object(members.into_iter().map(|(k, v)| (k.to_string(), v)).collect())
}

fn attributes(members: Vec<(&str, JsonValue)>) -> Vec<(String, JsonValue)> {
    members.into_iter().map(|(k, v)| (k.to_string(), v)).collect()
}

fn sample_requirements() -> DeploymentRequirements {
    DeploymentRequirements {
        cloud_provider: CloudProvider::AWS,
        application_type: Some(ApplicationType::Flask),
        scaling_requirements: ScalingRequirements::Single,
        database_requirements: vec![DatabaseType::PostgreSQL],
        environment_variables: Vec::new(),
        port_requirements: vec![80, 443],
        ssl_required: true,
        custom_domain: Some("example.com".to_string()),
    }
}

fn sample_analysis() -> RepositoryAnalysis {
    RepositoryAnalysis {
        app_type: ApplicationType::Flask,
        dependencies: vec!["Flask".to_string(), "psycopg2".to_string()],
        build_commands: vec!["pip install -r requirements.txt".to_string()],
        start_commands: vec!["python app.py".to_string()],
        environment_variables: vec!["DATABASE_URL".to_string()],
        exposed_ports: vec![5000],
        static_files_dir: Some("static".to_string()),
        database_migrations: true,
        requires_build_step: true,
        docker_config: None,
        package_manager: PackageManager::Pip,
    }
}

fn drafted_aws_config() -> TerraformConfig {
    TerraformConfig {
        provider: "aws".to_string(),
        resources: vec![
            TerraformResource {
                resource_type: "aws_instance".to_string(),
                name: "app_instance".to_string(),
                config: attributes(vec![
                    ("instance_type", text("t3.micro")),
                    ("ami", text("ami-0c02fb55956c7d316")),
                    (
                        "vpc_security_group_ids",
                        JsonValue::Array(vec![text("aws_security_group.app_sg.id")]),
                    ),
                    ("user_data", text("apt update && apt install python3 -y")),
                ]),
            },
            TerraformResource {
                resource_type: "aws_security_group".to_string(),
                name: "app_sg".to_string(),
                config: attributes(vec![
                    ("name", text("app_sg")),
                    ("description", text("Allow inbound traffic")),
                    (
                        "ingress",
                        JsonValue::Array(vec![object(vec![
                            ("from_port", number("22")),
                            ("to_port", number("22")),
                            ("protocol", text("tcp")),
                            ("cidr_blocks", JsonValue::Array(vec![text("0.0.0.0/0")])),
                            ("security_groups", JsonValue::Array(vec![])),
                            ("self", JsonValue::Bool(false)),
                        ])]),
                    ),
                ]),
            },
        ],
        variables: attributes(vec![("region", text("AWS region")), ("key_name", text("AWS key pair"))]),
        outputs: attributes(vec![
            (
                "public_ip",
                object(vec![
                    ("value", text("aws_instance.app_instance.public_ip")),
                    ("description", text("Instance public IP")),
                ]),
            ),
            (
                "public_dns",
                object(vec![
                    ("value", text("aws_instance.app_instance.public_dns")),
                    ("description", text("Instance public DNS")),
                ]),
            ),
        ]),
    }
}

fn file_text(files: &[autodeployment::terraform::RenderedFile], name: &str) -> String {
    files.iter().find(|f| f.name == name).map(|f| f.text.clone()).unwrap()
}

const FIXED_INPUTS: &str = "variable \"repository_url\" {\n  description = \"Repository URL\"\n  type = string\n  default = \"https://github.com/test/repo\"\n}\n\nvariable \"region\" {\n  description = \"Cloud region\"\n  type = string\n  default = \"us-east-1\"\n}\n\n";

#[test]
fn test_generate_terraform_vm_config() {
    let requirements = sample_requirements();
    let analysis = sample_analysis();

    let decision = decide_infrastructure(&requirements, &analysis, drafted_aws_config());

    assert_eq!(decision.terraform_config.provider, "aws");
    assert!(!decision.terraform_config.resources.is_empty());

    let resource_types: Vec<&str> = decision
        .terraform_config
        .resources
        .iter()
        .map(|r| r.resource_type.as_str())
        .collect();
    assert!(resource_types.contains(&"aws_security_group"));
    assert!(resource_types.contains(&"aws_instance"));
}

#[test]
fn test_generate_terraform_files() {
    let requirements = sample_requirements();
    let analysis = sample_analysis();
    let decision = decide_infrastructure(&requirements, &analysis, drafted_aws_config());

    let result = generate_terraform_files(
        &decision.terraform_config,
        "https://github.com/test/repo",
        "20240101-120000",
    );

    assert!(result.is_ok());
    let files = result.unwrap();

    let names: Vec<&str> = files.iter().map(|f| f.name.as_str()).collect();
    assert!(names.contains(&"main.tf"));
    assert!(names.contains(&"variables.tf"));
    assert!(names.contains(&"outputs.tf"));

    let provider_tf_content = file_text(&files, "provider.tf");
    assert!(provider_tf_content.contains("provider \"aws\""));
    let main_tf_content = file_text(&files, "main.tf");
    assert!(main_tf_content.contains("aws_security_group"));
    assert!(main_tf_content.contains("aws_instance"));
}

#[test]
fn the_four_documents_of_a_plan() {
    let files = generate_terraform_files(
        &drafted_aws_config(),
        "https://github.com/test/repo",
        "20240101-120000",
    )
    .unwrap();
    let names: Vec<&str> = files.iter().map(|f| f.name.as_str()).collect();
    assert_eq!(names, vec!["provider.tf", "main.tf", "variables.tf", "outputs.tf"]);
    assert_eq!(
        files[0].text,
        "terraform {\n  required_providers {\n    aws = {\n      source  = \"hashicorp/aws\"\n      version = \"~> 5.0\"\n    }\n  }\n}\n\nprovider \"aws\" {\n  region = var.region\n}\n\n"
    );
    assert_eq!(
        files[1].text,
        "resource \"aws_instance\" \"app_instance\" {\n  instance_type = \"t3.micro\"\n  ami = \"ami-0c02fb55956c7d316\"\n  vpc_security_group_ids = [\"aws_security_group.app_sg.id\"]\n  user_data = \"apt update && apt install python3 -y\"\n}\n\nresource \"aws_security_group\" \"app_sg\" {\n  name = \"app_sg\"\n  description = \"Allow inbound traffic\"\n  ingress {\n    from_port = 22\n    to_port = 22\n    protocol = \"tcp\"\n    cidr_blocks = [\"0.0.0.0/0\"]\n    security_groups = []\n    self = false\n  }\n}\n\n"
    );
    assert_eq!(
        files[2].text,
        format!("{}variable \"key_name\" {{\n}}\n\n", FIXED_INPUTS)
    );
    assert_eq!(
        files[3].text,
        "output \"public_ip\" {\n  value = aws_instance.app_instance.public_ip\n  description = \"Instance public IP\"\n}\n\noutput \"public_dns\" {\n  value = aws_instance.app_instance.public_dns\n  description = \"Instance public DNS\"\n}\n\n"
    );
}

#[test]
fn empty_resource_graph_renders_four_wrapper_files() {
    let config = TerraformConfig {
        provider: "aws".to_string(),
        resources: vec![],
        variables: vec![],
        outputs: vec![],
    };
    let files = generate_terraform_files(&config, "https://github.com/test/repo", "t").unwrap();
    assert_eq!(files.len(), 4);
    assert!(files[0].text.starts_with("terraform {\n"));
    assert_eq!(files[1].name, "main.tf");
    assert_eq!(files[1].text, "");
    assert!(!files.iter().any(|f| f.text.contains("resource \"")));
    assert_eq!(files[2].text, FIXED_INPUTS);
    assert_eq!(files[3].text, "");
}

#[test]
fn provider_declarations() {
    let mut config = TerraformConfig {
        provider: "gcp".to_string(),
        resources: vec![],
        variables: vec![],
        outputs: vec![],
    };
    let files = generate_terraform_files(&config, "r", "t").unwrap();
    assert_eq!(
        files[0].text,
        "terraform {\n  required_providers {\n    google = {\n      source  = \"hashicorp/google\"\n      version = \"~> 4.0\"\n    }\n  }\n}\n\nprovider \"google\" {\n  region = var.region\n}\n\n"
    );
    assert!(files[2].text.contains("default = \"us-central1\""));
    let gcp = files;
    config.provider = "google".to_string();
    assert_eq!(generate_terraform_files(&config, "r", "t").unwrap(), gcp);
    for other in ["azure", "digitalocean", "GCP", ""] {
        config.provider = other.to_string();
        let files = generate_terraform_files(&config, "r", "t").unwrap();
        assert_eq!(files[0].text, "");
        assert!(files[2].text.contains("default = \"us-east-1\""));
    }
}

#[test]
fn input_and_output_declarations() {
    let config = TerraformConfig {
        provider: "aws".to_string(),
        resources: vec![],
        variables: attributes(vec![
            ("repository_url", object(vec![("type", text("string"))])),
            (
                "zone",
                object(vec![
                    ("default", text("a \"b\"")),
                    ("type", text("string")),
                    ("description", text("Zone")),
                    ("sensitive", JsonValue::Bool(true)),
                ]),
            ),
            ("count", object(vec![("type", text("number")), ("default", number("2"))])),
            ("zone", object(vec![("type", text("list"))])),
            ("key_name", object(vec![("type", text("string")), ("description", number("1"))])),
            ("region", text("AWS region")),
            ("flag", object(vec![("default", JsonValue::Bool(true))])),
            ("label", text("a label")),
        ]),
        outputs: attributes(vec![
            ("ip", object(vec![("value", text("aws_instance.a.public_ip"))])),
            ("n", object(vec![("value", number("3")), ("description", text("count"))])),
            ("ip", object(vec![("value", text("other"))])),
            ("bare", text("x")),
            ("dns", object(vec![("description", number("1")), ("value", text("aws_instance.a.dns"))])),
        ]),
    };
    let files = generate_terraform_files(&config, "https://github.com/test/repo", "t").unwrap();
    assert_eq!(
        files[2].text,
        format!(
            "{}variable \"zone\" {{\n  type = string\n  description = \"Zone\"\n  default = \"a \\\"b\\\"\"\n}}\n\nvariable \"key_name\" {{\n  type = string\n}}\n\nvariable \"label\" {{\n}}\n\n",
            FIXED_INPUTS
        )
    );
    assert_eq!(
        files[3].text,
        "output \"ip\" {\n  value = aws_instance.a.public_ip\n}\n\noutput \"dns\" {\n  value = aws_instance.a.dns\n}\n\n"
    );
}

#[test]
fn an_output_whose_value_is_no_string_is_left_out() {
    let config = TerraformConfig {
        provider: "aws".to_string(),
        resources: vec![],
        variables: vec![],
        outputs: attributes(vec![
            ("count", object(vec![("value", number("3"))])),
            (
                "ip",
                object(vec![
                    ("value", text("aws_instance.app.public_ip")),
                    ("description", text("IP")),
                ]),
            ),
        ]),
    };
    let files = generate_terraform_files(&config, "https://github.com/test/repo", "t").unwrap();
    assert_eq!(
        files[3].text,
        "output \"ip\" {\n  value = aws_instance.app.public_ip\n  description = \"IP\"\n}\n\n"
    );
    assert!(!files[3].text.contains("count"));
}

#[test]
fn an_input_whose_default_is_no_string_is_left_out() {
    let config = TerraformConfig {
        provider: "aws".to_string(),
        resources: vec![],
        variables: attributes(vec![
            ("replicas", object(vec![("type", text("number")), ("default", number("3"))])),
            ("zones", object(vec![("default", JsonValue::Array(vec![text("a")]))])),
            ("name", object(vec![("type", text("string")), ("default", text("app"))])),
        ]),
        outputs: vec![],
    };
    let files = generate_terraform_files(&config, "https://github.com/test/repo", "t").unwrap();
    assert_eq!(
        files[2].text,
        format!(
            "{}variable \"name\" {{\n  type = string\n  default = \"app\"\n}}\n\n",
            FIXED_INPUTS
        )
    );
    assert!(!files[2].text.contains("replicas"));
    assert!(!files[2].text.contains("zones"));
}

#[test]
fn filtering_rule_names_get_the_timestamp() {
    let config = TerraformConfig {
        provider: "gcp".to_string(),
        resources: vec![
            TerraformResource {
                resource_type: "google_compute_firewall".to_string(),
                name: "fw".to_string(),
                config: attributes(vec![
                    ("name", text("flask-app-firewall")),
                    ("network", text("default")),
                ]),
            },
            TerraformResource {
                resource_type: "google_compute_instance".to_string(),
                name: "vm".to_string(),
                config: attributes(vec![("name", text("flask-app-instance"))]),
            },
            TerraformResource {
                resource_type: "google_compute_firewall".to_string(),
                name: "odd".to_string(),
                config: attributes(vec![("name", number("7"))]),
            },
        ],
        variables: vec![],
        outputs: vec![],
    };
    let first = generate_terraform_files(&config, "r", "20240101-120000").unwrap();
    assert_eq!(
        first[1].text,
        "resource \"google_compute_firewall\" \"fw\" {\n  name = \"flask-app-firewall-20240101-120000\"\n  network = \"default\"\n}\n\nresource \"google_compute_instance\" \"vm\" {\n  name = \"flask-app-instance\"\n}\n\nresource \"google_compute_firewall\" \"odd\" {\n  name = 7\n}\n\n"
    );
    let second = generate_terraform_files(&config, "r", "20240101-120001").unwrap();
    assert_eq!(first[0], second[0]);
    assert_eq!(first[2], second[2]);
    assert_eq!(first[3], second[3]);
    assert_eq!(
        first[1].text.replace("-20240101-120000", ""),
        second[1].text.replace("-20240101-120001", "")
    );
}

#[test]
fn rendering_twice_gives_the_same_documents() {
    let config = drafted_aws_config();
    let first = generate_terraform_files(&config, "https://github.com/test/repo", "a").unwrap();
    let second = generate_terraform_files(&config, "https://github.com/test/repo", "b").unwrap();
    assert_eq!(first, second);
}

#[test]
fn unsupported_attribute_fails_the_rendering() {
    let mut config = drafted_aws_config();
    config.resources[1]
        .config
        .push(("mixed".to_string(), JsonValue::Array(vec![number("1"), object(vec![])])));
    assert_eq!(
        generate_terraform_files(&config, "r", "t"),
        Err(SerializationError::UnsupportedValue)
    );
}

#[test]
fn bootstrap_script_gets_the_rewrite_step() {
    let step = " && find . -name '*.py' -exec sed -i 's/127\\.0\\.0\\.1/0.0.0.0/g' {} \\; && find . -name '*.py' -exec sed -i 's/localhost/0.0.0.0/g' {} \\; && find . -name '*.html' -exec sed -i 's/http:\\/\\/localhost:5000//g' {} \\; && find . -name '*.js' -exec sed -i 's/http:\\/\\/localhost:5000//g' {} \\; && find . -name '*.ts' -exec sed -i 's/http:\\/\\/localhost:5000//g' {} \\;";

    let with_cd = text("apt update && git clone https://x/y /home/app && cd /home/app && python3 app.py");
    assert_eq!(
        replace_git_clone_with_download(&with_cd, ""),
        text(&format!(
            "apt update && git clone https://x/y /home/app && cd /home/app{} && python3 app.py",
            step
        ))
    );

    let cd_last = text("git clone https://x/y app && cd app");
    assert_eq!(
        replace_git_clone_with_download(&cd_last, ""),
        text(&format!("git clone https://x/y app && cd app{}", step))
    );

    let no_cd = text("git clone https://x/y app; python3 app/app.py");
    assert_eq!(
        replace_git_clone_with_download(&no_cd, ""),
        text(&format!("git clone https://x/y app; python3 app/app.py{}", step))
    );

    let no_fetch = text("apt update && cd /tmp && ls");
    assert_eq!(replace_git_clone_with_download(&no_fetch, ""), no_fetch);

    let cd_before_fetch = text("x && cd a && git clone y");
    assert_eq!(
        replace_git_clone_with_download(&cd_before_fetch, ""),
        text(&format!("x && cd a && git clone y{}", step))
    );

    let cd_before_and_after = text("mkdir w && cd w && git clone y app && cd app && make && ./run");
    assert_eq!(
        replace_git_clone_with_download(&cd_before_and_after, ""),
        text(&format!("mkdir w && cd w && git clone y app && cd app{} && make && ./run", step))
    );

    let fetch_twice = text("git clone a && cd a && make && git clone b && ls");
    assert_eq!(
        replace_git_clone_with_download(&fetch_twice, ""),
        text(&format!("git clone a && cd a && make && git clone b && ls{}", step))
    );

    let not_text = JsonValue::Array(vec![text("git clone x")]);
    assert_eq!(replace_git_clone_with_download(&not_text, ""), not_text);
}

#[test]
fn bootstrap_script_is_rewritten_under_its_keys_only() {
    let script = "git clone https://x/y app";
    let config = TerraformConfig {
        provider: "aws".to_string(),
        resources: vec![TerraformResource {
            resource_type: "aws_instance".to_string(),
            name: "vm".to_string(),
            config: attributes(vec![
                ("user_data", text(script)),
                ("metadata_startup_script", text(script)),
                ("comment", text(script)),
            ]),
        }],
        variables: vec![],
        outputs: vec![],
    };
    let files = generate_terraform_files(&config, "r", "t").unwrap();
    let main = &files[1].text;
    assert_eq!(main.matches("find . -name '*.py' -exec sed -i 's/localhost/0.0.0.0/g'").count(), 2);
    assert!(main.contains("  comment = \"git clone https://x/y app\"\n"));
    assert!(main.contains("  user_data = \"git clone https://x/y app && find . -name '*.py' -exec sed -i 's/127\\\\.0\\\\.0\\\\.1/0.0.0.0/g' {} \\\\; && "));
}

#[test]
fn scalar_attributes() {
    assert_eq!(json_to_hcl("name", &text("hello"), 1), Ok("name = \"hello\"".to_string()));
    assert_eq!(json_to_hcl("region", &text("var.region"), 1), Ok("region = var.region".to_string()));
    assert_eq!(json_to_hcl("id", &text("${aws_x.y.id}"), 0), Ok("id = ${aws_x.y.id}".to_string()));
    assert_eq!(json_to_hcl("v", &text("variable"), 0), Ok("v = \"variable\"".to_string()));
    assert_eq!(json_to_hcl("count", &number("42"), 3), Ok("count = 42".to_string()));
    assert_eq!(json_to_hcl("ratio", &number("-1.5e3"), 0), Ok("ratio = -1.5e3".to_string()));
    assert_eq!(json_to_hcl("on", &JsonValue::Bool(true), 0), Ok("on = true".to_string()));
    assert_eq!(json_to_hcl("off", &JsonValue::Bool(false), 0), Ok("off = false".to_string()));
    assert_eq!(json_to_hcl("x", &JsonValue::Null, 0), Ok("x = null".to_string()));
    assert_eq!(
        json_to_hcl("s", &text("a\"b\\c\nd\re\tf"), 0),
        Ok("s = \"a\\\"b\\\\c\\nd\\re\\tf\"".to_string())
    );
}

#[test]
fn list_attributes() {
    assert_eq!(json_to_hcl("tags", &JsonValue::Array(vec![]), 1), Ok("tags = []".to_string()));
    assert_eq!(
        json_to_hcl("tags", &JsonValue::Array(vec![text("a"), text("b\"c")]), 1),
        Ok("tags = [\"a\", \"b\\\"c\"]".to_string())
    );
    assert_eq!(
        json_to_hcl("ports", &JsonValue::Array(vec![number("80"), number("443")]), 1),
        Ok("ports = [80, 443]".to_string())
    );
    assert_eq!(
        json_to_hcl(
            "mix",
            &JsonValue::Array(vec![text("var.a"), JsonValue::Bool(true), JsonValue::Null, number("1")]),
            1
        ),
        Ok("mix = [var.a, true, null, 1]".to_string())
    );
}

#[test]
fn map_attributes() {
    let value = object(vec![("a", text("1")), ("b", object(vec![("c", JsonValue::Bool(true))]))]);
    assert_eq!(
        json_to_hcl("block", &value, 1),
        Ok("block {\n    a = \"1\"\n    b {\n      c = true\n    }\n  }".to_string())
    );
    assert_eq!(json_to_hcl("empty", &object(vec![]), 0), Ok("empty {\n}".to_string()));
    assert_eq!(json_to_hcl("empty", &object(vec![]), 2), Ok("empty {\n    }".to_string()));
}

#[test]
fn list_of_maps_becomes_repeated_blocks() {
    let value = JsonValue::Array(vec![
        object(vec![("from_port", number("22"))]),
        object(vec![("from_port", number("80"))]),
    ]);
    assert_eq!(
        json_to_hcl("ingress", &value, 1),
        Ok("ingress {\n    from_port = 22\n  }\n  ingress {\n    from_port = 80\n  }".to_string())
    );
    let single = JsonValue::Array(vec![object(vec![])]);
    assert_eq!(json_to_hcl("access_config", &single, 2), Ok("access_config {\n    }".to_string()));
}

#[test]
fn mixed_lists_cannot_be_represented() {
    let mixed = JsonValue::Array(vec![number("1"), object(vec![])]);
    assert_eq!(json_to_hcl("bad", &mixed, 0), Err(SerializationError::UnsupportedValue));
    let nested = JsonValue::Array(vec![JsonValue::Array(vec![])]);
    assert_eq!(json_to_hcl("bad", &nested, 0), Err(SerializationError::UnsupportedValue));
    let deep = object(vec![("ok", text("x")), ("inner", object(vec![("bad", mixed)]))]);
    assert_eq!(json_to_hcl("outer", &deep, 0), Err(SerializationError::UnsupportedValue));
    let in_block = JsonValue::Array(vec![object(vec![("bad", nested)])]);
    assert_eq!(json_to_hcl("blocks", &in_block, 0), Err(SerializationError::UnsupportedValue));
}

#[test]
fn escaping() {
    assert_eq!(escape_hcl_string("plain"), "plain");
    assert_eq!(escape_hcl_string(""), "");
    assert_eq!(escape_hcl_string("a\\b"), "a\\\\b");
    assert_eq!(escape_hcl_string("say \"hi\""), "say \\\"hi\\\"");
    assert_eq!(escape_hcl_string("l1\nl2\r\tend"), "l1\\nl2\\r\\tend");
    assert_eq!(escape_hcl_string("\\n"), "\\\\n");
}

#[test]
fn literals_read_back_as_the_values_that_were_written() {
    let values = vec![
        text("plain"),
        text(""),
        text("a\"b\\c\nd\re\tf\\n\\\""),
        text("true"),
        text("12"),
        text("é ✅"),
        number("42"),
        number("-1.5e3"),
        number("0"),
        JsonValue::Bool(true),
        JsonValue::Bool(false),
        JsonValue::Null,
    ];
    for value in values {
        let attribute = json_to_hcl("key", &value, 1).unwrap();
        let literal = attribute.strip_prefix("key = ").unwrap();
        assert_eq!(parse_scalar_literal(literal), Some(value));
    }
}

#[test]
fn expressions_are_no_literals() {
    assert_eq!(json_to_hcl("key", &text("var.region"), 1), Ok("key = var.region".to_string()));
    assert_eq!(parse_scalar_literal("var.region"), None);
    assert_eq!(parse_scalar_literal("${x}"), None);
    assert_eq!(parse_scalar_literal(""), None);
    assert_eq!(parse_scalar_literal("\""), None);
    assert_eq!(parse_scalar_literal("\"\""), Some(text("")));
    assert_eq!(parse_scalar_literal("\"a\\qb\\"), None);
    assert_eq!(parse_scalar_literal("\"a\\qb\""), Some(text("aqb")));
}

#[test]
fn value_tree_accessors() {
    let value = object(vec![("a", text("1")), ("b", number("2")), ("a", text("3"))]);
    assert_eq!(value.member("a"), Some(&text("1")));
    assert_eq!(value.member("b"), Some(&number("2")));
    assert_eq!(value.member("c"), None);
    assert_eq!(text("x").member("a"), None);
    assert_eq!(text("x").as_text(), Some("x"));
    assert_eq!(number("1").as_text(), None);
    assert_eq!(value.duplicate(), value);
    assert_eq!(value.clone(), value);
}

fn config_with(attribute: JsonValue, declared: &[&str]) -> TerraformConfig {
    TerraformConfig {
        provider: "aws".to_string(),
        resources: vec![
            TerraformResource {
                resource_type: "aws_instance".to_string(),
                name: "first".to_string(),
                config: attributes(vec![("ami", text("ami-1"))]),
            },
            TerraformResource {
                resource_type: "aws_instance".to_string(),
                name: "second".to_string(),
                config: attributes(vec![("plain", number("1")), ("checked", attribute)]),
            },
        ],
        variables: declared.iter().map(|name| (name.to_string(), text("declared"))).collect(),
        outputs: vec![],
    }
}

#[test]
fn a_drafted_plan_may_refer_to_declared_inputs_only() {
    assert!(references_resolved(&drafted_aws_config()));
    assert!(references_resolved(&config_with(text("var.region"), &[])));
    assert!(references_resolved(&config_with(text("var.repository_url"), &[])));
    assert!(references_resolved(&config_with(text("var.zone"), &["other", "zone"])));
    assert!(references_resolved(&config_with(text("var.zone-a/b"), &["zone-a"])));
    assert!(references_resolved(&config_with(text("variable"), &[])));
    assert!(references_resolved(&config_with(text("${var.nothing}"), &[])));
    assert!(!references_resolved(&config_with(text("var.zone"), &[])));
    assert!(!references_resolved(&config_with(text("var.zone"), &["zones"])));
    assert!(!references_resolved(&config_with(text("var."), &["zone"])));
    assert!(references_resolved(&config_with(text("var."), &[""])));
    let nested = JsonValue::Array(vec![object(vec![(
        "inner",
        object(vec![("list", JsonValue::Array(vec![text("ok"), text("var.missing")]))]),
    )])]);
    assert!(!references_resolved(&config_with(nested.duplicate(), &["present"])));
    assert!(references_resolved(&config_with(nested, &["present", "missing"])));

    let mut left_out = config_with(text("var.replicas"), &[]);
    left_out.variables = attributes(vec![("replicas", object(vec![("default", number("3"))]))]);
    assert!(!references_resolved(&left_out));
    left_out.variables = attributes(vec![("replicas", object(vec![("type", text("number"))]))]);
    assert!(references_resolved(&left_out));

    assert_eq!(validate_draft(&drafted_aws_config()), Ok(()));
    assert_eq!(
        validate_draft(&config_with(text("var.zone"), &[])),
        Err(ExtractionError::UnresolvedReference)
    );
    assert_eq!(
        ExtractionError::UnresolvedReference.message(),
        "The drafted configuration refers to a variable that it does not declare"
    );
}

#[test]
fn numbers_are_written_only_as_number_literals() {
    for literal in ["0", "-0", "7", "42", "-1.5e3", "0.25", "1E+9", "10e-2", "123456789012345678901234567890"] {
        assert!(is_number(&literal.chars().collect()), "{}", literal);
        assert_eq!(json_to_hcl("n", &number(literal), 0), Ok(format!("n = {}", literal)));
        assert_eq!(parse_scalar_literal(literal), Some(number(literal)));
        assert!(serde_json::from_str::<serde_json::Value>(literal).unwrap().is_number());
    }
    for text in ["", "-", "+1", "01", "1.", ".5", "1e", "1e+", "1.e3", "0x10", "1 ", " 1", "1,5", "NaN", "oops", "--1", "1.5.2", "1e5e5"] {
        assert!(!is_number(&text.chars().collect()), "{:?}", text);
        assert_eq!(json_to_hcl("n", &number(text), 0), Err(SerializationError::UnsupportedValue));
        assert_eq!(
            json_to_hcl("n", &JsonValue::Array(vec![number("1"), number(text)]), 0),
            Err(SerializationError::UnsupportedValue)
        );
        assert_eq!(
            json_to_hcl("n", &object(vec![("inner", number(text))]), 0),
            Err(SerializationError::UnsupportedValue)
        );
        assert_eq!(parse_scalar_literal(text), None);
        if !text.contains(' ') {
            assert!(serde_json::from_str::<serde_json::Value>(text).is_err(), "{:?}", text);
        }
    }
}

#[test]
fn repeated_blocks_stand_in_a_resource_like_its_other_attributes() {
    let config = TerraformConfig {
        provider: "aws".to_string(),
        resources: vec![TerraformResource {
            resource_type: "aws_security_group".to_string(),
            name: "sg".to_string(),
            config: attributes(vec![(
                "ingress",
                JsonValue::Array(vec![
                    object(vec![("from_port", number("22"))]),
                    object(vec![("from_port", number("80"))]),
                ]),
            )]),
        }],
        variables: vec![],
        outputs: vec![],
    };
    let files = generate_terraform_files(&config, "r", "t").unwrap();
    assert_eq!(
        files[1].text,
        "resource \"aws_security_group\" \"sg\" {\n  ingress {\n    from_port = 22\n  }\n  ingress {\n    from_port = 80\n  }\n}\n\n"
    );
}
