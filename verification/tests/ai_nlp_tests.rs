use autodeployment::ai_nlp::{
    application_type_from, database_from, extract_json_from_response, first_candidate_text,
    provider_from, requirements_from_parsed, requirements_prompt, scaling_from, terraform_prompt,
    ExtractionError, ParsedRequirements,
};
use autodeployment::nlp::{
    ApplicationType, CloudProvider, DatabaseType, DeploymentRequirements, ScalingRequirements,
};

#[test]
fn test_extract_json_from_response() {
    let response_with_markdown = "```json\n{\"test\": \"value\"}\n```";
    let result = extract_json_from_response(response_with_markdown).unwrap();
    assert_eq!(result, "{\"test\": \"value\"}");

    let response_plain = "{\"test\": \"value\"}";
    let result = extract_json_from_response(response_plain).unwrap();
    assert_eq!(result, "{\"test\": \"value\"}");

    let response_with_text = "Here is the JSON: {\"test\": \"value\"} that you requested.";
    let result = extract_json_from_response(response_with_text).unwrap();
    assert_eq!(result, "{\"test\": \"value\"}");
}

#[test]
fn empty_answers_are_failures() {
    assert_eq!(extract_json_from_response(""), Err(ExtractionError::EmptyResponse));
    assert_eq!(extract_json_from_response(" \n\t "), Err(ExtractionError::EmptyResponse));
    assert_eq!(ExtractionError::EmptyResponse.message(), "Empty response from API");
}

#[test]
fn answers_without_an_object_are_failures() {
    assert_eq!(
        extract_json_from_response("  no braces here "),
        Err(ExtractionError::NoJsonObject("no braces here".to_string()))
    );
    assert_eq!(
        extract_json_from_response("{}"),
        Err(ExtractionError::NoJsonObject("{}".to_string()))
    );
    assert_eq!(
        extract_json_from_response("} reversed {"),
        Err(ExtractionError::NoJsonObject("} reversed {".to_string()))
    );
    assert_eq!(
        extract_json_from_response("only { open"),
        Err(ExtractionError::NoJsonObject("only { open".to_string()))
    );
    assert_eq!(
        extract_json_from_response("```\nnothing\n```"),
        Err(ExtractionError::NoJsonObject("nothing".to_string()))
    );
    assert_eq!(
        extract_json_from_response("```json\nnothing\n```"),
        Err(ExtractionError::NoJsonObject("```json\nnothing".to_string()))
    );
    assert_eq!(
        ExtractionError::NoJsonObject("x".to_string()).message(),
        "No valid JSON object found in response: 'x'"
    );
}

#[test]
fn the_outermost_span_is_taken() {
    assert_eq!(
        extract_json_from_response("a {\"x\": {\"y\": 1}} b {2} c").unwrap(),
        "{\"x\": {\"y\": 1}} b {2}"
    );
    assert_eq!(extract_json_from_response("```{é}```").unwrap(), "{é}");
    assert_eq!(extract_json_from_response("{ }").unwrap(), "{ }");
}

#[test]
fn first_candidate() {
    assert_eq!(first_candidate_text(&vec![]), Err(ExtractionError::NoCandidates));
    assert_eq!(
        first_candidate_text(&vec![vec![], vec!["x".to_string()]]),
        Err(ExtractionError::NoParts)
    );
    assert_eq!(
        first_candidate_text(&vec![vec!["a".to_string(), "b".to_string()], vec![]]),
        Ok("a".to_string())
    );
    assert_eq!(ExtractionError::NoCandidates.message(), "No candidates in Gemini response");
    assert_eq!(ExtractionError::NoParts.message(), "No parts in Gemini response");
}

#[test]
fn words_of_the_service() {
    assert_eq!(application_type_from("Flask"), Some(ApplicationType::Flask));
    assert_eq!(application_type_from("Django"), Some(ApplicationType::Django));
    assert_eq!(application_type_from("FastAPI"), Some(ApplicationType::FastAPI));
    assert_eq!(application_type_from("NodeJS"), Some(ApplicationType::NodeJS));
    assert_eq!(application_type_from("React"), Some(ApplicationType::React));
    assert_eq!(application_type_from("NextJS"), Some(ApplicationType::NextJS));
    assert_eq!(application_type_from("Express"), Some(ApplicationType::Express));
    assert_eq!(application_type_from("Go"), Some(ApplicationType::Unknown));
    assert_eq!(application_type_from("Rust"), Some(ApplicationType::Unknown));
    assert_eq!(application_type_from("Ruby"), Some(ApplicationType::Unknown));
    assert_eq!(application_type_from("PHP"), Some(ApplicationType::Unknown));
    assert_eq!(application_type_from("Static"), Some(ApplicationType::React));
    assert_eq!(application_type_from("Unknown"), None);
    assert_eq!(application_type_from("flask"), None);

    assert_eq!(scaling_from("Single"), ScalingRequirements::Single);
    assert_eq!(scaling_from("AutoScaling"), ScalingRequirements::AutoScale);
    assert_eq!(scaling_from("LoadBalanced"), ScalingRequirements::LoadBalanced);
    assert_eq!(scaling_from("Serverless"), ScalingRequirements::Serverless);
    assert_eq!(scaling_from("whatever"), ScalingRequirements::Single);

    assert_eq!(provider_from("AWS"), CloudProvider::AWS);
    assert_eq!(provider_from("GCP"), CloudProvider::GCP);
    assert_eq!(provider_from("Azure"), CloudProvider::Azure);
    assert_eq!(provider_from("DigitalOcean"), CloudProvider::DigitalOcean);
    assert_eq!(provider_from("Heroku"), CloudProvider::Unknown);
    assert_eq!(provider_from(""), CloudProvider::Unknown);

    assert_eq!(database_from("PostgreSQL"), Some(DatabaseType::PostgreSQL));
    assert_eq!(database_from("MySQL"), Some(DatabaseType::MySQL));
    assert_eq!(database_from("MongoDB"), Some(DatabaseType::MongoDB));
    assert_eq!(database_from("Redis"), Some(DatabaseType::Redis));
    assert_eq!(database_from("None"), None);
    assert_eq!(database_from("SQLite"), None);
}

#[test]
fn requirements_from_an_answer() {
    let parsed = ParsedRequirements {
        application_type: "Flask".to_string(),
        scaling_requirements: "Single".to_string(),
        database_requirements: vec![
            "PostgreSQL".to_string(),
            "None".to_string(),
            "Redis".to_string(),
            "PostgreSQL".to_string(),
            "Redis".to_string(),
        ],
        cloud_provider: "GCP".to_string(),
        port_requirements: vec![80, 443],
        ssl_required: true,
        custom_domain: None,
        environment_variables: vec![("API_KEY".to_string(), "secret".to_string())],
    };
    let requirements = requirements_from_parsed(parsed);
    assert_eq!(requirements.cloud_provider, CloudProvider::GCP);
    assert_eq!(requirements.application_type, Some(ApplicationType::Flask));
    assert_eq!(requirements.scaling_requirements, ScalingRequirements::Single);
    assert_eq!(
        requirements.database_requirements,
        vec![DatabaseType::PostgreSQL, DatabaseType::Redis]
    );
    assert_eq!(
        requirements.environment_variables,
        vec![("API_KEY".to_string(), "secret".to_string())]
    );
    assert_eq!(requirements.port_requirements, vec![80, 443]);
    assert!(requirements.ssl_required);
    assert_eq!(requirements.custom_domain, None);
}

#[test]
fn default_requirements() {
    let requirements = DeploymentRequirements::default();
    assert_eq!(requirements.cloud_provider, CloudProvider::AWS);
    assert_eq!(requirements.application_type, None);
    assert_eq!(requirements.scaling_requirements, ScalingRequirements::Single);
    assert_eq!(requirements.database_requirements, vec![DatabaseType::NoDatabase]);
    assert!(requirements.environment_variables.is_empty());
    assert_eq!(requirements.port_requirements, vec![80, 443]);
    assert!(!requirements.ssl_required);
    assert_eq!(requirements.custom_domain, None);
}

#[test]
fn requirements_request() {
    let prompt = requirements_prompt("Deploy this Flask app on AWS");
    assert!(prompt.starts_with(
        "Analyze this deployment description and extract structured deployment requirements in JSON format:\n\nDescription: \"Deploy this Flask app on AWS\"\n\nExtract the following information and respond with ONLY a JSON object (no markdown, no explanation):\n\n{\n  \"application_type\": \"Flask|Django|"
    ));
    assert!(prompt.contains("  \"environment_variables\": {\"DATABASE_URL\": \"postgresql://...\", \"API_KEY\": \"secret\"}\n}\n\nRules:\n"));
    assert!(prompt.ends_with("- environment_variables: extract any env vars or configs mentioned"));
    assert_eq!(prompt.matches("Deploy this Flask app on AWS").count(), 1);
    assert_eq!(requirements_prompt("").len() + 5, requirements_prompt("12345").len());
}

#[test]
fn configuration_request() {
    let prompt = terraform_prompt(
        "Deploy it",
        &CloudProvider::GCP,
        "SingleVM",
        "https://github.com/Arvo-AI/hello_world",
    );
    assert!(prompt.starts_with(
        "Generate a Terraform configuration for this deployment:\n\nDescription: \"Deploy it\"\nCloud Provider: GCP\nDeployment Type: SingleVM\n\nGenerate Terraform configuration as JSON with this exact structure:\n\n{\n  \"provider\": \"aws\",\n"
    ));
    assert!(prompt.contains("git clone https://github.com/Arvo-AI/hello_world /home/app && cd /home/app"));
    assert!(prompt.contains("not \"${aws_instance.app_instance.public_ip}\""));
    assert!(prompt.contains("\"access_config\": [\n            {}\n          ]"));
    assert!(prompt.ends_with("Respond with ONLY the JSON object, no markdown or explanation."));
}

fn field_text(answer: &serde_json::Value, name: &str) -> String {
    answer.get(name).and_then(|v| v.as_str()).unwrap().to_string()
}

#[test]
fn test_parse_deployment_requirements_structure() {
    let sample_json = r#"{
            "application_type": "Flask",
            "scaling_requirements": "Single",
            "database_requirements": ["PostgreSQL"],
            "cloud_provider": "AWS",
            "port_requirements": [80, 443],
            "ssl_required": true,
            "custom_domain": null,
            "environment_variables": {}
        }"#;

    let answer: serde_json::Value = serde_json::from_str(sample_json).unwrap();
    let parsed = ParsedRequirements {
        application_type: field_text(&answer, "application_type"),
        scaling_requirements: field_text(&answer, "scaling_requirements"),
        database_requirements: answer["database_requirements"]
            .as_array()
            .unwrap()
            .iter()
            .map(|v| v.as_str().unwrap().to_string())
            .collect(),
        cloud_provider: field_text(&answer, "cloud_provider"),
        port_requirements: answer["port_requirements"]
            .as_array()
            .unwrap()
            .iter()
            .map(|v| v.as_u64().unwrap() as u16)
            .collect(),
        ssl_required: answer["ssl_required"].as_bool().unwrap(),
        custom_domain: answer["custom_domain"].as_str().map(|s| s.to_string()),
        environment_variables: Vec::new(),
    };
    assert_eq!(parsed.application_type, "Flask");
    assert_eq!(parsed.scaling_requirements, "Single");
    assert_eq!(parsed.database_requirements, vec!["PostgreSQL"]);

    let requirements = requirements_from_parsed(parsed);
    assert_eq!(requirements.application_type, Some(ApplicationType::Flask));
    assert_eq!(requirements.cloud_provider, CloudProvider::AWS);
    assert_eq!(requirements.database_requirements, vec![DatabaseType::PostgreSQL]);
}
