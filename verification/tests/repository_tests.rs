use autodeployment::nlp::ApplicationType;
use autodeployment::classify::{
    classify_manifest, detect_application_type, detect_database_migrations,
    detect_package_manager, detect_static_files,
};
use autodeployment::dependencies::{
    extract_dependencies, manifest_dependencies, merge_dependency_keys, requirement_dependencies,
};
use autodeployment::docker::{analyze_dockerfile, parse_dockerfile};
use autodeployment::envfile::extract_environment_variables;
use autodeployment::ports::{
    detect_exposed_ports, ports_from_answer, ports_from_captures, ports_in_source,
};
use autodeployment::repository::{
    analyze_repository, generate_commands, PackageManager, RepositoryAnalysis, RepositorySnapshot,
    TreeEntry,
};
use autodeployment::tree::{collect_files, file_contains_keyword};

fn file(path: &str, content: &str) -> TreeEntry {
    TreeEntry {
        path: path.to_string(),
        is_file: true,
        is_dir: false,
        content: Some(content.to_string()),
    }
}

fn directory(path: &str) -> TreeEntry {
    TreeEntry { path: path.to_string(), is_file: false, is_dir: true, content: None }
}

fn tree(entries: Vec<TreeEntry>) -> RepositorySnapshot {
    RepositorySnapshot { entries }
}

fn texts(items: &[&str]) -> Vec<String> {
    items.iter().map(|s| s.to_string()).collect()
}

fn blank_analysis(app_type: ApplicationType, package_manager: PackageManager) -> RepositoryAnalysis {
    RepositoryAnalysis {
        app_type,
        dependencies: vec![],
        build_commands: vec![],
        start_commands: vec![],
        environment_variables: vec![],
        exposed_ports: vec![5000],
        static_files_dir: None,
        database_migrations: false,
        requires_build_step: false,
        docker_config: None,
        package_manager,
    }
}

#[test]
fn test_analyze_flask_repository() {
    let snapshot = tree(vec![
        file("README.md", "# hello_world\n"),
        file("requirements.txt", "Flask\n"),
        file(
            "app.py",
            "from flask import Flask\napp = Flask(__name__)\n\nif __name__ == '__main__':\n    app.run(host='0.0.0.0', port=5000)\n",
        ),
    ]);

    let analysis = analyze_repository(&snapshot);

    assert_eq!(analysis.app_type, ApplicationType::Flask);
    assert!(matches!(analysis.package_manager, PackageManager::Pip));
    assert!(analysis.requires_build_step);
    assert!(analysis.exposed_ports.contains(&5000));
}

#[test]
fn test_detect_application_type() {
    let snapshot = tree(vec![
        file("requirements.txt", "Flask==2.0.1"),
        file("app.py", "from flask import Flask"),
    ]);

    let app_type = detect_application_type(&snapshot);
    assert_eq!(app_type, ApplicationType::Flask);
}

#[test]
fn test_detect_package_manager() {
    let snapshot = tree(vec![file("requirements.txt", "Flask==2.0.1")]);
    let pkg_mgr = detect_package_manager(&snapshot);
    assert_eq!(pkg_mgr, PackageManager::Pip);

    let snapshot = tree(vec![file("package.json", "{\"name\": \"test\"}")]);
    let pkg_mgr = detect_package_manager(&snapshot);
    assert_eq!(pkg_mgr, PackageManager::Npm);
}

#[test]
fn test_extract_dependencies() {
    let snapshot = tree(vec![file(
        "requirements.txt",
        "Flask==2.0.1\nrequests>=2.25.0\n# comment\n",
    )]);
    let deps = extract_dependencies(&snapshot, &PackageManager::Pip);
    assert!(deps.contains(&"Flask".to_string()));
    assert!(deps.contains(&"requests".to_string()));
    assert_eq!(deps.len(), 2);

    let snapshot = tree(vec![file(
        "package.json",
        "{\"dependencies\": {\"express\": \"^4.17.1\", \"lodash\": \"^4.17.21\"}}",
    )]);
    let deps = extract_dependencies(&snapshot, &PackageManager::Npm);
    assert!(deps.contains(&"express".to_string()));
    assert!(deps.contains(&"lodash".to_string()));
}

#[test]
fn test_generate_commands() {
    let analysis = RepositoryAnalysis {
        app_type: ApplicationType::Flask,
        dependencies: vec!["Flask".to_string()],
        build_commands: vec![],
        start_commands: vec![],
        environment_variables: vec![],
        exposed_ports: vec![5000],
        static_files_dir: None,
        database_migrations: false,
        requires_build_step: false,
        docker_config: None,
        package_manager: PackageManager::Pip,
    };

    let (build_commands, start_commands, requires_build) = generate_commands(&analysis);

    assert!(build_commands.contains(&"pip install -r requirements.txt".to_string()));
    assert!(start_commands.contains(&"python app.py".to_string()));
    assert!(requires_build);
}

#[test]
fn test_detect_exposed_ports() {
    let snapshot = tree(vec![file("app.py", "app.run(host='0.0.0.0', port=3000)")]);

    let ports = detect_exposed_ports(&snapshot);
    assert!(ports.contains(&3000));
}

#[test]
fn flask_repository_scenario() {
    let snapshot = tree(vec![
        file("requirements.txt", "Flask==2.0.1"),
        file("app.py", "from flask import Flask"),
    ]);
    let analysis = analyze_repository(&snapshot);
    assert_eq!(analysis.app_type, ApplicationType::Flask);
    assert_eq!(analysis.package_manager, PackageManager::Pip);
    assert_eq!(analysis.start_commands, texts(&["python app.py"]));
    assert_eq!(analysis.build_commands, texts(&["pip install -r requirements.txt"]));
    assert_eq!(analysis.dependencies, texts(&["Flask"]));
    assert_eq!(analysis.exposed_ports, vec![5000]);
    assert_eq!(analysis.static_files_dir, None);
    assert!(!analysis.database_migrations);
    assert!(analysis.docker_config.is_none());
    assert!(analysis.environment_variables.is_empty());
}

#[test]
fn empty_tree_gives_no_signal() {
    let analysis = analyze_repository(&tree(vec![]));
    assert_eq!(analysis.app_type, ApplicationType::Unknown);
    assert_eq!(analysis.package_manager, PackageManager::Unknown);
    assert!(analysis.dependencies.is_empty());
    assert!(analysis.build_commands.is_empty());
    assert_eq!(analysis.start_commands, texts(&["echo 'Unknown application type'"]));
    assert!(!analysis.requires_build_step);
    assert_eq!(analysis.exposed_ports, vec![5000]);
}

#[test]
fn package_manager_chain_takes_the_first_manifest() {
    let all = vec![
        file("composer.json", "{}"),
        file("Gemfile", ""),
        file("build.gradle", ""),
        file("pom.xml", ""),
        file("package.json", "{}"),
        file("yarn.lock", ""),
        file("Pipfile", ""),
    ];
    let expected = [
        PackageManager::Composer,
        PackageManager::Bundler,
        PackageManager::Gradle,
        PackageManager::Maven,
        PackageManager::Npm,
        PackageManager::Yarn,
        PackageManager::Pip,
    ];
    for n in 0..all.len() {
        let snapshot = tree(all[..=n].to_vec());
        assert_eq!(detect_package_manager(&snapshot), expected[n]);
    }
    assert_eq!(detect_package_manager(&tree(vec![])), PackageManager::Unknown);
}

#[test]
fn files_below_the_second_level_do_not_classify() {
    let snapshot = tree(vec![
        directory("a"),
        directory("a/b"),
        file("a/b/requirements.txt", "Flask"),
        file("a/package.json", "{}"),
        TreeEntry {
            path: "yarn.lock".to_string(),
            is_file: false,
            is_dir: false,
            content: None,
        },
    ]);
    assert_eq!(collect_files(&snapshot), texts(&["package.json"]));
    assert_eq!(detect_package_manager(&snapshot), PackageManager::Npm);
}

#[test]
fn application_type_priorities() {
    let django = tree(vec![file("manage.py", "import django\nfrom django.core import Django")]);
    assert_eq!(detect_application_type(&django), ApplicationType::Django);

    let fastapi = tree(vec![file("main.py", "from fastapi import FastAPI")]);
    assert_eq!(detect_application_type(&fastapi), ApplicationType::FastAPI);

    let by_name = tree(vec![file("flask.py", ""), file("django_fastapi.py", "print('hi')")]);
    assert_eq!(detect_application_type(&by_name), ApplicationType::Unknown);
    let lower_case = tree(vec![file("app.py", "import flask")]);
    assert_eq!(detect_application_type(&lower_case), ApplicationType::Unknown);

    let both = tree(vec![file("app.py", "from flask import Flask\nfrom fastapi import FastAPI")]);
    assert_eq!(detect_application_type(&both), ApplicationType::Flask);

    let python_without_framework = tree(vec![
        file("tool.py", "print('x')"),
        file("package.json", "{\"dependencies\": {\"express\": \"4\"}}"),
    ]);
    assert_eq!(detect_application_type(&python_without_framework), ApplicationType::Express);

    let rails = tree(vec![file("Gemfile", "gem 'rails'")]);
    assert_eq!(detect_application_type(&rails), ApplicationType::Rails);
    let maven = tree(vec![file("pom.xml", "<project/>")]);
    assert_eq!(detect_application_type(&maven), ApplicationType::Spring);
    let gradle = tree(vec![file("build.gradle", "")]);
    assert_eq!(detect_application_type(&gradle), ApplicationType::Spring);
    let unknown = tree(vec![file("main.go", "package main")]);
    assert_eq!(detect_application_type(&unknown), ApplicationType::Unknown);
}

#[test]
fn package_manifest_is_classified_by_dependency_names() {
    let react = tree(vec![file(
        "package.json",
        "{\"dependencies\": {\"next\": \"13\", \"react\": \"18\"}}",
    )]);
    assert_eq!(detect_application_type(&react), ApplicationType::React);
    let next = tree(vec![file("package.json", "{\"devDependencies\": {\"next\": \"13\"}}")]);
    assert_eq!(detect_application_type(&next), ApplicationType::NextJS);
    let express = tree(vec![file("package.json", "{\"dependencies\": {\"express\": \"4\"}}")]);
    assert_eq!(detect_application_type(&express), ApplicationType::Express);
    let named_react = tree(vec![file("package.json", "{\"name\": \"react\"}")]);
    assert_eq!(detect_application_type(&named_react), ApplicationType::NodeJS);
    let broken = tree(vec![file("package.json", "not json")]);
    assert_eq!(detect_application_type(&broken), ApplicationType::NodeJS);

    assert_eq!(classify_manifest(&texts(&["lodash", "express", "next"])), ApplicationType::NextJS);
    assert_eq!(classify_manifest(&texts(&[])), ApplicationType::NodeJS);
}

#[test]
fn unreadable_package_manifest_falls_through() {
    let snapshot = tree(vec![
        TreeEntry {
            path: "package.json".to_string(),
            is_file: true,
            is_dir: false,
            content: None,
        },
        file("Gemfile", ""),
    ]);
    assert_eq!(detect_application_type(&snapshot), ApplicationType::Rails);
    assert!(extract_dependencies(&snapshot, &PackageManager::Npm).is_empty());
}

#[test]
fn keyword_is_looked_up_in_the_first_readable_file_of_that_name() {
    let snapshot = tree(vec![
        TreeEntry { path: "app.py".to_string(), is_file: true, is_dir: false, content: None },
        directory("src"),
        file("src/app.py", "import os"),
        directory("src/deep"),
        file("src/deep/app.py", "from flask import Flask"),
        directory("src/deep/deeper"),
        file("src/deep/deeper/other.py", "Flask"),
    ]);
    assert!(!file_contains_keyword(&snapshot, "app.py", "Flask"));
    assert!(file_contains_keyword(&snapshot, "app.py", "import os"));
    assert!(!file_contains_keyword(&snapshot, "other.py", "Flask"));
    assert!(!file_contains_keyword(&snapshot, "missing.py", "Flask"));
}

#[test]
fn requirement_lines_are_stripped_of_their_version() {
    assert_eq!(
        requirement_dependencies(
            "Flask==2.0.1\n  requests >= 2.25.0  \n\n# comment\nnumpy~=1.2\npandas<=2\nscipy>1\ntorch<3\nplain\r\n"
        ),
        texts(&["Flask", "requests", "numpy", "pandas", "scipy", "torch", "plain"])
    );
}

#[test]
fn requirement_names_hold_no_operator() {
    let operators = [">=", "<=", "~=", "==", ">", "<"];
    let names = requirement_dependencies(
        "a>=1\nb<=2\nc~=3\nd==4\ne>5\nf<6\ng >= 1, < 2\nh>1,<=2\n i <2,>=1 \nj=1~=2\nk~1==2\n>=9\n",
    );
    assert_eq!(
        names,
        texts(&["a", "b", "c", "d", "e", "f", "g", "h", "i", "j=1", "k~1", ""])
    );
    for name in &names {
        for operator in &operators {
            assert!(!name.contains(operator));
        }
        assert_eq!(name.as_str(), name.trim());
    }
}

#[test]
fn requirement_line_is_cut_at_the_leftmost_operator() {
    assert_eq!(requirement_dependencies("pkg>1,<=2"), texts(&["pkg"]));
    assert_eq!(requirement_dependencies("pkg>1,<=2\n"), texts(&["pkg"]));
    assert_eq!(requirement_dependencies("Django>3.2,<=4.0"), texts(&["Django"]));
    assert_eq!(requirement_dependencies("a<b>=c"), texts(&["a"]));
    assert_eq!(requirement_dependencies("a>b==c"), texts(&["a"]));
    assert_eq!(requirement_dependencies("a ~= 1, == 2"), texts(&["a"]));
    assert_eq!(requirement_dependencies("name = value"), texts(&["name = value"]));
    assert_eq!(requirement_dependencies("tilde~only"), texts(&["tilde~only"]));
}

#[test]
fn analysis_strips_a_line_with_two_constraints() {
    let snapshot = tree(vec![file("requirements.txt", "pkg>1,<=2\n")]);
    let analysis = analyze_repository(&snapshot);
    assert_eq!(analysis.package_manager, PackageManager::Pip);
    assert_eq!(analysis.dependencies, texts(&["pkg"]));
}

#[test]
fn comment_lines_are_skipped_indented_or_not() {
    assert!(requirement_dependencies("  # indented\n#real\n\t#tab>=1\n").is_empty());
    assert_eq!(
        requirement_dependencies("# head\nFlask==2.0.1  # pinned\n   # note\nrequests\n"),
        texts(&["Flask", "requests"])
    );
}

#[test]
fn dependencies_are_listed_once() {
    assert_eq!(
        requirement_dependencies("Flask==1\nrequests\nFlask>=2\n"),
        texts(&["Flask", "requests"])
    );
    assert_eq!(
        manifest_dependencies(
            "{\"dependencies\": {\"b\": \"1\", \"a\": \"1\"}, \"devDependencies\": {\"a\": \"2\", \"c\": \"1\"}}"
        ),
        texts(&["a", "b", "c"])
    );
    assert_eq!(
        merge_dependency_keys(&Some(texts(&["x", "y"])), &Some(texts(&["y", "z", "x"]))),
        texts(&["x", "y", "z"])
    );
    assert_eq!(merge_dependency_keys(&None, &Some(texts(&["z"]))), texts(&["z"]));
    assert_eq!(merge_dependency_keys(&Some(texts(&["z"])), &None), texts(&["z"]));
    assert!(merge_dependency_keys(&None, &None).is_empty());
}

#[test]
fn manifest_without_dependency_maps_names_nothing() {
    assert!(manifest_dependencies("{\"dependencies\": [\"a\"]}").is_empty());
    assert!(manifest_dependencies("{\"name\": \"x\"}").is_empty());
    assert!(manifest_dependencies("[1, 2]").is_empty());
    assert!(manifest_dependencies("").is_empty());
}

#[test]
fn other_package_managers_have_no_dependencies() {
    let snapshot = tree(vec![
        file("requirements.txt", "Flask"),
        file("package.json", "{\"dependencies\": {\"a\": \"1\"}}"),
    ]);
    assert!(extract_dependencies(&snapshot, &PackageManager::Maven).is_empty());
    assert_eq!(extract_dependencies(&snapshot, &PackageManager::Yarn), texts(&["a"]));
    assert_eq!(extract_dependencies(&snapshot, &PackageManager::Pip), texts(&["Flask"]));
}

#[test]
fn dockerfile_declarations() {
    let config = parse_dockerfile(
        "FROM python:3\n  EXPOSE 8080\nEXPOSE 80/tcp\nEXPOSE\nEXPOSE 70000\nEXPOSE +443 9\nVOLUME \"/data\"\nVOLUME /var/log /tmp\nVOLUME\nRUN echo EXPOSE 1\n",
    );
    assert_eq!(config.dockerfile_path, "Dockerfile");
    assert_eq!(config.exposed_ports, vec![8080, 443]);
    assert_eq!(config.volumes, texts(&["/data", "/var/log"]));
}

#[test]
fn dockerfile_gives_a_signal_only_when_it_can_be_read() {
    assert_eq!(analyze_dockerfile(&tree(vec![file("app.py", "")])), None);
    let with = tree(vec![file("Dockerfile", "EXPOSE 3000\n")]);
    let config = analyze_dockerfile(&with).unwrap();
    assert_eq!(config.exposed_ports, vec![3000]);
    assert!(config.volumes.is_empty());
    assert_eq!(analyze_repository(&with).docker_config, Some(config));
    let nested = tree(vec![directory("docker"), file("docker/Dockerfile", "EXPOSE 3000\n")]);
    assert_eq!(analyze_dockerfile(&nested), None);
    let unreadable = tree(vec![directory("Dockerfile")]);
    assert_eq!(analyze_dockerfile(&unreadable), None);
    assert_eq!(analyze_repository(&unreadable).docker_config, None);
}

#[test]
fn ports_are_sorted_and_listed_once() {
    let snapshot = tree(vec![
        file("b.js", "const PORT = 8080;\nlet port: 3000\n"),
        file("a.py", "port=9000\nPort = 3000\nport 1000\nport=65535\nport=65534\nport=1001"),
        file("notes.txt", "port=4000"),
        directory("x"),
        directory("x/y"),
        file("x/y/c.ts", "port=7000"),
        directory("x/y/z"),
        file("x/y/z/d.ts", "port=7001"),
        file(".py", "port=2000"),
    ]);
    assert_eq!(detect_exposed_ports(&snapshot), vec![1001, 3000, 7000, 8080, 9000, 65534]);
}

#[test]
fn port_defaults_to_5000() {
    let snapshot = tree(vec![file("a.py", "port=80\nport=999999\nreport\n")]);
    assert_eq!(detect_exposed_ports(&snapshot), vec![5000]);
}

#[test]
fn ports_of_one_source() {
    assert_eq!(ports_in_source("port=3000 PORT: 8000 export=1234 port = abc"), vec![3000, 8000, 1234]);
    assert_eq!(ports_from_answer(&None), Vec::<u16>::new());
    assert_eq!(
        ports_from_answer(&Some(vec![Some("8080".to_string()), Some("80".to_string())])),
        vec![8080]
    );
    assert_eq!(
        ports_from_captures(&vec![
            Some("3000".to_string()),
            None,
            Some("1000".to_string()),
            Some("x".to_string()),
            Some("1001".to_string()),
            Some("65535".to_string()),
            Some("0065534".to_string()),
        ]),
        vec![3000, 1001, 65534]
    );
}

#[test]
fn static_directory_is_the_first_candidate_that_exists() {
    let snapshot = tree(vec![directory("build"), directory("public"), file("static", "")]);
    assert_eq!(detect_static_files(&snapshot), Some("public".to_string()));
    assert_eq!(detect_static_files(&tree(vec![directory("src/static")])), None);
    assert_eq!(detect_static_files(&tree(vec![directory("dist")])), Some("dist".to_string()));
}

#[test]
fn migrations_are_detected_by_name() {
    assert!(detect_database_migrations(&tree(vec![directory("db"), directory("db/migrate")])));
    assert!(detect_database_migrations(&tree(vec![file("alembic", "")])));
    assert!(detect_database_migrations(&tree(vec![directory("migrations")])));
    assert!(detect_database_migrations(&tree(vec![directory("migrate")])));
    assert!(!detect_database_migrations(&tree(vec![directory("app/migrations")])));
}

#[test]
fn environment_variable_names_are_collected_once() {
    let snapshot = tree(vec![
        file(".env", "A=1\n# C=3\n  B = 2\nnovalue\n\n=x\n"),
        file(".env.example", "A=\nD=4=5\n"),
        file(".env.template", "E=5"),
        file("other.env", "Z=1"),
    ]);
    assert_eq!(extract_environment_variables(&snapshot), texts(&["A", "B", "D", "E"]));
    assert!(extract_environment_variables(&tree(vec![])).is_empty());
}

#[test]
fn command_table() {
    let cases = [
        (ApplicationType::Flask, PackageManager::Pip, vec!["pip install -r requirements.txt"], vec!["python app.py"], true),
        (ApplicationType::Django, PackageManager::Pip, vec!["pip install -r requirements.txt"], vec!["python manage.py runserver 0.0.0.0:8000"], true),
        (ApplicationType::NodeJS, PackageManager::Npm, vec!["npm install"], vec!["npm start"], true),
        (ApplicationType::Express, PackageManager::Yarn, vec!["yarn install"], vec!["yarn start"], true),
        (ApplicationType::React, PackageManager::Npm, vec!["npm install", "npm run build"], vec!["npm start"], true),
        (ApplicationType::NextJS, PackageManager::Yarn, vec!["yarn install", "yarn build"], vec!["yarn start"], true),
        (ApplicationType::React, PackageManager::Unknown, vec!["npm install", "npm run build"], vec!["npm start"], true),
        (ApplicationType::FastAPI, PackageManager::Pip, vec![], vec!["echo 'Unknown application type'"], false),
        (ApplicationType::Rails, PackageManager::Bundler, vec![], vec!["echo 'Unknown application type'"], false),
        (ApplicationType::Spring, PackageManager::Maven, vec![], vec!["echo 'Unknown application type'"], false),
        (ApplicationType::Unknown, PackageManager::Unknown, vec![], vec!["echo 'Unknown application type'"], false),
    ];
    for (app_type, package_manager, build, start, requires_build) in cases {
        let analysis = blank_analysis(app_type, package_manager);
        assert_eq!(generate_commands(&analysis), (texts(&build), texts(&start), requires_build));
    }
    let mut django = blank_analysis(ApplicationType::Django, PackageManager::Pip);
    django.database_migrations = true;
    assert_eq!(
        generate_commands(&django).0,
        texts(&["pip install -r requirements.txt", "python manage.py migrate"])
    );
}

#[test]
fn commands_depend_on_type_manager_and_migrations_only() {
    let plain = blank_analysis(ApplicationType::Django, PackageManager::Pip);
    let mut busy = blank_analysis(ApplicationType::Django, PackageManager::Pip);
    busy.dependencies = texts(&["Django"]);
    busy.exposed_ports = vec![8000];
    busy.static_files_dir = Some("static".to_string());
    busy.build_commands = texts(&["make"]);
    busy.requires_build_step = true;
    assert_eq!(generate_commands(&plain), generate_commands(&busy));
    assert_eq!(generate_commands(&busy), generate_commands(&busy));
}
