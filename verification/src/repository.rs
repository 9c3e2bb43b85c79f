//! The fact extractor: what a checked-out source tree tells about the
//! application in it.

use vstd::prelude::*;
use crate::classify::{
    any_path_exists, application_type_of, detect_application_type, detect_database_migrations,
    detect_package_manager, detect_static_files, first_directory, migration_indicators,
    package_manager_of, static_candidates,
};
use crate::dependencies::{dependencies_of, extract_dependencies};
use crate::docker::{analyze_dockerfile, docker_of};
use crate::envfile::{environment_variables_of, extract_environment_variables};
use crate::nlp::ApplicationType;
use crate::ports::{detect_exposed_ports, exposed_ports_of};
use crate::tree::file_names;
pub use crate::docker::DockerConfig;
pub use crate::tree::{RepositorySnapshot, TreeEntry};

verus! {

#[derive(Debug, Clone, Copy, PartialEq, Eq, Structural)]
pub enum PackageManager {
    Pip,
    Npm,
    Yarn,
    Maven,
    Gradle,
    Bundler,
    Composer,
    Unknown,
}

/// The fact sheet of one repository.
#[derive(Debug, Clone, PartialEq)]
pub struct RepositoryAnalysis {
    pub app_type: ApplicationType,
    pub dependencies: Vec<String>,
    pub build_commands: Vec<String>,
    pub start_commands: Vec<String>,
    pub environment_variables: Vec<String>,
    pub exposed_ports: Vec<u16>,
    pub static_files_dir: Option<String>,
    pub database_migrations: bool,
    pub requires_build_step: bool,
    pub docker_config: Option<DockerConfig>,
    pub package_manager: PackageManager,
}

/// The build commands of an application.
pub open spec fn build_commands_of(
    app_type: ApplicationType,
    package_manager: PackageManager,
    database_migrations: bool,
) -> Seq<Seq<char>> {
    match app_type {
        ApplicationType::Flask => seq!["pip install -r requirements.txt"@],
        ApplicationType::Django => if database_migrations {
            seq!["pip install -r requirements.txt"@, "python manage.py migrate"@]
        } else {
            seq!["pip install -r requirements.txt"@]
        },
        ApplicationType::NodeJS | ApplicationType::Express => if package_manager
            == PackageManager::Yarn {
            seq!["yarn install"@]
        } else {
            seq!["npm install"@]
        },
        ApplicationType::React | ApplicationType::NextJS => if package_manager
            == PackageManager::Yarn {
            seq!["yarn install"@, "yarn build"@]
        } else {
            seq!["npm install"@, "npm run build"@]
        },
        _ => Seq::empty(),
    }
}

/// The start commands of an application.
pub open spec fn start_commands_of(app_type: ApplicationType, package_manager: PackageManager) -> Seq<
    Seq<char>,
> {
    match app_type {
        ApplicationType::Flask => seq!["python app.py"@],
        ApplicationType::Django => seq!["python manage.py runserver 0.0.0.0:8000"@],
        ApplicationType::NodeJS | ApplicationType::Express | ApplicationType::React
        | ApplicationType::NextJS => if package_manager == PackageManager::Yarn {
            seq!["yarn start"@]
        } else {
            seq!["npm start"@]
        },
        _ => seq!["echo 'Unknown application type'"@],
    }
}

/// Whether an application has to be built before it starts.
pub open spec fn requires_build_of(app_type: ApplicationType) -> bool {
    match app_type {
        ApplicationType::Flask | ApplicationType::Django | ApplicationType::NodeJS
        | ApplicationType::Express | ApplicationType::React | ApplicationType::NextJS => true,
        _ => false,
    }
}

/// The commands of a fact sheet are a function of its application type,
/// its package manager and its migrations flag: two fact sheets that agree
/// in these get the same commands, whatever else they hold.
pub proof fn lemma_commands_are_determined(a: RepositoryAnalysis, b: RepositoryAnalysis)
    requires
        a.app_type == b.app_type,
        a.package_manager == b.package_manager,
        a.database_migrations == b.database_migrations,
    ensures
        build_commands_of(a.app_type, a.package_manager, a.database_migrations) == build_commands_of(
            b.app_type,
            b.package_manager,
            b.database_migrations,
        ),
        start_commands_of(a.app_type, a.package_manager) == start_commands_of(
            b.app_type,
            b.package_manager,
        ),
        requires_build_of(a.app_type) == requires_build_of(b.app_type),
{
}

/// The build commands, the start commands and the build flag of a fact
/// sheet, by the table of application type and package manager. An
/// application type that the table does not know gets no build command and
/// one start command that says so.
pub fn generate_commands(analysis: &RepositoryAnalysis) -> (r: (Vec<String>, Vec<String>, bool))
    ensures
        r.0.deep_view() == build_commands_of(
            analysis.app_type,
            analysis.package_manager,
            analysis.database_migrations,
        ),
        r.1.deep_view() == start_commands_of(analysis.app_type, analysis.package_manager),
        r.2 == requires_build_of(analysis.app_type),
{
    let mut build_commands: Vec<String> = Vec::new();
    let mut start_commands: Vec<String> = Vec::new();
    let mut requires_build = false;
    let yarn = match analysis.package_manager {
        PackageManager::Yarn => true,
        _ => false,
    };
    match analysis.app_type {
        ApplicationType::Flask => {
            build_commands.push("pip install -r requirements.txt".to_string());
            start_commands.push("python app.py".to_string());
            requires_build = true;
        },
        ApplicationType::Django => {
            build_commands.push("pip install -r requirements.txt".to_string());
            if analysis.database_migrations {
                build_commands.push("python manage.py migrate".to_string());
            }
            start_commands.push("python manage.py runserver 0.0.0.0:8000".to_string());
            requires_build = true;
        },
        ApplicationType::NodeJS | ApplicationType::Express => {
            if yarn {
                build_commands.push("yarn install".to_string());
                start_commands.push("yarn start".to_string());
            } else {
                build_commands.push("npm install".to_string());
                start_commands.push("npm start".to_string());
            }
            requires_build = true;
        },
        ApplicationType::React | ApplicationType::NextJS => {
            if yarn {
                build_commands.push("yarn install".to_string());
                build_commands.push("yarn build".to_string());
                start_commands.push("yarn start".to_string());
            } else {
                build_commands.push("npm install".to_string());
                build_commands.push("npm run build".to_string());
                start_commands.push("npm start".to_string());
            }
            requires_build = true;
        },
        _ => {
            start_commands.push("echo 'Unknown application type'".to_string());
        },
    }
    assert(build_commands.deep_view() =~= build_commands_of(
        analysis.app_type,
        analysis.package_manager,
        analysis.database_migrations,
    ));
    assert(start_commands.deep_view() =~= start_commands_of(
        analysis.app_type,
        analysis.package_manager,
    ));
    (build_commands, start_commands, requires_build)
}

impl RepositoryAnalysis {
    /// The commands of a fact sheet are never set on their own: they are
    /// those of its application type, its package manager and its
    /// migrations flag.
    pub open spec fn commands_derived(&self) -> bool {
        &&& self.build_commands.deep_view() == build_commands_of(
            self.app_type,
            self.package_manager,
            self.database_migrations,
        )
        &&& self.start_commands.deep_view() == start_commands_of(self.app_type, self.package_manager)
        &&& self.requires_build_step == requires_build_of(self.app_type)
    }
}

/// Analyses a tree: classification, package manager, dependencies, Docker
/// configuration, ports, static files, migrations and environment
/// variables, and from these the commands. Nothing that is missing from
/// the tree is a failure: it just gives no signal.
pub fn analyze_repository(snapshot: &RepositorySnapshot) -> (analysis: RepositoryAnalysis)
    ensures
        analysis.app_type == application_type_of(snapshot@),
        analysis.package_manager == package_manager_of(file_names(snapshot@)),
        analysis.dependencies.deep_view() == dependencies_of(snapshot@, analysis.package_manager),
        match analysis.docker_config {
            Some(config) => docker_of(snapshot@) == Some(config@),
            None => docker_of(snapshot@) is None,
        },
        analysis.exposed_ports@ == exposed_ports_of(snapshot@),
        analysis.static_files_dir.deep_view() == first_directory(snapshot@, static_candidates(), 0),
        analysis.database_migrations == any_path_exists(
            snapshot@,
            migration_indicators(),
            migration_indicators().len(),
        ),
        analysis.environment_variables.deep_view() == environment_variables_of(snapshot@),
        analysis.commands_derived(),
{
    let app_type = detect_application_type(snapshot);
    let package_manager = detect_package_manager(snapshot);
    let dependencies = extract_dependencies(snapshot, &package_manager);
    let docker_config = analyze_dockerfile(snapshot);
    let exposed_ports = detect_exposed_ports(snapshot);
    let static_files_dir = detect_static_files(snapshot);
    let database_migrations = detect_database_migrations(snapshot);
    let environment_variables = extract_environment_variables(snapshot);
    let mut analysis = RepositoryAnalysis {
        app_type,
        dependencies,
        build_commands: Vec::new(),
        start_commands: Vec::new(),
        environment_variables,
        exposed_ports,
        static_files_dir,
        database_migrations,
        requires_build_step: false,
        docker_config,
        package_manager,
    };
    let (build_commands, start_commands, requires_build) = generate_commands(&analysis);
    analysis.build_commands = build_commands;
    analysis.start_commands = start_commands;
    analysis.requires_build_step = requires_build;
    analysis
}

} // verus!
