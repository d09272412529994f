use pmp_deploy::text::{split_text, trim_text};
use pmp_deploy::cli::wizard::parse_custom_environments;
use pmp_deploy::cli::commands::{InitArgs, PluginNewArgs, ResumeAction, ResumeArgs};
use pmp_deploy::cli::plugin_template::{to_pascal_case, PluginGenerator};
use pmp_deploy::cli::wizard::{
    check_init_target, environment_names, generate_config_from_selections, init_template, ConnectionDetails,
    DeployModeSelection, DockerComposeDetails, EnvironmentSelection, InfrastructureTypeSelection,
};

fn selection(name: &str, t: InfrastructureTypeSelection) -> EnvironmentSelection {
    EnvironmentSelection {
        name: name.to_string(),
        infrastructure_type: t,
        deploy_mode: DeployModeSelection::Full,
        connection_details: None,
    }
}

#[test]
fn test_generate_config_single_env_full_mode() {
    let selections = vec![selection("development", InfrastructureTypeSelection::DockerCompose)];

    let config = generate_config_from_selections(&selections);

    assert!(config.contains("infrastructure:"));
    assert!(config.contains("type: docker-compose"));
    assert!(config.contains("environments:"));
    assert!(config.contains("development:"));
    assert!(config.contains("deployment_type: all-in"));
}

#[test]
fn test_generate_config_app_only_mode() {
    let selections = vec![EnvironmentSelection {
        name: "staging".to_string(),
        infrastructure_type: InfrastructureTypeSelection::DockerCompose,
        deploy_mode: DeployModeSelection::AppOnly,
        connection_details: Some(ConnectionDetails::DockerCompose(DockerComposeDetails {
            compose_file: "./custom-compose.yml".to_string(),
            project_name: "myproject".to_string(),
        })),
    }];

    let config = generate_config_from_selections(&selections);

    assert!(config.contains("compose_file: ./custom-compose.yml"));
    assert!(config.contains("project_name: myproject"));
}

#[test]
fn test_generate_config_multiple_environments() {
    let selections = vec![
        selection("development", InfrastructureTypeSelection::DockerCompose),
        selection("production", InfrastructureTypeSelection::AwsEcs),
    ];

    let config = generate_config_from_selections(&selections);

    assert!(config.contains("development:"));
    assert!(config.contains("production:"));
    assert!(config.contains("type: docker-compose"));
    assert!(config.contains("type: aws-ecs"));
}

#[test]
fn test_eks_includes_replicas() {
    let selections = vec![selection("staging", InfrastructureTypeSelection::AwsEks)];

    let config = generate_config_from_selections(&selections);

    assert!(config.contains("replicas: 2"));
    assert!(config.contains("deployment_type: rolling-update"));
}

#[test]
fn generated_config_is_exact_and_lists_each_infrastructure_once() {
    let selections = vec![
        selection("dev", InfrastructureTypeSelection::Kubernetes),
        selection("dev", InfrastructureTypeSelection::Kubernetes),
    ];
    let config = generate_config_from_selections(&selections);
    assert_eq!(
        config,
        "# pmp-deploy configuration\n\ninfrastructure:\n  dev-kubernetes:\n    type: kubernetes\n    config:\n      context: my-context\n      namespace: default\n\nenvironments:\n  dev:\n    infrastructure: dev-kubernetes\n    deployment_type: rolling-update\n    image: my-app:latest\n    replicas: 2\n  dev:\n    infrastructure: dev-kubernetes\n    deployment_type: rolling-update\n    image: my-app:latest\n    replicas: 2\n"
    );
    assert_eq!(config.matches("type: kubernetes").count(), 1);
}

#[test]
fn wizard_menus_and_templates() {
    let names = environment_names(&vec![2, 0, 3], &vec!["qa".to_string()]);
    assert_eq!(names, vec!["production", "development", "qa"]);
    assert!(environment_names(&vec![], &vec!["qa".to_string()]).is_empty());
    assert_eq!(DeployModeSelection::from_index(0), DeployModeSelection::Full);
    assert_eq!(DeployModeSelection::from_index(1), DeployModeSelection::AppOnly);
    assert_eq!(InfrastructureTypeSelection::all().len(), 5);
    assert!(init_template("aws-eks").contains("cluster_name: my-cluster"));
    assert!(init_template("unknown").contains("type: docker-compose"));
    assert!(check_init_target(true, false).is_err());
    assert!(check_init_target(true, true).is_ok());
    let args = InitArgs { infrastructure: None, force: false, non_interactive: true };
    assert_eq!(args.template_type(), Some("docker-compose".to_string()));
    let args = InitArgs { infrastructure: None, force: false, non_interactive: false };
    assert_eq!(args.template_type(), None);
}

#[test]
fn test_to_pascal_case() {
    assert_eq!(to_pascal_case("my-plugin"), "MyPlugin");
    assert_eq!(to_pascal_case("my_plugin"), "MyPlugin");
    assert_eq!(to_pascal_case("hello-world-test"), "HelloWorldTest");
    assert_eq!(to_pascal_case("simple"), "Simple");
}

#[test]
fn pascal_case_edge_cases() {
    assert_eq!(to_pascal_case(""), "");
    assert_eq!(to_pascal_case("--a__b-"), "AB");
    assert_eq!(to_pascal_case("ünïcode-x"), "ÜnïcodeX");
}

#[test]
fn test_crate_name() {
    let args = PluginNewArgs {
        name: "my-cloud".to_string(),
        output_dir: None,
        infrastructure_type: "my-cloud".to_string(),
        description: None,
    };
    let generator = PluginGenerator::new(&args);
    assert_eq!(generator.crate_name(), "pmp-deploy-my_cloud-plugin");
}

#[test]
fn plugin_scaffold_files() {
    let args = PluginNewArgs {
        name: "my-cloud".to_string(),
        output_dir: None,
        infrastructure_type: "my-cloud".to_string(),
        description: None,
    };
    let generator = PluginGenerator::new(&args);
    assert_eq!(generator.output_dir(), "my-cloud");
    let files = generator.generate();
    assert_eq!(files[0].path, "my-cloud/Cargo.toml");
    assert!(files[0].content.contains("name = \"pmp-deploy-my_cloud-plugin\""));
    assert!(files[0].content.contains("description = \"my-cloud infrastructure plugin for pmp-deploy\""));
    assert_eq!(files[1].path, "my-cloud/src/lib.rs");
    assert!(files[1].content.contains("pub struct MyCloudPlugin;"));
    assert!(files[1].content.contains("infrastructure_type: \"my-cloud\","));
    assert_eq!(files[2].path, "my-cloud/README.md");
    assert!(files[2].content.starts_with("# my-cloud-plugin\n"));
}

#[test]
fn resume_actions() {
    let a = ResumeArgs { deployment_id: None, list: false, clear: true, yes: false };
    assert_eq!(a.action(), ResumeAction::List);
    let a = ResumeArgs { deployment_id: Some("d".to_string()), list: false, clear: true, yes: false };
    assert_eq!(a.action(), ResumeAction::Clear);
    let a = ResumeArgs { deployment_id: Some("d".to_string()), list: false, clear: false, yes: false };
    assert_eq!(a.action(), ResumeAction::Resume);
}

#[test]
fn custom_environment_names_are_trimmed_and_non_empty() {
    assert_eq!(parse_custom_environments(" qa , perf,, ,demo "), vec!["qa", "perf", "demo"]);
    assert!(parse_custom_environments("").is_empty());
}

#[test]
fn text_splitting_and_trimming() {
    assert_eq!(split_text("a,,b", ','), vec!["a", "", "b"]);
    assert_eq!(split_text("", ','), vec![""]);
    assert_eq!(trim_text("\t x y \n"), "x y");
    assert_eq!(trim_text("   "), "");
}
