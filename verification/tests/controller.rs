use cloud_gpu::controller::conclude_workflow;
use cloud_gpu::controller::prepare_workflow;
use cloud_gpu::controller::show_how_to_configure;
use cloud_gpu::controller::spin_toml_path;
use cloud_gpu::controller::workflow_banner;
use cloud_gpu::controller::client_path_env_var;
use cloud_gpu::controller::App;
use cloud_gpu::controller::InvocationResult;
use cloud_gpu::controller::LifecycleError;

fn ok(diagnostic: &str) -> InvocationResult {
    InvocationResult { success: true, diagnostic: diagnostic.to_string() }
}

fn failed(diagnostic: &str) -> InvocationResult {
    InvocationResult { success: false, diagnostic: diagnostic.to_string() }
}

#[test]
fn provision_plan_builds_exact_args() {
    let plan = prepare_workflow(
        &App::Init,
        Some("/usr/local/bin/spin".to_string()),
        Some("/opt/plugin".to_string()),
    )
    .unwrap();
    assert_eq!(plan.program, "/usr/local/bin/spin");
    let token = plan.token.clone().unwrap();
    assert_eq!(
        plan.args,
        vec![
            "deploy".to_string(),
            "-f".to_string(),
            "/opt/plugin/fermyon-cloud-gpu/spin.toml".to_string(),
            "--variable".to_string(),
            format!("auth_token={token}"),
        ]
    );
}

#[test]
fn rotate_plan_builds_exact_args() {
    let plan =
        prepare_workflow(&App::Connect, Some("spin".to_string()), None).unwrap();
    assert_eq!(plan.program, "spin");
    let token = plan.token.clone().unwrap();
    assert_eq!(
        plan.args,
        vec![
            "cloud".to_string(),
            "variables".to_string(),
            "set".to_string(),
            format!("auth_token={token}"),
            "--app".to_string(),
            "fermyon-cloud-gpu".to_string(),
        ]
    );
}

#[test]
fn teardown_plan_has_no_token() {
    let plan =
        prepare_workflow(&App::Destroy, Some("spin".to_string()), None).unwrap();
    assert!(plan.token.is_none());
    assert_eq!(
        plan.args,
        vec![
            "cloud".to_string(),
            "apps".to_string(),
            "delete".to_string(),
            "fermyon-cloud-gpu".to_string(),
        ]
    );
    for arg in &plan.args {
        assert!(!arg.contains("auth_token"));
    }
}

#[test]
fn client_token_equals_operator_token() {
    let plan = prepare_workflow(
        &App::Init,
        Some("spin".to_string()),
        Some("/opt".to_string()),
    )
    .unwrap();
    let token = plan.token.clone().unwrap();
    let sent = plan.args[4].strip_prefix("auth_token=").unwrap();
    let handed = conclude_workflow(&App::Init, &plan.token, &ok(""))
        .unwrap()
        .unwrap();
    assert_eq!(sent, handed);
    assert_eq!(handed, token);
}

#[test]
fn missing_client_path_fails_every_workflow() {
    for app in [App::Init, App::Connect, App::Destroy] {
        let r = prepare_workflow(&app, None, Some("/opt".to_string()));
        assert!(matches!(r, Err(LifecycleError::EnvironmentUnresolved)));
    }
}

#[test]
fn missing_exe_dir_fails_provision_only() {
    let r = prepare_workflow(&App::Init, Some("spin".to_string()), None);
    assert!(matches!(r, Err(LifecycleError::DescriptorUnresolved)));
    assert!(prepare_workflow(&App::Connect, Some("spin".to_string()), None).is_ok());
    assert!(prepare_workflow(&App::Destroy, Some("spin".to_string()), None).is_ok());
}

#[test]
fn provision_success_emits_one_export_line() {
    let plan = prepare_workflow(
        &App::Init,
        Some("spin".to_string()),
        Some("/opt".to_string()),
    )
    .unwrap();
    let token = plan.token.clone().unwrap();
    let handed = conclude_workflow(&App::Init, &plan.token, &ok(""))
        .unwrap()
        .unwrap();
    let lines = show_how_to_configure(&handed);
    assert_eq!(lines.len(), 2);
    assert_eq!(lines[0], "Run the following command in your shell:");
    assert_eq!(lines[1], format!("export SPIN_CLOUD_GPU_AUTH_TOKEN={token}"));
    let exports: Vec<&String> =
        lines.iter().filter(|l| l.starts_with("export ")).collect();
    assert_eq!(exports.len(), 1);
    assert!(exports[0].ends_with(&token));
}

#[test]
fn provision_failure_surfaces_diagnostic_and_no_handoff() {
    let plan = prepare_workflow(
        &App::Init,
        Some("spin".to_string()),
        Some("/opt".to_string()),
    )
    .unwrap();
    let r = conclude_workflow(&App::Init, &plan.token, &failed("app not found"));
    match r {
        Err(LifecycleError::DeploymentFailed(d)) => {
            assert_eq!(d, "app not found");
            let msg = LifecycleError::DeploymentFailed(d).message();
            assert!(msg.contains("app not found"));
            assert_eq!(msg, "Failed to deploy fermyon-cloud-gpu: app not found");
        }
        _ => panic!("expected DeploymentFailed"),
    }
}

#[test]
fn rotate_success_hands_off_fresh_token() {
    let first = prepare_workflow(&App::Connect, Some("spin".to_string()), None).unwrap();
    let second = prepare_workflow(&App::Connect, Some("spin".to_string()), None).unwrap();
    let first_token = first.token.clone().unwrap();
    let second_token = second.token.clone().unwrap();
    assert_ne!(first_token, second_token);
    let handed = conclude_workflow(&App::Connect, &second.token, &ok(""))
        .unwrap()
        .unwrap();
    assert_eq!(handed, second_token);
}

#[test]
fn rotate_failure_surfaces_diagnostic() {
    let plan = prepare_workflow(&App::Connect, Some("spin".to_string()), None).unwrap();
    let r = conclude_workflow(&App::Connect, &plan.token, &failed("no such app"));
    match r {
        Err(LifecycleError::CredentialUpdateFailed(d)) => {
            assert_eq!(d, "no such app");
            let msg = LifecycleError::CredentialUpdateFailed(d).message();
            assert_eq!(
                msg,
                "Failed to update auth_token in fermyon-cloud-gpu: no such app"
            );
        }
        _ => panic!("expected CredentialUpdateFailed"),
    }
}

#[test]
fn teardown_success_emits_nothing() {
    let plan = prepare_workflow(&App::Destroy, Some("spin".to_string()), None).unwrap();
    let r = conclude_workflow(&App::Destroy, &plan.token, &ok("")).unwrap();
    assert!(r.is_none());
}

#[test]
fn teardown_failure_surfaces_diagnostic() {
    let plan = prepare_workflow(&App::Destroy, Some("spin".to_string()), None).unwrap();
    let r = conclude_workflow(&App::Destroy, &plan.token, &failed("denied"));
    match r {
        Err(LifecycleError::TeardownFailed(d)) => {
            assert_eq!(d, "denied");
            let msg = LifecycleError::TeardownFailed(d).message();
            assert_eq!(msg, "Failed to delete fermyon-cloud-gpu: denied");
        }
        _ => panic!("expected TeardownFailed"),
    }
}

#[test]
fn descriptor_path_is_fixed_relative_location() {
    assert_eq!(
        spin_toml_path("/home/user/.spin/plugins"),
        "/home/user/.spin/plugins/fermyon-cloud-gpu/spin.toml"
    );
}

#[test]
fn resolution_error_messages() {
    assert_eq!(
        LifecycleError::EnvironmentUnresolved.message(),
        "SPIN_BIN_PATH is not set in the environment"
    );
    assert_eq!(
        LifecycleError::DescriptorUnresolved.message(),
        "Could not get parent dir of executable"
    );
}

#[test]
fn banners_and_env_var_name() {
    assert_eq!(workflow_banner(&App::Init), "Deploying fermyon-cloud-gpu Spin app ...");
    assert_eq!(
        workflow_banner(&App::Connect),
        "Connecting to fermyon-cloud-gpu Spin app ..."
    );
    assert_eq!(
        workflow_banner(&App::Destroy),
        "Destroying fermyon-cloud-gpu Spin app ..."
    );
    assert_eq!(client_path_env_var(), "SPIN_BIN_PATH");
}
