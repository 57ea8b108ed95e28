//! The three workflows. Each run builds one invocation of the external
//! platform client (`prepare_workflow`), and interprets the client's
//! outcome (`conclude_workflow`): success hands the fresh token to the
//! operator where the workflow carries one, failure surfaces the
//! client's diagnostic text in the workflow's own error.

use vstd::prelude::*;
use vstd::string::StringExecFns;
use crate::token::generate_auth_token;
use crate::token::is_uuid_text;

verus! {

/// The operator-selected workflow: one run executes exactly one of these.
#[derive(Clone, Copy, Debug, PartialEq, Eq, Structural)]
pub enum App {
    /// Provision: deploy the managed application, injecting a fresh token.
    Init,
    /// RotateCredentials: set a fresh token on the deployed application.
    Connect,
    /// Teardown: delete the managed application. No token is involved.
    Destroy,
}

/// The fixed, well-known name of the managed application on the platform.
pub open spec fn app_name() -> Seq<char> {
    "fermyon-cloud-gpu"@
}

/// The deployment-variable assignment prefix: every token handed to the
/// client travels as `auth_token=<token>`.
pub open spec fn token_variable_prefix() -> Seq<char> {
    "auth_token="@
}

/// The prefix of the shell line the operator copies.
pub open spec fn export_prefix() -> Seq<char> {
    "export SPIN_CLOUD_GPU_AUTH_TOKEN="@
}

/// The shell line handed to the operator on success.
pub open spec fn export_line_spec(token: Seq<char>) -> Seq<char> {
    export_prefix() + token
}

/// A line is an export hand-off exactly when it begins with the export prefix.
pub open spec fn is_export_line(line: Seq<char>) -> bool {
    line.len() >= export_prefix().len() && line.take(export_prefix().len() as int)
        == export_prefix()
}

/// The prompt line of the operator hand-off.
pub open spec fn handoff_prompt() -> Seq<char> {
    "Run the following command in your shell:"@
}

/// The deployment descriptor lives in a fixed subdirectory beside the
/// running executable.
pub open spec fn descriptor_path_spec(exe_dir: Seq<char>) -> Seq<char> {
    exe_dir + "/fermyon-cloud-gpu/spin.toml"@
}

/// The client's argument vector for Provision.
pub open spec fn provision_args(descriptor: Seq<char>, token: Seq<char>) -> Seq<Seq<char>> {
    seq!["deploy"@, "-f"@, descriptor, "--variable"@, token_variable_prefix() + token]
}

/// The client's argument vector for RotateCredentials.
pub open spec fn rotate_args(token: Seq<char>) -> Seq<Seq<char>> {
    seq!["cloud"@, "variables"@, "set"@, token_variable_prefix() + token, "--app"@, app_name()]
}

/// The client's argument vector for Teardown.
pub open spec fn teardown_args() -> Seq<Seq<char>> {
    seq!["cloud"@, "apps"@, "delete"@, app_name()]
}

/// The views of an executable argument vector.
pub open spec fn args_view(args: Seq<String>) -> Seq<Seq<char>> {
    args.map_values(|s: String| s@)
}

/// Init and Connect generate and hand off a token; Destroy never does.
pub open spec fn needs_token(app: App) -> bool {
    app == App::Init || app == App::Connect
}

/// Why a run failed.
#[derive(Debug)]
pub enum LifecycleError {
    /// The environment variable naming the client executable was absent.
    EnvironmentUnresolved,
    /// The deployment descriptor's path could not be computed.
    DescriptorUnresolved,
    /// The client ran the deploy and reported failure; the field holds
    /// its diagnostic text.
    DeploymentFailed(String),
    /// The client ran the variable update and reported failure.
    CredentialUpdateFailed(String),
    /// The client ran the delete and reported failure.
    TeardownFailed(String),
}

/// The single-line operator message of each error.
pub open spec fn message_spec(e: LifecycleError) -> Seq<char> {
    match e {
        LifecycleError::EnvironmentUnresolved => "SPIN_BIN_PATH is not set in the environment"@,
        LifecycleError::DescriptorUnresolved => "Could not get parent dir of executable"@,
        LifecycleError::DeploymentFailed(d) => "Failed to deploy fermyon-cloud-gpu: "@ + d@,
        LifecycleError::CredentialUpdateFailed(d) => "Failed to update auth_token in fermyon-cloud-gpu: "@
            + d@,
        LifecycleError::TeardownFailed(d) => "Failed to delete fermyon-cloud-gpu: "@ + d@,
    }
}

impl LifecycleError {
    /// The human-readable line that names the failed workflow and, where
    /// the client ran, carries its diagnostic text verbatim.
    pub fn message(&self) -> (r: String)
        ensures
            r@ == message_spec(*self),
    {
        match self {
            LifecycleError::EnvironmentUnresolved => "SPIN_BIN_PATH is not set in the environment".to_owned(),
            LifecycleError::DescriptorUnresolved => "Could not get parent dir of executable".to_owned(),
            LifecycleError::DeploymentFailed(d) => "Failed to deploy fermyon-cloud-gpu: ".to_owned().concat(
                d.as_str(),
            ),
            LifecycleError::CredentialUpdateFailed(d) => "Failed to update auth_token in fermyon-cloud-gpu: ".to_owned().concat(
                d.as_str(),
            ),
            LifecycleError::TeardownFailed(d) => "Failed to delete fermyon-cloud-gpu: ".to_owned().concat(
                d.as_str(),
            ),
        }
    }
}

/// What one client invocation produced: whether the child process exited
/// successfully, and its captured standard-error text.
pub struct InvocationResult {
    /// True exactly when the child's exit status was zero.
    pub success: bool,
    /// The child's standard-error stream, decoded as best-effort text.
    pub diagnostic: String,
}

/// Everything one run sends to the client, plus the fresh token (present
/// exactly for the workflows that hand one off).
pub struct WorkflowPlan {
    /// The resolved path of the client executable.
    pub program: String,
    /// The argument vector handed to the client.
    pub args: Vec<String>,
    /// The fresh token, present exactly for Init and Connect.
    pub token: Option<String>,
}

/// The deployment-variable assignment handed to the client.
fn token_assignment(token: &str) -> (r: String)
    ensures
        r@ == token_variable_prefix() + token@,
{
    "auth_token=".to_owned().concat(token)
}

/// The descriptor path: the directory holding the running executable,
/// extended by the fixed subdirectory and file name.
pub fn spin_toml_path(exe_dir: &str) -> (r: String)
    ensures
        r@ == descriptor_path_spec(exe_dir@),
{
    exe_dir.to_owned().concat("/fermyon-cloud-gpu/spin.toml")
}

/// Builds the invocation for one run: resolves the client path and (for
/// Init) the descriptor, generates a fresh token exactly where the
/// workflow hands one off, and fixes the workflow's argument vector.
/// No process is spawned when resolution fails.
pub fn prepare_workflow(app: &App, client_path: Option<String>, exe_dir: Option<String>) -> (r:
    Result<WorkflowPlan, LifecycleError>)
    ensures
        r is Ok <==> (client_path is Some && (*app == App::Init ==> exe_dir is Some)),
        r matches Ok(plan) ==> {
            &&& client_path matches Some(c) && plan.program@ == c@
            &&& (needs_token(*app) <==> plan.token is Some)
            &&& (plan.token matches Some(t) ==> is_uuid_text(t@))
            &&& match *app {
                App::Init => plan.token matches Some(t) && exe_dir matches Some(d) && args_view(
                    plan.args@,
                ) == provision_args(descriptor_path_spec(d@), t@),
                App::Connect => plan.token matches Some(t) && args_view(plan.args@) == rotate_args(
                    t@,
                ),
                App::Destroy => args_view(plan.args@) == teardown_args(),
            }
        },
        r matches Err(e) ==> match e {
            LifecycleError::EnvironmentUnresolved => client_path is None,
            LifecycleError::DescriptorUnresolved => client_path is Some && *app == App::Init
                && exe_dir is None,
            _ => false,
        },
{
    let program = match client_path {
        Some(p) => p,
        None => {
            return Err(LifecycleError::EnvironmentUnresolved);
        },
    };
    match app {
        App::Init => {
            let dir = match exe_dir {
                Some(d) => d,
                None => {
                    return Err(LifecycleError::DescriptorUnresolved);
                },
            };
            let descriptor = spin_toml_path(dir.as_str());
            let token = generate_auth_token();
            let mut args: Vec<String> = Vec::new();
            args.push("deploy".to_owned());
            args.push("-f".to_owned());
            args.push(descriptor);
            args.push("--variable".to_owned());
            args.push(token_assignment(token.as_str()));
            proof {
                assert(args_view(args@) =~= provision_args(descriptor_path_spec(dir@), token@));
            }
            Ok(WorkflowPlan { program, args, token: Some(token) })
        },
        App::Connect => {
            let token = generate_auth_token();
            let mut args: Vec<String> = Vec::new();
            args.push("cloud".to_owned());
            args.push("variables".to_owned());
            args.push("set".to_owned());
            args.push(token_assignment(token.as_str()));
            args.push("--app".to_owned());
            args.push("fermyon-cloud-gpu".to_owned());
            proof {
                assert(args_view(args@) =~= rotate_args(token@));
            }
            Ok(WorkflowPlan { program, args, token: Some(token) })
        },
        App::Destroy => {
            let mut args: Vec<String> = Vec::new();
            args.push("cloud".to_owned());
            args.push("apps".to_owned());
            args.push("delete".to_owned());
            args.push("fermyon-cloud-gpu".to_owned());
            proof {
                assert(args_view(args@) =~= teardown_args());
            }
            Ok(WorkflowPlan { program, args, token: None })
        },
    }
}

/// Interprets the client's outcome for one run. A zero exit status is
/// success: the run's token (where the workflow carries one) is handed
/// back for the operator, byte-identical to the one the client received.
/// A non-zero exit status is failure: the workflow's error carries the
/// client's diagnostic text verbatim, and no hand-off occurs.
pub fn conclude_workflow(app: &App, token: &Option<String>, outcome: &InvocationResult) -> (r:
    Result<Option<String>, LifecycleError>)
    requires
        needs_token(*app) <==> token is Some,
    ensures
        r is Ok <==> outcome.success,
        outcome.success && needs_token(*app) ==> (r matches Ok(Some(handed)) && (
        token matches Some(t) && handed@ == t@)),
        outcome.success && !needs_token(*app) ==> r matches Ok(None),
        !outcome.success ==> (r matches Err(e) && is_workflow_failure(e, *app,
        outcome.diagnostic@)),
{
    if outcome.success {
        match token {
            Some(t) => Ok(Some(t.clone())),
            None => Ok(None),
        }
    } else {
        Err(
            match app {
                App::Init => LifecycleError::DeploymentFailed(outcome.diagnostic.clone()),
                App::Connect => LifecycleError::CredentialUpdateFailed(outcome.diagnostic.clone()),
                App::Destroy => LifecycleError::TeardownFailed(outcome.diagnostic.clone()),
            },
        )
    }
}

/// The failure outcome each workflow surfaces: its own error variant,
/// carrying the client's diagnostic text unchanged.
pub open spec fn is_workflow_failure(e: LifecycleError, app: App, diagnostic: Seq<char>) -> bool {
    match app {
        App::Init => e matches LifecycleError::DeploymentFailed(d) && d@ == diagnostic,
        App::Connect => e matches LifecycleError::CredentialUpdateFailed(d) && d@ == diagnostic,
        App::Destroy => e matches LifecycleError::TeardownFailed(d) && d@ == diagnostic,
    }
}

/// The operator hand-off: a prompt line, then the export instruction
/// that carries the run's token — exactly one such line.
pub fn show_how_to_configure(auth_token: &str) -> (r: Vec<String>)
    ensures
        r@.len() == 2,
        r@[0]@ == handoff_prompt(),
        r@[1]@ == export_line_spec(auth_token@),
{
    let mut lines: Vec<String> = Vec::new();
    lines.push("Run the following command in your shell:".to_owned());
    lines.push("export SPIN_CLOUD_GPU_AUTH_TOKEN=".to_owned().concat(auth_token));
    lines
}

/// The progress line each workflow announces itself with.
pub open spec fn banner_spec(app: App) -> Seq<char> {
    match app {
        App::Init => "Deploying fermyon-cloud-gpu Spin app ..."@,
        App::Connect => "Connecting to fermyon-cloud-gpu Spin app ..."@,
        App::Destroy => "Destroying fermyon-cloud-gpu Spin app ..."@,
    }
}

/// The progress line of the given workflow.
pub fn workflow_banner(app: &App) -> (r: String)
    ensures
        r@ == banner_spec(*app),
{
    match app {
        App::Init => "Deploying fermyon-cloud-gpu Spin app ...".to_owned(),
        App::Connect => "Connecting to fermyon-cloud-gpu Spin app ...".to_owned(),
        App::Destroy => "Destroying fermyon-cloud-gpu Spin app ...".to_owned(),
    }
}

/// The environment variable that must name the client executable; its
/// absence is a resolution failure, never a silent default.
pub fn client_path_env_var() -> (r: &'static str)
    ensures
        r@ == "SPIN_BIN_PATH"@,
{
    "SPIN_BIN_PATH"
}

/// The token the client receives and the token the operator sees are the
/// same character sequence: in both token-bearing argument vectors the
/// assignment element is the fixed prefix followed by the token, the
/// export line is its own fixed prefix followed by the token, and
/// stripping either prefix yields the token back unchanged.
pub proof fn lemma_token_handoff_identical(token: Seq<char>, descriptor: Seq<char>)
    ensures
        provision_args(descriptor, token)[4] == token_variable_prefix() + token,
        rotate_args(token)[3] == token_variable_prefix() + token,
        (token_variable_prefix() + token).skip(token_variable_prefix().len() as int) == token,
        export_line_spec(token).skip(export_prefix().len() as int) == token,
{
    assert((token_variable_prefix() + token).skip(token_variable_prefix().len() as int)
        =~= token);
    assert(export_line_spec(token).skip(export_prefix().len() as int) =~= token);
}

/// Of the two hand-off lines a successful token-carrying run produces,
/// exactly one is an export line: the export instruction is one, and the
/// prompt line is not.
pub proof fn lemma_exactly_one_export_line(token: Seq<char>)
    ensures
        is_export_line(export_line_spec(token)),
        !is_export_line(handoff_prompt()),
{
    reveal_strlit("export SPIN_CLOUD_GPU_AUTH_TOKEN=");
    reveal_strlit("Run the following command in your shell:");
    assert(export_line_spec(token).take(export_prefix().len() as int) =~= export_prefix());
    assert(handoff_prompt()[0] != export_prefix()[0]);
    assert(handoff_prompt().take(export_prefix().len() as int)[0] == handoff_prompt()[0]);
}

/// Teardown's argument vector never carries a token: no element of it is
/// a token-variable assignment, whatever the token.
pub proof fn lemma_teardown_carries_no_token(token: Seq<char>)
    ensures
        forall|i: int|
            0 <= i < teardown_args().len() ==> teardown_args()[i] != token_variable_prefix()
                + token,
{
    reveal_strlit("auth_token=");
    reveal_strlit("cloud");
    reveal_strlit("apps");
    reveal_strlit("delete");
    reveal_strlit("fermyon-cloud-gpu");
    let assignment = token_variable_prefix() + token;
    assert(assignment.len() >= 11);
    assert(assignment[0] == 'a');
    assert(teardown_args()[0].len() == 5);
    assert(teardown_args()[1].len() == 4);
    assert(teardown_args()[2].len() == 6);
    assert(teardown_args()[3][0] == 'f');
}

} // verus!
