use ecs_remote::errors::DiscoveryError;
use ecs_remote::launch::shell_command;
use ecs_remote::paging::Page;
use ecs_remote::session::{Action, Options, Session};
use ecs_remote::tasks::{TaskDefinitionRecord, TaskRecord};
use ecs_remote::validator::TaskRequest;

fn options(cluster: Option<&str>, service: Option<&str>) -> Options {
    Options {
        profile: "uat-admin".to_string(),
        cluster: cluster.map(|text| text.to_string()),
        service: service.map(|text| text.to_string()),
        container: "app".to_string(),
    }
}

fn page(items: &[&str], next_token: Option<&str>) -> Page<String> {
    Page {
        items: Some(items.iter().map(|item| item.to_string()).collect()),
        next_token: next_token.map(|token| token.to_string()),
    }
}

fn record(arn: &str, status: &str, exec: bool, definition: &str) -> TaskRecord {
    TaskRecord {
        task_arn: Some(arn.to_string()),
        last_status: Some(status.to_string()),
        enable_execute_command: exec,
        task_definition_arn: Some(definition.to_string()),
    }
}

fn family(name: &str) -> Option<TaskDefinitionRecord> {
    Some(TaskDefinitionRecord { family: Some(name.to_string()) })
}

fn expect_select(session: &Session, expected_prompt: &str, expected_labels: &[&str]) {
    match session.next_action() {
        Action::Select { prompt, labels } => {
            assert_eq!(prompt, expected_prompt);
            assert_eq!(labels, expected_labels);
        },
        other => panic!("a choice was to be asked for, not {:?}", other),
    }
}

fn expect_abort(session: &Session) -> DiscoveryError {
    match session.next_action() {
        Action::Abort { error } => error,
        other => panic!("the run was to be given up, not {:?}", other),
    }
}

const CLUSTER: &str = "arn:aws:ecs:r:a:cluster/prod-main";
const SERVICE: &str = "arn:aws:ecs:r:a:service/prod-main/checkout";

fn at_task_listing() -> Session {
    let session = Session::new(options(Some("prod"), Some("checkout")));
    let session = session.on_page(page(&[CLUSTER], None));
    session.on_page(page(&[SERVICE], None))
}

#[test]
fn end_to_end_with_one_valid_task_of_three() {
    let session = Session::new(options(None, None));
    assert!(matches!(session.next_action(), Action::ListClusters { next_token: None }));
    let session = session.on_page(page(&[CLUSTER], None));
    expect_select(&session, "Select Cluster", &["prod-main"]);
    let session = session.on_choice(0);
    match session.next_action() {
        Action::ListServices { cluster, next_token } => {
            assert_eq!(cluster, CLUSTER);
            assert_eq!(next_token, None);
        },
        other => panic!("the services were to be listed, not {:?}", other),
    }
    let session = session.on_page(page(&[SERVICE], None));
    expect_select(&session, "Select Service", &["checkout"]);
    let session = session.on_choice(0);
    match session.next_action() {
        Action::Task {
            request: TaskRequest::ListTasks { cluster, service_name, desired_status, next_token },
        } => {
            assert_eq!(cluster, CLUSTER);
            assert_eq!(service_name, "checkout");
            assert_eq!(desired_status, "RUNNING");
            assert_eq!(next_token, None);
        },
        other => panic!("the tasks were to be listed, not {:?}", other),
    }
    let session = session.on_task_page(page(&["t/prod-main/1", "t/prod-main/2", "t/prod-main/3"], None));
    match session.next_action() {
        Action::Task { request: TaskRequest::DescribeTasks { cluster, tasks } } => {
            assert_eq!(cluster, CLUSTER);
            assert_eq!(tasks, vec!["t/prod-main/1", "t/prod-main/2", "t/prod-main/3"]);
        },
        other => panic!("the tasks were to be described, not {:?}", other),
    }
    let session = session.on_descriptions(Some(vec![
        record("t/prod-main/1", "RUNNING", true, "checkout:7"),
        record("t/prod-main/2", "RUNNING", false, "checkout:7"),
        record("t/prod-main/3", "STOPPED", true, "checkout:7"),
    ]));
    match session.next_action() {
        Action::Task { request: TaskRequest::DescribeTaskDefinition { task_definition } } => {
            assert_eq!(task_definition, "checkout:7");
        },
        other => panic!("the definition was to be described, not {:?}", other),
    }
    let session = session.on_definition(family("checkout"));
    expect_select(&session, "Select Task for ECS Exec", &["checkout (1)"]);
    let session = session.on_choice(0);
    match session.next_action() {
        Action::Launch { command } => {
            assert_eq!(command.program, "aws");
            assert_eq!(
                command.args,
                vec![
                    "ecs",
                    "execute-command",
                    "--cluster",
                    "prod-main",
                    "--task",
                    "1",
                    "--container",
                    "app",
                    "--command",
                    "/bin/bash",
                    "--interactive",
                    "--profile",
                    "uat-admin",
                ]
            );
        },
        other => panic!("the shell was to be opened, not {:?}", other),
    }
    let session = session.on_launched();
    assert!(matches!(session.next_action(), Action::Finish));
}

#[test]
fn shell_command_names_cluster_and_task_by_short_name() {
    let command = shell_command(
        "arn:aws:ecs:eu-west-1:123:cluster/prod-main",
        "arn:aws:ecs:eu-west-1:123:task/prod-main/0123abcd",
        "web",
        "default",
    );
    assert_eq!(command.program, "aws");
    assert_eq!(
        command.args,
        vec![
            "ecs",
            "execute-command",
            "--cluster",
            "prod-main",
            "--task",
            "0123abcd",
            "--container",
            "web",
            "--command",
            "/bin/bash",
            "--interactive",
            "--profile",
            "default",
        ]
    );
}

#[test]
fn shell_command_takes_identifiers_without_separator_as_they_are() {
    let command = shell_command("prod", "0123", "", "p");
    assert_eq!(command.args[3], "prod");
    assert_eq!(command.args[5], "0123");
    assert_eq!(command.args[7], "");
    assert_eq!(command.args[12], "p");
    assert_eq!(command.args.len(), 13);
}

#[test]
fn error_messages_name_what_was_not_found() {
    assert_eq!(DiscoveryError::NoClusters.message(), "No clusters found.");
    assert_eq!(
        DiscoveryError::ClusterNotFound { hint: "dev".to_string() }.message(),
        "Specified cluster 'dev' not found"
    );
    assert_eq!(
        DiscoveryError::NoServices { cluster: CLUSTER.to_string() }.message(),
        "No services found in cluster arn:aws:ecs:r:a:cluster/prod-main"
    );
    assert_eq!(
        DiscoveryError::ServiceNotFound { name: "nonexistent".to_string() }.message(),
        "Specified service 'nonexistent' not found"
    );
    assert_eq!(
        DiscoveryError::NoValidTasks { service: "checkout".to_string() }.message(),
        "No tasks with execute command enabled found in service checkout"
    );
}

#[test]
fn error_messages_from_outside_are_kept_as_they_came() {
    assert_eq!(DiscoveryError::Transport { reason: "timed out".to_string() }.message(), "timed out");
    assert_eq!(
        DiscoveryError::SelectionAborted { reason: "read interrupted".to_string() }.message(),
        "read interrupted"
    );
    assert_eq!(
        DiscoveryError::LaunchFailed { reason: "No such file".to_string() }.message(),
        "No such file"
    );
    let copy = DiscoveryError::ClusterNotFound { hint: "x".to_string() }.clone();
    assert_eq!(copy.message(), "Specified cluster 'x' not found");
}

#[test]
fn session_pages_through_the_clusters() {
    let session = Session::new(options(None, None));
    let session = session.on_page(page(&["c/a", "c/b"], Some("t1")));
    match session.next_action() {
        Action::ListClusters { next_token } => assert_eq!(next_token, Some("t1".to_string())),
        other => panic!("the clusters were to be listed, not {:?}", other),
    }
    let session = session.on_page(page(&["c/c"], None));
    expect_select(&session, "Select Cluster", &["a", "b", "c"]);
    let session = session.on_choice(2);
    match session.next_action() {
        Action::ListServices { cluster, .. } => assert_eq!(cluster, "c/c"),
        other => panic!("the services were to be listed, not {:?}", other),
    }
}

#[test]
fn session_without_clusters_fails() {
    let session = Session::new(options(None, None)).on_page(page(&[], None));
    let error = expect_abort(&session);
    assert!(matches!(error, DiscoveryError::NoClusters));
    let session = Session::new(options(Some("dev"), None)).on_page(page(&[], None));
    assert!(matches!(expect_abort(&session), DiscoveryError::NoClusters));
}

#[test]
fn session_resolves_the_cluster_hint_to_the_first_match() {
    let session = Session::new(options(Some("dev"), None));
    let session = session.on_page(page(&["x:cluster/prod", "x:cluster/dev-a", "x:cluster/dev-b"], None));
    match session.next_action() {
        Action::ListServices { cluster, next_token } => {
            assert_eq!(cluster, "x:cluster/dev-a");
            assert_eq!(next_token, None);
        },
        other => panic!("the services were to be listed, not {:?}", other),
    }
}

#[test]
fn session_fails_on_a_cluster_hint_that_matches_nothing() {
    let session = Session::new(options(Some("staging"), None));
    let session = session.on_page(page(&["x:cluster/prod"], None));
    let error = expect_abort(&session);
    assert!(matches!(&error, DiscoveryError::ClusterNotFound { hint } if hint == "staging"));
    assert_eq!(error.message(), "Specified cluster 'staging' not found");
}

#[test]
fn session_sorts_the_services_and_pages_through_them() {
    let session = Session::new(options(Some("prod"), None)).on_page(page(&[CLUSTER], None));
    let session = session.on_page(page(&["s/p/web", "s/p/api"], Some("t1")));
    match session.next_action() {
        Action::ListServices { cluster, next_token } => {
            assert_eq!(cluster, CLUSTER);
            assert_eq!(next_token, Some("t1".to_string()));
        },
        other => panic!("the services were to be listed, not {:?}", other),
    }
    let session = session.on_page(page(&["s/p/batch"], None));
    expect_select(&session, "Select Service", &["api", "batch", "web"]);
    let session = session.on_choice(1);
    match session.next_action() {
        Action::Task { request: TaskRequest::ListTasks { service_name, .. } } => {
            assert_eq!(service_name, "batch")
        },
        other => panic!("the tasks were to be listed, not {:?}", other),
    }
}

#[test]
fn session_without_services_fails_and_names_the_cluster() {
    let session = Session::new(options(Some("prod"), None)).on_page(page(&[CLUSTER], None));
    let session = session.on_page(page(&[], None));
    let error = expect_abort(&session);
    assert!(matches!(&error, DiscoveryError::NoServices { cluster } if cluster == CLUSTER));
}

#[test]
fn session_fails_on_a_service_name_that_is_not_listed() {
    let session = Session::new(options(Some("prod"), Some("nonexistent")));
    let session = session.on_page(page(&[CLUSTER], None));
    let session = session.on_page(page(&["s/p/web", "s/p/api"], None));
    let error = expect_abort(&session);
    assert!(matches!(&error, DiscoveryError::ServiceNotFound { name } if name == "nonexistent"));
    assert_eq!(error.message(), "Specified service 'nonexistent' not found");
}

#[test]
fn session_without_valid_tasks_fails_and_names_the_service() {
    let session = at_task_listing().on_task_page(page(&["t/1"], None));
    let session = session.on_descriptions(Some(vec![record("t/1", "RUNNING", false, "d:1")]));
    let error = expect_abort(&session);
    assert!(matches!(&error, DiscoveryError::NoValidTasks { service } if service == "checkout"));
    let session = at_task_listing().on_task_page(page(&[], None));
    assert!(matches!(expect_abort(&session), DiscoveryError::NoValidTasks { .. }));
}

#[test]
fn session_offers_the_tasks_sorted_by_name() {
    let session = at_task_listing().on_task_page(page(&["t/1", "t/2", "t/3"], None));
    let session = session.on_descriptions(Some(vec![
        record("t/1", "RUNNING", true, "d:1"),
        record("t/2", "RUNNING", true, "d:2"),
        record("t/3", "RUNNING", true, "d:3"),
    ]));
    let session = session.on_definition(family("zeta"));
    let session = session.on_definition(family("alpha"));
    let session = session.on_definition(None);
    expect_select(&session, "Select Task for ECS Exec", &["alpha (2)", "zeta (1)"]);
    let session = session.on_choice(1);
    match session.next_action() {
        Action::Launch { command } => {
            assert_eq!(command.args[3], "prod-main");
            assert_eq!(command.args[5], "1");
        },
        other => panic!("the shell was to be opened, not {:?}", other),
    }
}

#[test]
fn session_asks_again_after_a_choice_that_is_no_place_in_the_list() {
    let session = Session::new(options(None, None)).on_page(page(&["c/a", "c/b"], None));
    let session = session.on_choice(2);
    expect_select(&session, "Select Cluster", &["a", "b"]);
    let session = session.on_choice(usize::MAX);
    expect_select(&session, "Select Cluster", &["a", "b"]);
}

#[test]
fn session_names_a_failure_by_its_stage() {
    let listing = Session::new(options(None, None)).on_failure("connection reset".to_string());
    let error = expect_abort(&listing);
    assert!(matches!(&error, DiscoveryError::Transport { reason } if reason == "connection reset"));

    let choosing = Session::new(options(None, None)).on_page(page(&["c/a"], None));
    let error = expect_abort(&choosing.on_failure("interrupted".to_string()));
    assert!(matches!(&error, DiscoveryError::SelectionAborted { reason } if reason == "interrupted"));

    let tasks = at_task_listing().on_failure("throttled".to_string());
    assert!(matches!(expect_abort(&tasks), DiscoveryError::Transport { .. }));

    let session = at_task_listing().on_task_page(page(&["t/1"], None));
    let session = session.on_descriptions(Some(vec![record("t/1", "RUNNING", true, "d:1")]));
    let session = session.on_definition(family("web")).on_choice(0);
    let error = expect_abort(&session.on_failure("aws: not found".to_string()));
    assert!(matches!(&error, DiscoveryError::LaunchFailed { reason } if reason == "aws: not found"));
}

#[test]
fn session_that_is_over_stays_as_it_is() {
    let failed = Session::new(options(None, None)).on_page(page(&[], None));
    let failed = failed.on_failure("late".to_string());
    assert!(matches!(expect_abort(&failed), DiscoveryError::NoClusters));
    let failed = failed.on_page(page(&["c/a"], None)).on_choice(0).on_launched();
    assert!(matches!(expect_abort(&failed), DiscoveryError::NoClusters));

    let session = at_task_listing().on_task_page(page(&["t/1"], None));
    let session = session.on_descriptions(Some(vec![record("t/1", "RUNNING", true, "d:1")]));
    let done = session.on_definition(family("web")).on_choice(0).on_launched();
    let done = done.on_failure("late".to_string());
    assert!(matches!(done.next_action(), Action::Finish));
}

#[test]
fn session_ignores_what_it_did_not_wait_for() {
    let session = Session::new(options(None, None));
    let session = session.on_choice(0).on_launched();
    let session = session.on_task_page(page(&["t/1"], None));
    let session = session.on_descriptions(None).on_definition(None);
    assert!(matches!(session.next_action(), Action::ListClusters { next_token: None }));
    let session = at_task_listing().on_page(page(&["c/other"], None));
    assert!(matches!(
        session.next_action(),
        Action::Task { request: TaskRequest::ListTasks { .. } }
    ));
}
