use ecs_remote::choice::{first_answer, labels};
use ecs_remote::clusters::{chosen_cluster, resolve_cluster};
use ecs_remote::errors::DiscoveryError;
use ecs_remote::listing::sort_by_key;
use ecs_remote::services::{chosen_service, resolve_service, services_from_arns, ServiceInfo};
use ecs_remote::tasks::{TaskDefinitionRecord, TaskInfo};

fn strings(items: &[&str]) -> Vec<String> {
    items.iter().map(|item| item.to_string()).collect()
}

fn task(arn: &str, family: &str) -> TaskInfo {
    TaskInfo::new(arn.to_string(), TaskDefinitionRecord { family: Some(family.to_string()) })
}

fn names_of(tasks: &[TaskInfo]) -> Vec<String> {
    tasks.iter().map(|task| task.task_name.clone()).collect()
}

#[test]
fn tasks_are_ordered_by_logical_name() {
    let tasks = vec![task("t/1", "zeta"), task("t/2", "alpha"), task("t/3", "mu")];
    let sorted = sort_by_key(tasks);
    assert_eq!(names_of(&sorted), vec!["alpha", "mu", "zeta"]);
    assert_eq!(sorted[0].arn, "t/2");
    assert_eq!(sorted[1].arn, "t/3");
    assert_eq!(sorted[2].arn, "t/1");
}

#[test]
fn sorting_keeps_the_order_of_equal_names() {
    let tasks = vec![
        task("t/1", "web"),
        task("t/2", "api"),
        task("t/3", "web"),
        task("t/4", "api"),
        task("t/5", "web"),
    ];
    let sorted = sort_by_key(tasks);
    let arns: Vec<String> = sorted.iter().map(|task| task.arn.clone()).collect();
    assert_eq!(arns, vec!["t/2", "t/4", "t/1", "t/3", "t/5"]);
}

#[test]
fn sorting_keeps_every_entry() {
    let tasks = vec![task("t/1", "c"), task("t/2", "a"), task("t/3", "b"), task("t/4", "a")];
    let sorted = sort_by_key(tasks);
    assert_eq!(sorted.len(), 4);
    let mut arns: Vec<String> = sorted.iter().map(|task| task.arn.clone()).collect();
    arns.sort();
    assert_eq!(arns, vec!["t/1", "t/2", "t/3", "t/4"]);
}

#[test]
fn sorting_nothing_gives_nothing() {
    let sorted = sort_by_key(Vec::<TaskInfo>::new());
    assert!(sorted.is_empty());
    let one = sort_by_key(vec![task("t/1", "only")]);
    assert_eq!(names_of(&one), vec!["only"]);
}

#[test]
fn sorting_agrees_with_a_stable_sort() {
    let families = ["web", "api", "Web", "", "worker", "api", "a", "é", "web-2", "web-10", "b"];
    let tasks: Vec<TaskInfo> = families
        .iter()
        .enumerate()
        .map(|(i, family)| task(&format!("t/{}", i), family))
        .collect();
    let mut expected: Vec<(String, String)> =
        tasks.iter().map(|task| (task.task_name.clone(), task.arn.clone())).collect();
    expected.sort_by(|a, b| a.0.cmp(&b.0));
    let sorted = sort_by_key(tasks);
    let got: Vec<(String, String)> =
        sorted.iter().map(|task| (task.task_name.clone(), task.arn.clone())).collect();
    assert_eq!(got, expected);
}

#[test]
fn services_take_their_names_from_their_identifiers() {
    let service = ServiceInfo::from_arn("arn:aws:ecs:r:a:service/prod-main/checkout".to_string());
    assert_eq!(service.arn, "arn:aws:ecs:r:a:service/prod-main/checkout");
    assert_eq!(service.service_name, "checkout");
    let plain = ServiceInfo::from_arn("checkout".to_string());
    assert_eq!(plain.service_name, "checkout");
}

#[test]
fn services_are_sorted_by_name() {
    let services = services_from_arns(strings(&[
        "arn:aws:ecs:r:a:service/c/web",
        "arn:aws:ecs:r:a:service/c/api",
        "arn:aws:ecs:r:a:service/c/worker",
    ]));
    let names: Vec<String> = services.iter().map(|s| s.service_name.clone()).collect();
    assert_eq!(names, vec!["api", "web", "worker"]);
    assert_eq!(services[0].arn, "arn:aws:ecs:r:a:service/c/api");
    assert_eq!(services[1].arn, "arn:aws:ecs:r:a:service/c/web");
    assert_eq!(services[2].arn, "arn:aws:ecs:r:a:service/c/worker");
}

#[test]
fn services_of_one_name_stay_in_listing_order() {
    let services = services_from_arns(strings(&["x/web", "y/api", "z/web", "w/api"]));
    let arns: Vec<String> = services.iter().map(|s| s.arn.clone()).collect();
    assert_eq!(arns, vec!["y/api", "w/api", "x/web", "z/web"]);
}

#[test]
fn no_identifiers_give_no_services() {
    assert!(services_from_arns(Vec::new()).is_empty());
}

#[test]
fn hint_resolves_to_the_first_cluster_that_holds_it() {
    let clusters = strings(&["arn:aws:ecs:r:a:cluster/dev-a", "arn:aws:ecs:r:a:cluster/dev-b"]);
    let resolved = resolve_cluster(&clusters, "dev").unwrap();
    assert_eq!(resolved, "arn:aws:ecs:r:a:cluster/dev-a");
}

#[test]
fn hint_passes_over_clusters_that_do_not_hold_it() {
    let clusters = strings(&[
        "arn:aws:ecs:r:a:cluster/prod",
        "arn:aws:ecs:r:a:cluster/dev-a",
        "arn:aws:ecs:r:a:cluster/dev-b",
    ]);
    assert_eq!(resolve_cluster(&clusters, "dev-b").unwrap(), "arn:aws:ecs:r:a:cluster/dev-b");
    assert_eq!(resolve_cluster(&clusters, "cluster/").unwrap(), "arn:aws:ecs:r:a:cluster/prod");
    assert_eq!(
        resolve_cluster(&clusters, "arn:aws:ecs:r:a:cluster/dev-a").unwrap(),
        "arn:aws:ecs:r:a:cluster/dev-a"
    );
}

#[test]
fn hint_that_no_cluster_holds_is_named_in_the_error() {
    let clusters = strings(&["arn:aws:ecs:r:a:cluster/dev-a", "arn:aws:ecs:r:a:cluster/dev-b"]);
    let error = resolve_cluster(&clusters, "staging").unwrap_err();
    assert!(matches!(&error, DiscoveryError::ClusterNotFound { hint } if hint == "staging"));
    assert_eq!(error.message(), "Specified cluster 'staging' not found");
    let error = resolve_cluster(&clusters, "DEV").unwrap_err();
    assert!(matches!(&error, DiscoveryError::ClusterNotFound { hint } if hint == "DEV"));
}

#[test]
fn hint_against_no_clusters_finds_nothing() {
    let error = resolve_cluster(&Vec::new(), "dev").unwrap_err();
    assert!(matches!(error, DiscoveryError::ClusterNotFound { .. }));
}

#[test]
fn service_is_found_by_its_exact_name() {
    let services = services_from_arns(strings(&["s/c/web", "s/c/api", "s/c/web-admin"]));
    let found = resolve_service(&services, "web").unwrap();
    assert_eq!(found.service_name, "web");
    assert_eq!(found.arn, "s/c/web");
    let found = resolve_service(&services, "web-admin").unwrap();
    assert_eq!(found.arn, "s/c/web-admin");
}

#[test]
fn service_that_is_not_listed_is_named_in_the_error() {
    let services = services_from_arns(strings(&["s/c/web", "s/c/api"]));
    let error = resolve_service(&services, "nonexistent").unwrap_err();
    assert!(matches!(&error, DiscoveryError::ServiceNotFound { name } if name == "nonexistent"));
    assert_eq!(error.message(), "Specified service 'nonexistent' not found");
}

#[test]
fn service_name_must_match_whole_and_in_case() {
    let services = services_from_arns(strings(&["s/c/web", "s/c/api"]));
    assert!(resolve_service(&services, "we").is_err());
    assert!(resolve_service(&services, "web2").is_err());
    assert!(resolve_service(&services, "WEB").is_err());
    assert!(resolve_service(&services, "s/c/web").is_err());
    assert!(resolve_service(&services, "").is_err());
}

#[test]
fn first_answer_gives_the_place_of_the_first_match() {
    let clusters = strings(&["c/prod", "c/dev-a", "c/dev-b"]);
    assert_eq!(first_answer(&clusters, "dev"), Some(1));
    assert_eq!(first_answer(&clusters, "c/"), Some(0));
    assert_eq!(first_answer(&clusters, "dev-b"), Some(2));
    assert_eq!(first_answer(&clusters, "qa"), None);
    assert_eq!(first_answer(&Vec::<String>::new(), ""), None);
}

#[test]
fn labels_of_clusters_are_their_short_names() {
    let clusters = strings(&["arn:aws:ecs:r:a:cluster/dev-a", "plain", "x/y/z"]);
    assert_eq!(labels(&clusters), vec!["dev-a", "plain", "z"]);
    assert_eq!(labels(&Vec::<String>::new()), Vec::<String>::new());
}

#[test]
fn labels_of_services_are_their_names() {
    let services = services_from_arns(strings(&["s/c/web", "s/c/api"]));
    assert_eq!(labels(&services), vec!["api", "web"]);
}

#[test]
fn labels_of_tasks_hold_name_and_short_identifier() {
    let tasks = vec![task("arn:aws:ecs:r:a:task/c/0123abcd", "checkout"), task("plain", "api")];
    assert_eq!(labels(&tasks), vec!["checkout (0123abcd)", "api (plain)"]);
}

#[test]
fn chosen_entries_are_taken_by_their_place() {
    let clusters = strings(&["c/prod", "c/dev-a"]);
    assert_eq!(chosen_cluster(&clusters, 0), "c/prod");
    assert_eq!(chosen_cluster(&clusters, 1), "c/dev-a");
    let services = services_from_arns(strings(&["s/c/web", "s/c/api"]));
    let chosen = chosen_service(&services, 1);
    assert_eq!(chosen.service_name, "web");
    assert_eq!(chosen.arn, "s/c/web");
}

#[test]
fn copies_hold_the_same_text() {
    let service = ServiceInfo::from_arn("s/c/web".to_string());
    let copy = service.clone();
    assert_eq!(copy.arn, service.arn);
    assert_eq!(copy.service_name, service.service_name);
    let first = task("t/c/1", "web");
    let copy = first.clone();
    assert_eq!(copy.arn, "t/c/1");
    assert_eq!(copy.task_id, "1");
    assert_eq!(copy.task_name, "web");
}
