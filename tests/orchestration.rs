use swarm_updater::docker::{update_response, Docker, DockerBuilder, DockerError};
use swarm_updater::image::{image_reference, parse_image};
use swarm_updater::labels::StringMap;
use swarm_updater::types::{
    Service, ServiceContainerSpec, ServiceSpec, ServiceTaskTemplate, ServiceVersion, Timestamp,
    STACK_IMAGE_LABEL,
};
use swarm_updater::update::{
    collect_outcomes, is_selected, plan_updates, ServiceResume, UpdateServiceRequest,
};

fn service(id: &str, name: &str, image: &str, version: u64) -> Service {
    Service {
        id: id.to_string(),
        version: ServiceVersion { index: version },
        created_at: Timestamp { seconds: 1_700_000_000, nanos: 5 },
        updated_at: Timestamp { seconds: 1_700_000_100, nanos: 7 },
        spec: ServiceSpec {
            name: name.to_string(),
            labels: None,
            task_template: ServiceTaskTemplate {
                container_spec: ServiceContainerSpec {
                    image: image.to_string(),
                    labels: None,
                    args: None,
                    env: Some(vec!["A=1".to_string()]),
                    privileges: None,
                    mounts: None,
                    configs: None,
                    health_check: None,
                    isolation: None,
                },
                resources: None,
                placement: None,
                networks: None,
                force_update: Some(3),
                runtime: None,
            },
            mode: None,
            endpoint_spec: None,
        },
        previous_spec: None,
        endpoint: None,
        update_status: None,
        service_http_url: String::new(),
    }
}

fn by_image(image: &str, tag: &str) -> UpdateServiceRequest {
    UpdateServiceRequest { image: image.to_string(), tag: tag.to_string(), service: None }
}

#[test]
fn parse_drops_digest() {
    let (repo, tag) = parse_image("repo:1.2@sha256:abcd");
    assert_eq!(repo, "repo");
    assert_eq!(tag, "1.2");
}

#[test]
fn parse_without_tag_gives_empty_tag() {
    let (repo, tag) = parse_image("repo");
    assert_eq!(repo, "repo");
    assert_eq!(tag, "");
}

#[test]
fn parse_digest_without_tag() {
    let (repo, tag) = parse_image("repo@sha256:abcd");
    assert_eq!(repo, "repo");
    assert_eq!(tag, "");
}

#[test]
fn reference_is_repository_colon_tag() {
    assert_eq!(image_reference("app", "2.0"), "app:2.0");
    assert_eq!(image_reference("registry/app", ""), "registry/app:");
}

#[test]
fn prefix_selects_any_tag() {
    let req = by_image("foo", "2.0");
    assert!(is_selected(&req, &service("1", "a", "foo:1.0", 1)));
    assert!(is_selected(&req, &service("2", "b", "foo:latest", 1)));
    assert!(is_selected(&req, &service("3", "c", "foo:1.0@sha256:ff", 1)));
}

#[test]
fn prefix_respects_separator() {
    let req = by_image("foo", "2.0");
    assert!(!is_selected(&req, &service("1", "a", "foobar:1.0", 1)));
    assert!(!is_selected(&req, &service("2", "b", "foo", 1)));
    assert!(!is_selected(&req, &service("3", "c", "bar:1.0", 1)));
}

#[test]
fn name_overrides_image() {
    let req = UpdateServiceRequest {
        image: "foo".to_string(),
        tag: "2.0".to_string(),
        service: Some("x".to_string()),
    };
    assert!(is_selected(&req, &service("1", "x", "bar:9", 1)));
    assert!(!is_selected(&req, &service("2", "y", "foo:1.0", 1)));
}

#[test]
fn unknown_name_selects_nothing() {
    let req = UpdateServiceRequest {
        image: "foo".to_string(),
        tag: "2.0".to_string(),
        service: Some("missing".to_string()),
    };
    let plans = plan_updates(&req, vec![service("1", "x", "foo:1.0", 1)]);
    assert!(plans.is_empty());
}

#[test]
fn no_match_gives_empty_plan() {
    let req = by_image("nothing", "2.0");
    let services = vec![service("1", "a", "foo:1.0", 1), service("2", "b", "bar:1.0", 2)];
    let plans = plan_updates(&req, services);
    assert!(plans.is_empty());
    let outcomes = collect_outcomes(plans, vec![]);
    assert!(outcomes.is_empty());
}

#[test]
fn end_to_end_single_service() {
    let docker = Docker::new("http://localhost:8080");
    let listed = docker.with_service_urls(vec![service("abc", "web", "app:1.0", 5)]);
    assert_eq!(listed[0].service_http_url, "http://localhost:8080/services/abc");
    let plans = plan_updates(&by_image("app", "2.0"), listed);
    assert_eq!(plans.len(), 1);
    let call = &plans[0].call;
    assert_eq!(call.id, "abc");
    assert_eq!(call.version, 5);
    assert_eq!(call.url, "http://localhost:8080/services/abc/update?version=5");
    assert_eq!(call.spec.task_template.container_spec.image, "app:2.0");
    assert_eq!(call.spec.name, "web");
    assert_eq!(call.spec.task_template.force_update, Some(3));
    assert_eq!(
        call.spec.task_template.container_spec.env,
        Some(vec!["A=1".to_string()])
    );
    let outcomes = collect_outcomes(plans, vec![update_response(true, String::new())]);
    assert_eq!(outcomes.len(), 1);
    assert_eq!(outcomes[0].service.tag, "1.0");
    assert_eq!(outcomes[0].service.image, "app");
    assert_eq!(outcomes[0].service.name, "web");
    assert_eq!(outcomes[0].service.version, 5);
    assert_eq!(outcomes[0].image, "app:2.0");
    assert_eq!(outcomes[0].result.as_ref().unwrap(), "Service updated");
}

#[test]
fn version_token_is_the_listed_one() {
    let docker = Docker::new("http://cp");
    let listed = docker.with_service_urls(vec![
        service("a", "one", "app:1.0", 1234),
        service("b", "two", "app:1.1", 18446744073709551615),
    ]);
    let plans = plan_updates(&by_image("app", "3"), listed);
    assert_eq!(plans[0].call.version, 1234);
    assert_eq!(plans[0].call.url, "http://cp/services/a/update?version=1234");
    assert_eq!(plans[1].call.version, 18446744073709551615);
    assert_eq!(plans[1].call.url, "http://cp/services/b/update?version=18446744073709551615");
}

#[test]
fn failure_of_one_update_leaves_the_others() {
    let services = vec![
        service("1", "a", "app:1.0", 10),
        service("2", "b", "app:1.1", 20),
        service("3", "c", "app:1.2", 30),
    ];
    let plans = plan_updates(&by_image("app", "2.0"), services);
    assert_eq!(plans.len(), 3);
    let results = vec![
        update_response(true, String::new()),
        update_response(false, "update out of sequence".to_string()),
        update_response(true, String::new()),
    ];
    let outcomes = collect_outcomes(plans, results);
    assert_eq!(outcomes.len(), 3);
    assert!(outcomes[0].result.is_ok());
    assert!(outcomes[2].result.is_ok());
    match &outcomes[1].result {
        Err(DockerError::ServiceUpdateError(text)) => assert_eq!(text, "update out of sequence"),
        other => panic!("unexpected result {:?}", other),
    }
    assert_eq!(outcomes[0].service.id, "1");
    assert_eq!(outcomes[1].service.id, "2");
    assert_eq!(outcomes[2].service.id, "3");
}

#[test]
fn selection_keeps_list_order() {
    let services = vec![
        service("1", "a", "app:1.0", 1),
        service("2", "b", "other:1.0", 2),
        service("3", "c", "app:0.9", 3),
    ];
    let plans = plan_updates(&by_image("app", "2.0"), services);
    assert_eq!(plans.len(), 2);
    assert_eq!(plans[0].service.id, "1");
    assert_eq!(plans[1].service.id, "3");
    assert_eq!(plans[1].service.tag, "0.9");
}

#[test]
fn stack_label_follows_image() {
    let mut s = service("1", "web", "app:1.0", 1);
    let mut labels = StringMap::new();
    labels.insert(STACK_IMAGE_LABEL, "app:1.0");
    labels.insert("team", "ops");
    s.spec.labels = Some(labels);
    let spec = s.spec.with_image("app:2.0");
    let labels = spec.labels.unwrap();
    assert_eq!(labels.get(STACK_IMAGE_LABEL), Some("app:2.0".to_string()));
    assert_eq!(labels.get("team"), Some("ops".to_string()));
    assert_eq!(labels.len(), 2);
}

#[test]
fn stack_label_not_added_when_absent() {
    let mut s = service("1", "web", "app:1.0", 1);
    let mut labels = StringMap::new();
    labels.insert("team", "ops");
    s.spec.labels = Some(labels);
    let spec = s.spec.with_image("app:2.0");
    let labels = spec.labels.unwrap();
    assert_eq!(labels.get(STACK_IMAGE_LABEL), None);
    assert_eq!(labels.len(), 1);
    let bare = service("2", "api", "app:1.0", 1).spec.with_image("app:2.0");
    assert!(bare.labels.is_none());
}

#[test]
fn update_response_success_and_refusal() {
    assert_eq!(update_response(true, "ignored".to_string()).unwrap(), "Service updated");
    match update_response(false, "rpc error: update out of sequence".to_string()) {
        Err(DockerError::ServiceUpdateError(t)) => {
            assert_eq!(t, "rpc error: update out of sequence")
        }
        other => panic!("unexpected result {:?}", other),
    }
}

#[test]
fn builder_defaults_and_override() {
    let d = DockerBuilder::builder().build();
    assert_eq!(d.http_url, "http://localhost:8080");
    let d = DockerBuilder::default().with_http_url("http://swarm:2375").build();
    assert_eq!(d.http_url, "http://swarm:2375");
    assert_eq!(d.services_url(), "http://swarm:2375/services");
}

#[test]
fn resume_keeps_times_and_identity() {
    let s = service("id9", "web", "app:1.0@sha256:00", 9);
    let r = ServiceResume::from_service(&s);
    assert_eq!(r.id, "id9");
    assert_eq!(r.version, 9);
    assert_eq!(r.created_at, Timestamp { seconds: 1_700_000_000, nanos: 5 });
    assert_eq!(r.updated_at, Timestamp { seconds: 1_700_000_100, nanos: 7 });
    assert_eq!(r.image, "app");
    assert_eq!(r.tag, "1.0");
}
