use cloud_rust::config::{listen_port, port_from_text, DEFAULT_PORT};
use cloud_rust::identity::{
    after_body, after_metadata_reply, start_resolution, MetadataReply, ResolutionError,
    ResolutionStep,
};
use cloud_rust::pages::{
    greeting_page, project_number, project_page_for, project_resource_name,
    render_project_error, render_project_info, ProjectInfo,
};

fn resolved(step: ResolutionStep) -> String {
    match step {
        ResolutionStep::Resolved(id) => id,
        _ => panic!("expected a resolved identifier"),
    }
}

fn failure(step: ResolutionStep) -> ResolutionError {
    match step {
        ResolutionStep::Failed(e) => e,
        _ => panic!("expected a failed resolution"),
    }
}

#[test]
fn test_main_starts_and_serves_requests() {
    let id = resolved(start_resolution(Some("test-project".to_string())));
    assert_eq!(id, "test-project");
    let text = greeting_page();
    assert!(text.contains("Hello, World!"));
}

#[test]
fn test_project_endpoint_handles_network_failure() {
    let id = resolved(start_resolution(Some("test-project".to_string())));
    let outcome: Result<ProjectInfo, String> =
        Err("error sending request: connection refused".to_string());
    let text = project_page_for(&id, &outcome);
    assert!(
        text.contains("Error getting project info"),
        "Response did not contain expected error message. Got: {}",
        text
    );
}

#[test]
fn greeting_page_is_fixed() {
    assert_eq!(greeting_page(), "<h1>Hello, World!</h1>");
}

#[test]
fn configured_identifier_ends_resolution() {
    for id in ["test-project", "p", "my-project-123456"] {
        assert_eq!(resolved(start_resolution(Some(id.to_string()))), id);
    }
}

#[test]
fn unset_identifier_queries_metadata() {
    assert!(matches!(start_resolution(None), ResolutionStep::QueryMetadata));
}

#[test]
fn empty_identifier_queries_metadata() {
    assert!(matches!(
        start_resolution(Some(String::new())),
        ResolutionStep::QueryMetadata
    ));
}

#[test]
fn unreachable_metadata_is_fatal() {
    assert!(matches!(start_resolution(None), ResolutionStep::QueryMetadata));
    let e = failure(after_metadata_reply(MetadataReply::Unreachable(
        "connection refused".to_string(),
    )));
    assert!(matches!(e, ResolutionError::Unreachable(_)));
    assert_eq!(
        e.message(),
        "Error querying metadata server: connection refused"
    );
}

#[test]
fn failure_status_is_fatal() {
    let e = failure(after_metadata_reply(MetadataReply::Answered(
        404,
        "404 Not Found".to_string(),
    )));
    assert!(matches!(e, ResolutionError::Rejected(_)));
    assert_eq!(e.message(), "Metadata server returned error: 404 Not Found");
}

#[test]
fn success_statuses_read_the_body() {
    for status in [200u16, 204, 299] {
        let step = after_metadata_reply(MetadataReply::Answered(status, String::new()));
        assert!(matches!(step, ResolutionStep::ReadBody));
    }
}

#[test]
fn statuses_outside_success_range_fail() {
    for status in [100u16, 199, 300, 500] {
        let step = after_metadata_reply(MetadataReply::Answered(status, status.to_string()));
        assert!(matches!(step, ResolutionStep::Failed(ResolutionError::Rejected(_))));
    }
}

#[test]
fn metadata_body_is_the_identifier() {
    assert_eq!(resolved(after_body(Ok("prod-42".to_string()))), "prod-42");
}

#[test]
fn unreadable_body_is_fatal() {
    let e = failure(after_body(Err("invalid utf-8".to_string())));
    assert!(matches!(e, ResolutionError::Unreadable(_)));
    assert_eq!(e.message(), "invalid utf-8");
}

#[test]
fn resource_name_has_projects_prefix() {
    assert_eq!(project_resource_name("test-project"), "projects/test-project");
    assert_eq!(project_resource_name(""), "projects/");
}

#[test]
fn project_number_strips_prefix() {
    assert_eq!(project_number("projects/test-project"), "test-project");
    assert_eq!(project_number("projects/"), "");
    assert_eq!(project_number("projects/projects/x"), "projects/x");
}

#[test]
fn project_number_without_prefix_is_unknown() {
    assert_eq!(project_number("folders/123"), "Unknown");
    assert_eq!(project_number("projects"), "Unknown");
    assert_eq!(project_number(""), "Unknown");
    assert_eq!(project_number("Projects/abc"), "Unknown");
}

#[test]
fn found_project_page_shows_fields() {
    let page = render_project_info("My Project", "my-project", "projects/my-project");
    assert_eq!(
        page,
        "<h1>Project Info</h1><ul><li>Name: <code>My Project</code></li><li>ID: <code>my-project</code></li><li>Number: <code>my-project</code></li></ul>"
    );
}

#[test]
fn found_project_page_through_outcome() {
    let outcome = Ok(ProjectInfo {
        display_name: "Demo".to_string(),
        name: "organizations/1".to_string(),
    });
    let page = project_page_for("demo-id", &outcome);
    assert!(page.contains("Demo"));
    assert!(page.contains("demo-id"));
    assert!(page.contains("<code>Unknown</code>"));
}

#[test]
fn error_page_embeds_error_text() {
    assert_eq!(
        render_project_error("timeout"),
        "<h1>Error getting project info: timeout</h1>"
    );
    let outcome: Result<ProjectInfo, String> = Err("permission denied".to_string());
    assert_eq!(
        project_page_for("p", &outcome),
        "<h1>Error getting project info: permission denied</h1>"
    );
}

#[test]
fn pages_reflect_each_request_outcome() {
    let a: Result<ProjectInfo, String> = Err("first failure".to_string());
    let b: Result<ProjectInfo, String> = Err("second failure".to_string());
    let c = Ok(ProjectInfo {
        display_name: "Shown".to_string(),
        name: "projects/id".to_string(),
    });
    let pa = project_page_for("id", &a);
    let pb = project_page_for("id", &b);
    let pc = project_page_for("id", &c);
    assert!(pa.contains("first failure") && !pa.contains("second failure"));
    assert!(pb.contains("second failure") && !pb.contains("first failure"));
    assert_ne!(pa, pc);
    assert!(!pc.contains("Error getting project info"));
}

#[test]
fn port_defaults_when_unset() {
    assert_eq!(listen_port(None), 8080);
    assert_eq!(DEFAULT_PORT, 8080);
}

#[test]
fn port_is_read_from_digits() {
    assert_eq!(listen_port(Some("3000".to_string())), 3000);
    assert_eq!(port_from_text("0"), 0);
    assert_eq!(port_from_text("65535"), 65535);
    assert_eq!(port_from_text("008081"), 8081);
}

#[test]
fn unparseable_port_uses_default() {
    for text in ["", "abc", "80a", "-1", "65536", "99999999999", " 80", "8.0"] {
        assert_eq!(listen_port(Some(text.to_string())), 8080);
    }
}
