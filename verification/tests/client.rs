use asana_tui::asana::client::{join, opt_string};
use asana_tui::asana::Client;
use asana_tui::config::{Config, DEFAULT_DIRECTORY_PATH, FILE_NAME};
use asana_tui::state::view::{
    due_soon, my_tasks, past_due, recently_completed, recently_created, recently_edited, welcome,
};

fn strings(parts: &[&str]) -> Vec<String> {
    parts.iter().map(|part| part.to_string()).collect()
}

#[test]
fn join_puts_the_separator_between_the_parts() {
    assert_eq!(join(&strings(&[]), "|"), "");
    assert_eq!(join(&strings(&["name"]), "|"), "name");
    assert_eq!(
        join(&strings(&["resource_type", "email", "name"]), "|"),
        "resource_type|email|name"
    );
    assert_eq!(join(&strings(&["a", "", "b"]), ", "), "a, , b");
}

#[test]
fn opt_string_selects_the_fields_of_a_related_model() {
    assert_eq!(
        opt_string("workspaces", &strings(&["resource_type", "name"])),
        "workspaces.(resource_type|name)"
    );
    assert_eq!(opt_string("tasks", &strings(&[])), "tasks.()");
}

#[test]
fn request_url_for_one_entity() {
    let mut client = Client::new("token", "https://app.asana.com/api/1.0");
    let url = client.request_url(
        "users",
        Some("me"),
        &strings(&["resource_type", "email", "name", "workspaces"]),
        &strings(&["workspaces.(resource_type|name)"]),
    );
    assert_eq!(
        url,
        "https://app.asana.com/api/1.0/users/me?opt_fields=this.(resource_type|email|name|workspaces),workspaces.(resource_type|name)"
    );
}

#[test]
fn request_url_for_a_list() {
    let mut client = Client::new("token", "http://localhost:8080");
    let url = client.request_url(
        "projects",
        None,
        &strings(&["resource_type", "name"]),
        &strings(&[]),
    );
    assert_eq!(
        url,
        "http://localhost:8080/projects/?opt_fields=this.(resource_type|name),"
    );
}

#[test]
fn relational_endpoint_is_used_by_one_request() {
    let mut client = Client::new("token", "http://localhost");
    client.from("projects", "proj1");
    let url = client.request_url("tasks", None, &strings(&["name"]), &strings(&[]));
    assert_eq!(url, "http://localhost/projects/proj1/tasks/?opt_fields=this.(name),");
    let url = client.request_url("tasks", None, &strings(&["name"]), &strings(&[]));
    assert_eq!(url, "http://localhost/tasks/?opt_fields=this.(name),");
}

#[test]
fn authorization_is_a_bearer_token() {
    let client = Client::new("0123-abcd", "http://localhost");
    assert_eq!(client.authorization(), "Bearer 0123-abcd");
}

#[test]
fn new_config_is_empty() {
    let config = Config::new();
    assert!(config.access_token.is_none());
    assert!(config.file_path.is_none());
    assert_eq!(FILE_NAME, "config.yml");
    assert_eq!(DEFAULT_DIRECTORY_PATH, ".config/asana-tui");
}

#[test]
fn views_carry_their_titles() {
    assert_eq!(welcome().title(), "Welcome");
    assert_eq!(my_tasks().title(), "My Tasks");
    assert_eq!(due_soon().title(), "Due Soon");
    assert_eq!(past_due().title(), "Past Due");
    assert_eq!(recently_created().title(), "Recently Created");
    assert_eq!(recently_edited().title(), "Recently Edited");
    assert_eq!(recently_completed().title(), "Recently Completed");
    assert_eq!(welcome(), welcome());
    assert_ne!(welcome(), my_tasks());
}
