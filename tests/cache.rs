use todoist::cache::{path_names, split_path};
use todoist::{Cache, Collaborator, Error, Item, Label, Project, ResourceType, SyncResponse, User};

fn project(id: usize, name: &str, indent: u8, item_order: isize) -> Project {
    let mut p = Project::default();
    p.id = id;
    p.name = name.to_string();
    p.indent = indent;
    p.item_order = item_order;
    p
}

fn response() -> SyncResponse {
    let mut r = SyncResponse::default();
    r.sync_token = "tok-1".to_string();
    r.projects = Some(vec![project(1, "Inbox", 1, 0), project(2, "Work", 2, 1), project(1, "Inbox2", 1, 0)]);
    let mut item = Item::default();
    item.id = 10;
    item.content = "buy milk".to_string();
    r.items = Some(vec![item]);
    r.labels = Some(vec![]);
    let mut user = User::default();
    user.email = "a@example.com".to_string();
    r.user = Some(user);
    r
}

fn summary(c: &Cache) -> (Option<String>, Vec<(usize, String)>, Vec<usize>, usize, usize, String) {
    let mut ps: Vec<(usize, String)> = c.projects.iter().map(|(k, p)| (*k, p.name.clone())).collect();
    ps.sort();
    let mut is: Vec<usize> = c.items.keys().cloned().collect();
    is.sort();
    (c.sync_token.clone(), ps, is, c.labels.len(), c.collaborators.len(), c.user.email.clone())
}

#[test]
fn sync_merges_by_id() {
    let mut c = Cache::new();
    c.sync(response());
    assert_eq!(c.sync_token.as_deref(), Some("tok-1"));
    assert_eq!(c.projects.len(), 2);
    assert_eq!(c.projects[&1].name, "Inbox2");
    assert_eq!(c.projects[&2].name, "Work");
    assert_eq!(c.items[&10].content, "buy milk");
    assert_eq!(c.user.email, "a@example.com");
}

#[test]
fn sync_is_idempotent() {
    let mut once = Cache::new();
    once.sync(response());
    let mut twice = Cache::new();
    twice.sync(response());
    twice.sync(response());
    assert_eq!(summary(&once), summary(&twice));
}

#[test]
fn sync_keeps_omitted_kinds() {
    let mut c = Cache::new();
    c.sync(response());
    let mut collab = Collaborator::default();
    collab.id = 5;
    c.collaborators.insert(5, collab);
    let mut r = SyncResponse::default();
    r.sync_token = "tok-2".to_string();
    let mut label = Label::default();
    label.id = 3;
    r.labels = Some(vec![label]);
    c.sync(r);
    assert_eq!(c.sync_token.as_deref(), Some("tok-2"));
    assert_eq!(c.projects.len(), 2);
    assert_eq!(c.items.len(), 1);
    assert_eq!(c.collaborators.len(), 1);
    assert_eq!(c.labels.len(), 1);
    assert_eq!(c.user.email, "a@example.com");
}

#[test]
fn sync_token_advances_on_empty_response() {
    let mut c = Cache::new();
    assert_eq!(c.request_token(), "*");
    let mut r = SyncResponse::default();
    r.sync_token = "next".to_string();
    c.sync(r);
    assert_eq!(c.sync_token.as_deref(), Some("next"));
    assert_eq!(c.request_token(), "next");
    assert!(c.projects.is_empty());
}

#[test]
fn sync_keeps_deleted_records() {
    let mut c = Cache::new();
    let mut p = project(4, "Old", 1, 3);
    p.is_deleted = todoist::IntBool::from(true);
    let mut r = SyncResponse::default();
    r.projects = Some(vec![p]);
    c.sync(r);
    assert!(c.projects[&4].is_deleted == true);
}

fn tree() -> Cache {
    let mut c = Cache::new();
    let mut r = SyncResponse::default();
    r.projects = Some(vec![project(1, "Inbox", 1, 0), project(2, "Work", 2, 1), project(3, "Home", 1, 2), project(4, "Work", 2, 3)]);
    c.sync(r);
    c
}

#[test]
fn get_project_by_path() {
    let c = tree();
    assert_eq!(c.get_project("Inbox/Work").unwrap().id, 2);
    assert_eq!(c.get_project("Home/Work").unwrap().id, 4);
    assert_eq!(c.get_project("/Inbox/Work/").unwrap().id, 2);
    assert_eq!(c.get_project("Inbox").unwrap().id, 1);
}

#[test]
fn get_project_not_found() {
    let c = tree();
    assert!(c.get_project("Inbox/Nonexistent").is_none());
    assert!(c.get_project("Work").is_none());
    assert!(c.get_project("Nonexistent/Work").is_none());
}

#[test]
fn get_project_empty_path() {
    let c = tree();
    assert!(c.get_project("").is_none());
    assert!(c.get_project("/").is_none());
}

#[test]
fn get_project_ties_go_to_lower_id() {
    let mut c = Cache::new();
    let mut r = SyncResponse::default();
    r.projects = Some(vec![project(9, "A", 1, 0), project(7, "A", 1, 0)]);
    c.sync(r);
    assert_eq!(c.get_project("A").unwrap().id, 7);
}

#[test]
fn path_names_segments() {
    assert_eq!(path_names("a/b//c/"), vec!["a", "b", "c"]);
    assert_eq!(path_names("/Inbox"), vec!["Inbox"]);
    assert!(path_names("").is_empty());
    assert!(path_names("///").is_empty());
}

#[test]
fn split_path_last_name() {
    assert_eq!(split_path("Inbox/Work/New"), ("New".to_string(), vec!["Inbox".to_string(), "Work".to_string()]));
    assert_eq!(split_path("New"), ("New".to_string(), Vec::<String>::new()));
    assert_eq!(split_path("/"), (String::new(), Vec::<String>::new()));
}

#[test]
fn find_project_by_names() {
    let c = tree();
    assert_eq!(c.find_project(&vec!["Home".to_string(), "Work".to_string()]).unwrap().id, 4);
    assert!(c.find_project(&Vec::new()).is_none());
}

#[test]
fn add_client_needs_token() {
    let mut c = Cache::new();
    assert!(matches!(c.add_client(), Err(Error::InvalidApiToken(ref s)) if s == "<None>"));
    c.token = Some("SECRET-REDACTED".to_string());
    assert_eq!(c.add_client().unwrap().token(), "SECRET-REDACTED");
}

#[test]
fn mirrored_kinds_listed() {
    assert_eq!(
        Cache::mirrored_kinds(),
        vec![ResourceType::Projects, ResourceType::Items, ResourceType::User, ResourceType::Collaborators, ResourceType::Labels]
    );
}
