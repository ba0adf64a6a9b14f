use sftp_browser::errors::SshError;
use sftp_browser::registry::{IdMap, LocalProject, ProjectsList, RemoteProject};

#[test]
fn add_remote_project_stores_the_record_under_a_fresh_id() {
    let mut projects = ProjectsList::new();
    let id = projects.add_remote_project(
        "example.com".to_string(),
        2222,
        "alice".to_string(),
        "secret".to_string(),
    );
    assert_eq!(id.len(), 21);
    match projects.get_remote_project(&id) {
        Some(p) => {
            assert_eq!(p.host, "example.com");
            assert_eq!(p.port, 2222);
            assert_eq!(p.user, "alice");
            assert_eq!(p.password, "secret");
        }
        None => panic!("the added record must resolve under its id"),
    }
}

#[test]
fn add_local_project_stores_the_path() {
    let mut projects = ProjectsList::new();
    let id = projects.add_local_project("/home/alice/src".to_string());
    assert_eq!(id.len(), 21);
    match projects.local_projects.get(&id) {
        Some(p) => assert_eq!(p.path, "/home/alice/src"),
        None => panic!("the added record must resolve under its id"),
    }
}

#[test]
fn two_generated_ids_do_not_collide() {
    let mut projects = ProjectsList::new();
    let a = projects.add_local_project("/a".to_string());
    let b = projects.add_local_project("/b".to_string());
    assert_ne!(a, b);
    assert_eq!(projects.local_projects.entries.len(), 2);
}

#[test]
fn remove_remote_project_deletes_exactly_that_record() {
    let mut projects = ProjectsList::new();
    projects.remote_projects.set(
        "r1".to_string(),
        RemoteProject {
            host: "h1".to_string(),
            port: 22,
            user: "u1".to_string(),
            password: "p1".to_string(),
        },
    );
    projects.remote_projects.set(
        "r2".to_string(),
        RemoteProject {
            host: "h2".to_string(),
            port: 22,
            user: "u2".to_string(),
            password: "p2".to_string(),
        },
    );

    assert!(projects.remove_remote_project(&"r1".to_string()).is_ok());
    assert!(projects.get_remote_project(&"r1".to_string()).is_none());
    assert!(projects.get_remote_project(&"r2".to_string()).is_some());

    match projects.remove_remote_project(&"r1".to_string()) {
        Err(SshError::NotFound(id)) => assert_eq!(id, "r1"),
        _ => panic!("removing a missing record must be NotFound"),
    }
}

#[test]
fn remove_local_project_misses_with_not_found() {
    let mut projects = ProjectsList::new();
    match projects.remove_local_project(&"nope".to_string()) {
        Err(SshError::NotFound(id)) => assert_eq!(id, "nope"),
        _ => panic!("removing from an empty registry must be NotFound"),
    }
    let id = projects.add_local_project("/tmp/x".to_string());
    assert!(projects.remove_local_project(&id).is_ok());
    assert!(projects.local_projects.get(&id).is_none());
}

#[test]
fn idmap_set_replaces_the_record_under_the_same_id() {
    let mut map: IdMap<LocalProject> = IdMap::new();
    map.set("k".to_string(), LocalProject { path: "/old".to_string() });
    map.set("k".to_string(), LocalProject { path: "/new".to_string() });
    assert_eq!(map.entries.len(), 1);
    match map.get(&"k".to_string()) {
        Some(p) => assert_eq!(p.path, "/new"),
        None => panic!("the id must still resolve"),
    }
}
