use alabaster::cli::{Args, Command};

fn package(root: Option<&str>) -> Args {
    Args {
        root: root.map(|r| r.to_string()),
        cmd: Command::Package { force: false, output: "out".to_string() },
    }
}

#[test]
fn given_root_wins() {
    assert_eq!(package(Some("/srv/project")).project_root("/home/me"), "/srv/project");
}

#[test]
fn working_directory_is_the_default_root() {
    assert_eq!(package(None).project_root("/home/me"), "/home/me");
}

#[test]
fn empty_root_is_still_a_given_root() {
    assert_eq!(package(Some("")).project_root("/home/me"), "");
}
