use surflog::config::database_path;

#[test]
fn path_under_data_home_when_set() {
    assert_eq!(database_path(Some("/data"), "/home/surfer"), "/data/.config/surflog.db");
}

#[test]
fn path_under_home_otherwise() {
    assert_eq!(database_path(None, "/home/surfer"), "/home/surfer/.config/surflog.db");
}
