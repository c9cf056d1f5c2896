use qt_env::environment::DeploymentError;
use qt_env::environment::QtEnvironment;

#[test]
fn set_search_path_joins_in_order() {
    let mut env = QtEnvironment::new();
    let paths = vec![b"/opt/a".to_vec(), b"/opt/b".to_vec(), b"/opt/c".to_vec()];
    assert!(env.set_search_path(&paths).is_ok());
    assert_eq!(env.plugin_path, Some(b"/opt/a:/opt/b:/opt/c".to_vec()));
    assert_eq!(env.no_signal_handler_flag, None);
}

#[test]
fn set_search_path_single_path() {
    let mut env = QtEnvironment::new();
    let paths = vec![b"/usr/lib/plugins".to_vec()];
    assert!(env.set_search_path(&paths).is_ok());
    assert_eq!(env.plugin_path, Some(b"/usr/lib/plugins".to_vec()));
}

#[test]
fn set_search_path_empty_list() {
    let mut env = QtEnvironment::new();
    let paths: Vec<Vec<u8>> = vec![];
    assert!(env.set_search_path(&paths).is_ok());
    assert_eq!(env.plugin_path, Some(Vec::new()));
}

#[test]
fn set_search_path_rejects_separator_in_path() {
    let mut env = QtEnvironment::new();
    let paths = vec![b"/opt/a".to_vec(), b"bad:path".to_vec()];
    assert!(env.set_search_path(&paths).is_err());
    assert_eq!(env.plugin_path, None);
    assert_eq!(env.no_signal_handler_flag, None);
}

#[test]
fn set_search_path_failure_keeps_previous_value() {
    let mut env = QtEnvironment::new();
    assert!(env.set_search_path(&vec![b"/opt/a".to_vec()]).is_ok());
    assert!(env.set_search_path(&vec![b"x:y".to_vec()]).is_err());
    assert_eq!(env.plugin_path, Some(b"/opt/a".to_vec()));
}

#[test]
fn set_search_path_overwrites_previous_value() {
    let mut env = QtEnvironment::new();
    assert!(env.set_search_path(&vec![b"/opt/a".to_vec()]).is_ok());
    assert!(env.set_search_path(&vec![b"/opt/b".to_vec(), b"/opt/c".to_vec()]).is_ok());
    assert_eq!(env.plugin_path, Some(b"/opt/b:/opt/c".to_vec()));
}

#[test]
fn configure_local_deployment_uses_executable_directory() {
    let mut env = QtEnvironment::new();
    let exe = b"/opt/app/bin/app".to_vec();
    assert!(env.configure_local_deployment(&exe).is_ok());
    assert_eq!(env.plugin_path, Some(b"/opt/app/bin".to_vec()));
}

#[test]
fn configure_local_deployment_executable_under_root() {
    let mut env = QtEnvironment::new();
    let exe = b"/app".to_vec();
    assert!(env.configure_local_deployment(&exe).is_ok());
    assert_eq!(env.plugin_path, Some(b"/".to_vec()));
}

#[test]
fn configure_local_deployment_bare_name_gives_empty_directory() {
    let mut env = QtEnvironment::new();
    let exe = b"app".to_vec();
    assert!(env.configure_local_deployment(&exe).is_ok());
    assert_eq!(env.plugin_path, Some(Vec::new()));
}

#[test]
fn configure_local_deployment_empty_path_fails() {
    let mut env = QtEnvironment::new();
    let exe: Vec<u8> = Vec::new();
    assert_eq!(
        env.configure_local_deployment(&exe),
        Err(DeploymentError::ResolutionError)
    );
    assert_eq!(env.plugin_path, None);
}

#[test]
fn configure_local_deployment_root_fails() {
    let mut env = QtEnvironment::new();
    let exe = b"/".to_vec();
    assert_eq!(
        env.configure_local_deployment(&exe),
        Err(DeploymentError::ResolutionError)
    );
    assert_eq!(env.plugin_path, None);
}

#[test]
fn configure_local_deployment_illegal_directory_fails() {
    let mut env = QtEnvironment::new();
    let exe = b"/opt/a:b/app".to_vec();
    assert_eq!(
        env.configure_local_deployment(&exe),
        Err(DeploymentError::InvalidPath)
    );
    assert_eq!(env.plugin_path, None);
}

#[test]
fn disable_qpa_signal_handlers_sets_flag_to_one() {
    let mut env = QtEnvironment::new();
    env.disable_qpa_signal_handlers();
    assert_eq!(env.no_signal_handler_flag, Some(b"1".to_vec()));
    assert_eq!(env.plugin_path, None);
}

#[test]
fn disable_qpa_signal_handlers_twice_is_idempotent() {
    let mut env = QtEnvironment::new();
    env.disable_qpa_signal_handlers();
    env.disable_qpa_signal_handlers();
    assert_eq!(env.no_signal_handler_flag, Some(b"1".to_vec()));
}

#[test]
fn disable_flag_and_search_path_do_not_disturb_each_other() {
    let mut env = QtEnvironment::new();
    env.disable_qpa_signal_handlers();
    assert!(env.set_search_path(&vec![b"/opt/a".to_vec()]).is_ok());
    assert_eq!(env.no_signal_handler_flag, Some(b"1".to_vec()));
    assert_eq!(env.plugin_path, Some(b"/opt/a".to_vec()));
}
