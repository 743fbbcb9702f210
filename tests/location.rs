use dirsize::location::get_executable_directory;

#[test]
fn executable_directory_outcomes() {
    assert_eq!(get_executable_directory(Ok(Some("/opt/app".to_string()))), Ok("/opt/app".to_string()));
    assert_eq!(get_executable_directory(Ok(None)), Ok(".".to_string()));
    assert_eq!(
        get_executable_directory(Err(())),
        Err("Failed to get executable directory".to_string())
    );
}
