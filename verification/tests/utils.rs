use saves_sync::utils::{get_config, ConfigAccess, ConfigAccessError, ConfigLocation};

#[test]
fn a_config_file_that_is_there_is_opened() {
    let found = ConfigLocation { file_exists: true, directory_exists: true };
    assert_eq!(get_config(Some(found)), Ok(ConfigAccess::Open));
}

#[test]
fn a_missing_config_file_is_created_in_its_directory() {
    let found = ConfigLocation { file_exists: false, directory_exists: true };
    assert_eq!(get_config(Some(found)), Ok(ConfigAccess::Create));
}

#[test]
fn a_missing_directory_is_created_before_the_config_file() {
    let found = ConfigLocation { file_exists: false, directory_exists: false };
    assert_eq!(get_config(Some(found)), Ok(ConfigAccess::CreateWithDirectory));
}

#[test]
fn the_file_counts_before_the_directory() {
    let found = ConfigLocation { file_exists: true, directory_exists: false };
    assert_eq!(get_config(Some(found)), Ok(ConfigAccess::Open));
}

#[test]
fn no_config_directory_is_an_error() {
    assert_eq!(get_config(None), Err(ConfigAccessError::DirectoryNotFound));
    assert_eq!(ConfigAccessError::DirectoryNotFound.text(), "Config directory not found");
}
