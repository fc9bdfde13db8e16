use docker_native_manager::paths::{
    config_file, context_dir, contexts_dir, docker_config_dir, home_variable, meta_file, DockerPath,
    Platform,
};
use std::path::PathBuf;

fn unix_path(path: &DockerPath) -> PathBuf {
    path.parts.iter().collect()
}

#[test]
fn the_home_directory_comes_from_the_environment() {
    assert_eq!(home_variable(Platform::Unix), "HOME");
    assert_eq!(home_variable(Platform::Windows), "USERPROFILE");
    assert_eq!(docker_config_dir(Platform::Unix, Some("/home/me")).parts, ["/home/me", ".docker"]);
    assert_eq!(docker_config_dir(Platform::Unix, None).parts, ["/root", ".docker"]);
    assert_eq!(
        docker_config_dir(Platform::Windows, None).parts,
        ["C:\\Users\\Default", ".docker"]
    );
}

#[test]
fn paths_below_the_configuration_directory() {
    let dir = docker_config_dir(Platform::Unix, Some("/home/me"));
    assert_eq!(unix_path(&dir), PathBuf::from("/home/me/.docker"));
    assert_eq!(unix_path(&config_file(&dir)), PathBuf::from("/home/me/.docker/config.json"));
    assert_eq!(unix_path(&contexts_dir(&dir)), PathBuf::from("/home/me/.docker/contexts/meta"));
    let context = context_dir(&dir, "remote");
    assert_eq!(unix_path(&context), PathBuf::from("/home/me/.docker/contexts/meta/remote"));
    assert_eq!(
        unix_path(&meta_file(&context)),
        PathBuf::from("/home/me/.docker/contexts/meta/remote/meta.json")
    );
    assert_eq!(context.copy().parts, context.parts);
}
