use measure_home_env_fs::credential::container_marker_path;
use measure_home_env_fs::credential::resolve_credential_path;

#[test]
fn containerized_resolution_ignores_the_executable_location() {
    assert_eq!(
        resolve_credential_path(true, "/home/pi/bin"),
        "/cred/home-env-firebase-adminsdk.json"
    );
    assert_eq!(
        resolve_credential_path(true, "/somewhere/else"),
        "/cred/home-env-firebase-adminsdk.json"
    );
}

#[test]
fn bare_metal_resolution_uses_the_executable_directory() {
    assert_eq!(
        resolve_credential_path(false, "/home/pi/bin"),
        "/home/pi/bin/home-env-firebase-adminsdk.json"
    );
}

#[test]
fn the_marker_is_the_docker_sentinel() {
    assert_eq!(container_marker_path(), "/.dockerenv");
}
