use learn_opengl::shader_loader::{
    read_shaders_into_memory, FRAGMENT_SHADER_NAME, FRAGMENT_SHADER_PATH, VERTEX_SHADER_NAME,
    VERTEX_SHADER_PATH,
};

#[test]
fn shader_files_lie_under_the_assets_directory() {
    assert_eq!(FRAGMENT_SHADER_NAME, "default.frag");
    assert_eq!(VERTEX_SHADER_NAME, "default.vert");
    assert_eq!(FRAGMENT_SHADER_PATH, "assets/shaders/fragment/default.frag");
    assert_eq!(VERTEX_SHADER_PATH, "assets/shaders/vertex/default.vert");
}

#[test]
fn both_shaders_are_kept_under_their_names() {
    let shaders =
        read_shaders_into_memory(String::from("fragment text"), String::from("vertex text"));
    assert_eq!(shaders.len(), 2);
    assert_eq!(shaders.get("default.frag"), Some(&String::from("fragment text")));
    assert_eq!(shaders.get("default.vert"), Some(&String::from("vertex text")));
    assert_eq!(shaders.get("default.geom"), None);
}

#[test]
fn empty_files_are_kept_too() {
    let shaders = read_shaders_into_memory(String::new(), String::new());
    assert_eq!(shaders.len(), 2);
    assert!(shaders.contains_key(FRAGMENT_SHADER_NAME));
    assert!(shaders.contains_key(VERTEX_SHADER_NAME));
    assert_eq!(shaders.get(FRAGMENT_SHADER_NAME), Some(&String::new()));
}

#[test]
fn equal_texts_stay_two_entries() {
    let shaders = read_shaders_into_memory(String::from("same"), String::from("same"));
    assert_eq!(shaders.len(), 2);
    assert_eq!(shaders.get(FRAGMENT_SHADER_NAME), shaders.get(VERTEX_SHADER_NAME));
}
