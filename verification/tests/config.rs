use chmod_bpf::config::{
    Config, ADMIN_GROUP, BPF_GROUP, BPF_GROUP_NAME, CHMOD_BPF_PLIST_PATH,
    CHMOD_BPF_SCRIPT_DIR_PATH, CHMOD_BPF_SCRIPT_PATH, DEVICE_PREFIX, DEVICE_ROOT,
    LEGACY_PLIST_PATH, MIN_GID,
};

#[test]
fn standard_config_holds_the_constants() {
    let config = Config::standard();
    assert_eq!(config.group, BPF_GROUP);
    assert_eq!(config.group, "access_bpf");
    assert_eq!(config.group_name, BPF_GROUP_NAME);
    assert_eq!(config.group_name, "BPF Device ACL");
    assert_eq!(config.admin_group, ADMIN_GROUP);
    assert_eq!(config.min_gid, MIN_GID);
    assert_eq!(config.min_gid, 100);
    assert_eq!(config.device_root, DEVICE_ROOT);
    assert_eq!(config.device_prefix, DEVICE_PREFIX);
    assert_eq!(config.plist_path, CHMOD_BPF_PLIST_PATH);
    assert_eq!(config.script_dir, CHMOD_BPF_SCRIPT_DIR_PATH);
    assert_eq!(config.script_path, CHMOD_BPF_SCRIPT_PATH);
    assert_eq!(config.known_plists, vec![CHMOD_BPF_PLIST_PATH, LEGACY_PLIST_PATH]);
}

#[test]
fn standard_script_lies_in_the_script_directory() {
    let config = Config::standard();
    assert!(config.script_path.starts_with(&config.script_dir));
    assert_eq!(config.known_plists[0], config.plist_path);
}
