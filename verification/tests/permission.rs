use chmod_bpf::permission::{
    set_owner_group, set_owner_group_recursive, set_read_execute_permissions_recursive,
    set_read_write_permissions, PermissionRequirement, Role,
};

#[test]
fn set_read_write_permissions_builds_chmod() {
    let invocation = set_read_write_permissions("/Library/LaunchDaemons/x.plist");
    assert_eq!(invocation.program, "chmod");
    assert_eq!(invocation.args, vec!["u=rw,g=r,o=r", "/Library/LaunchDaemons/x.plist"]);
    assert_eq!(invocation.action, "set read/write permissions for /Library/LaunchDaemons/x.plist");
}

#[test]
fn set_owner_group_builds_chown() {
    let invocation = set_owner_group("/Library/LaunchDaemons/x.plist");
    assert_eq!(invocation.program, "chown");
    assert_eq!(invocation.args, vec!["root:wheel", "/Library/LaunchDaemons/x.plist"]);
    assert_eq!(invocation.action, "set owner and group for /Library/LaunchDaemons/x.plist");
}

#[test]
fn set_read_execute_permissions_recursive_builds_chmod() {
    let invocation = set_read_execute_permissions_recursive("/Library/Application Support/X/");
    assert_eq!(invocation.program, "chmod");
    assert_eq!(invocation.args, vec!["-R", "a+rX,go-w", "/Library/Application Support/X/"]);
    assert_eq!(
        invocation.action,
        "set recursive read/execute permissions for /Library/Application Support/X/"
    );
}

#[test]
fn set_owner_group_recursive_builds_chown() {
    let invocation = set_owner_group_recursive("/Library/Application Support/X/");
    assert_eq!(invocation.program, "chown");
    assert_eq!(invocation.args, vec!["-R", "root:wheel", "/Library/Application Support/X/"]);
    assert_eq!(
        invocation.action,
        "set recursive owner and group for /Library/Application Support/X/"
    );
}

#[test]
fn a_device_must_be_readable_and_writable_by_its_group() {
    let requirement = PermissionRequirement::for_role(Role::Device);
    assert_eq!(requirement, PermissionRequirement { owner: 0, group: 6, other: 0 });
    assert!(requirement.met_by(0o060));
    assert!(requirement.met_by(0o660));
    assert!(!requirement.met_by(0o640));
    assert!(!requirement.met_by(0o620));
    assert!(!requirement.met_by(0o606));
}

#[test]
fn installed_files_must_be_writable_by_the_owner_and_readable_by_all() {
    for role in [Role::Script, Role::Descriptor] {
        let requirement = PermissionRequirement::for_role(role);
        assert_eq!(requirement, PermissionRequirement { owner: 6, group: 4, other: 4 });
        assert!(requirement.met_by(0o644));
        assert!(requirement.met_by(0o755));
        assert!(!requirement.met_by(0o600));
        assert!(!requirement.met_by(0o444));
        assert!(!requirement.met_by(0o640));
    }
}
