use chmod_bpf::command::{CommandOutcome, CommandOutput};
use chmod_bpf::error::{Error, ResolutionFailure};
use chmod_bpf::user::{
    add_current_user_to_group, add_group_to_group, add_member, create_group,
    current_user_in_group, delete_group, get_free_gid, get_real_current_user, group_exists,
    identity_of, is_member, list_group_ids, privilege, require_root, Account, Group, Identity,
    MemberKind,
};

const NOBODY_HAS_THIS_NAME: &str = "no-such-name-7f3a9c51-chmod-bpf";

fn listing(outcome: CommandOutcome, stdout: &[u8]) -> CommandOutput {
    CommandOutput { outcome, stdout: stdout.to_vec() }
}

fn identity(uid: u32, groups: &[(u32, &str)]) -> Identity {
    Identity {
        uid,
        name: "alice".to_string(),
        groups: groups
            .iter()
            .map(|(gid, name)| Group { gid: *gid, name: name.to_string() })
            .collect(),
    }
}

#[test]
fn create_group_builds_the_dseditgroup_command() {
    let invocation = create_group("access_bpf", "BPF Device ACL", 502);
    assert_eq!(invocation.program, "dseditgroup");
    assert_eq!(
        invocation.args,
        vec!["-q", "-o", "create", "-i", "502", "-r", "BPF Device ACL", "access_bpf"]
    );
    assert_eq!(invocation.action, "create group access_bpf with gid 502");
}

#[test]
fn add_group_to_group_nests_a_group() {
    let invocation = add_group_to_group("admin", "access_bpf");
    assert_eq!(invocation.program, "dseditgroup");
    assert_eq!(
        invocation.args,
        vec!["-q", "-o", "edit", "-a", "admin", "-t", "group", "access_bpf"]
    );
    assert_eq!(invocation.action, "add group admin to group access_bpf");
}

#[test]
fn add_current_user_to_group_adds_the_user_by_name() {
    let invocation = add_current_user_to_group("access_bpf", Some("alice")).unwrap();
    assert_eq!(invocation.program, "dseditgroup");
    assert_eq!(
        invocation.args,
        vec!["-q", "-o", "edit", "-a", "alice", "-t", "user", "access_bpf"]
    );
    assert_eq!(invocation.action, "add user alice to group access_bpf");
}

#[test]
fn add_member_tells_users_from_groups() {
    assert_eq!(add_member("alice", "access_bpf", MemberKind::User).args[4..7], ["alice", "-t", "user"]);
    assert_eq!(add_member("admin", "access_bpf", MemberKind::Group).args[4..7], ["admin", "-t", "group"]);
    assert_eq!(
        add_member("admin", "access_bpf", MemberKind::Group),
        add_group_to_group("admin", "access_bpf")
    );
    assert_eq!(
        Ok(add_member("alice", "access_bpf", MemberKind::User)),
        add_current_user_to_group("access_bpf", Some("alice"))
    );
}

#[test]
fn add_current_user_to_group_needs_a_user() {
    assert_eq!(
        add_current_user_to_group("access_bpf", None),
        Err(Error::ResolutionError(ResolutionFailure::UserUnknown))
    );
}

#[test]
fn delete_group_builds_the_dseditgroup_command() {
    let invocation = delete_group("access_bpf");
    assert_eq!(invocation.program, "dseditgroup");
    assert_eq!(invocation.args, vec!["-o", "delete", "access_bpf"]);
    assert_eq!(invocation.action, "delete group access_bpf");
}

#[test]
fn list_group_ids_builds_the_dscl_command() {
    let invocation = list_group_ids();
    assert_eq!(invocation.program, "dscl");
    assert_eq!(invocation.args, vec![".", "-list", "/Groups", "PrimaryGroupID"]);
    assert_eq!(invocation.action, "query dscl for group IDs");
}

#[test]
fn get_free_gid_picks_the_first_gap_of_the_listing() {
    let output = listing(CommandOutcome::Exited(0), b"wheel 0\na 100\nb 101\nc 103\n");
    assert_eq!(get_free_gid(100, &output), Ok(102));
}

#[test]
fn get_free_gid_of_an_empty_listing_is_the_minimum() {
    let output = listing(CommandOutcome::Exited(0), b"");
    assert_eq!(get_free_gid(100, &output), Ok(100));
}

#[test]
fn get_free_gid_fails_where_the_listing_did_not_run() {
    let output = listing(CommandOutcome::NotStarted, b"a 100\n");
    assert_eq!(
        get_free_gid(100, &output),
        Err(Error::ResolutionError(ResolutionFailure::ListingNotRun))
    );
}

#[test]
fn get_free_gid_fails_where_the_listing_failed() {
    let output = listing(CommandOutcome::Exited(1), b"a 100\n");
    assert_eq!(
        get_free_gid(100, &output),
        Err(Error::ResolutionError(ResolutionFailure::ListingFailed { status: Some(1) }))
    );
    let output = listing(CommandOutcome::Signaled, b"a 100\n");
    assert_eq!(
        get_free_gid(100, &output),
        Err(Error::ResolutionError(ResolutionFailure::ListingFailed { status: None }))
    );
}

#[test]
fn get_free_gid_fails_on_bytes_that_are_not_utf8() {
    let output = listing(CommandOutcome::Exited(0), &[b'a', b' ', b'1', b'\n', 0xff, 0xfe]);
    assert_eq!(
        get_free_gid(100, &output),
        Err(Error::ResolutionError(ResolutionFailure::ListingNotText))
    );
    let output = listing(CommandOutcome::Exited(0), &[0xc3]);
    assert_eq!(
        get_free_gid(100, &output),
        Err(Error::ResolutionError(ResolutionFailure::ListingNotText))
    );
}

#[test]
fn get_free_gid_reads_text_beyond_ascii() {
    let output = listing(CommandOutcome::Exited(0), "gr\u{fc}n 100\nbl\u{e5}\u{a0}101\n".as_bytes());
    assert_eq!(get_free_gid(100, &output), Ok(102));
}

#[test]
fn get_free_gid_fails_where_no_id_is_left() {
    let output = listing(CommandOutcome::Exited(0), b"last 4294967295\n");
    assert_eq!(
        get_free_gid(u32::MAX, &output),
        Err(Error::ResolutionError(ResolutionFailure::IdsExhausted))
    );
}

#[test]
fn privilege_is_the_superusers_alone() {
    assert_eq!(privilege(0), Ok(()));
    assert_eq!(privilege(1), Err(Error::PermissionDenied));
    assert_eq!(privilege(501), Err(Error::PermissionDenied));
    assert_eq!(privilege(u32::MAX), Err(Error::PermissionDenied));
}

#[test]
fn require_root_goes_by_the_effective_user() {
    if uzers::get_effective_uid() == 0 {
        assert_eq!(require_root(), Ok(()));
    } else {
        assert_eq!(require_root(), Err(Error::PermissionDenied));
    }
}

#[test]
fn is_member_compares_names_exactly() {
    let alice = identity(501, &[(20, "staff"), (502, "access_bpf")]);
    assert!(is_member(&alice, "access_bpf"));
    assert!(is_member(&alice, "staff"));
    assert!(!is_member(&alice, "Access_bpf"));
    assert!(!is_member(&alice, "access_bp"));
    assert!(!is_member(&alice, "access_bpf "));
    assert!(!is_member(&alice, ""));
    assert!(!is_member(&identity(501, &[]), "access_bpf"));
}

#[test]
fn group_exists_knows_no_invented_group() {
    assert!(!group_exists(NOBODY_HAS_THIS_NAME));
    assert!(!group_exists("with\0nul"));
}

#[test]
fn group_exists_knows_the_group_of_the_process() {
    if let Some(name) = uzers::get_current_groupname() {
        if let Some(name) = name.to_str() {
            assert!(group_exists(name));
        }
    }
}

#[test]
fn current_user_in_group_knows_no_invented_group() {
    assert!(!current_user_in_group(NOBODY_HAS_THIS_NAME));
}

#[test]
fn get_real_current_user_knows_no_invented_user() {
    assert_eq!(get_real_current_user(Some(NOBODY_HAS_THIS_NAME)), None);
}

#[test]
fn get_real_current_user_without_a_recorded_name_is_the_current_user() {
    let known = uzers::get_current_username().and_then(|name| uzers::get_user_by_name(&name));
    match (get_real_current_user(None), known) {
        (Some(identity), Some(user)) => {
            assert_eq!(identity.uid, user.uid());
            assert_eq!(identity.name, user.name().to_string_lossy());
        }
        (None, None) => {}
        (found, _) => panic!("lookups disagree: {found:?}"),
    }
}

#[test]
fn get_real_current_user_prefers_the_recorded_name() {
    if let Some(name) = uzers::get_current_username() {
        if let Some(name) = name.to_str() {
            let by_record = get_real_current_user(Some(name));
            let by_process = get_real_current_user(None);
            assert_eq!(by_record, by_process);
        }
    }
}

#[test]
fn identity_takes_the_groups_that_were_found() {
    let account = Account { uid: 501, primary_gid: 20, name: "alice".to_string() };
    let groups = vec![
        Group { gid: 20, name: "staff".to_string() },
        Group { gid: 502, name: "access_bpf".to_string() },
    ];
    let identity = Identity::new(account.clone(), Some(groups.clone()));
    assert_eq!(identity, Identity { uid: 501, name: "alice".to_string(), groups });
    let identity = Identity::new(account, None);
    assert_eq!(identity, Identity { uid: 501, name: "alice".to_string(), groups: vec![] });
}

#[test]
fn identity_of_keeps_uid_and_name() {
    let account = Account { uid: 4242, primary_gid: 4242, name: "with\0nul".to_string() };
    let identity = identity_of(account);
    assert_eq!(identity.uid, 4242);
    assert_eq!(identity.name, "with\0nul");
    assert!(identity.groups.is_empty());
}

#[test]
fn identity_of_the_current_user_lists_their_groups() {
    let known = uzers::get_current_username().and_then(|name| uzers::get_user_by_name(&name));
    if let Some(user) = known {
        let account = Account {
            uid: user.uid(),
            primary_gid: user.primary_group_id(),
            name: user.name().to_string_lossy().into_owned(),
        };
        let identity = identity_of(account);
        let expected: Vec<u32> =
            user.groups().unwrap_or_default().iter().map(|group| group.gid()).collect();
        let found: Vec<u32> = identity.groups.iter().map(|group| group.gid).collect();
        assert_eq!(found, expected);
    }
}

#[test]
fn group_exists_knows_no_group_with_a_nul_in_its_name() {
    assert!(!group_exists("\0"));
    assert!(!group_exists("access\0bpf"));
    if let Some(name) = uzers::get_current_groupname() {
        if let Some(name) = name.to_str() {
            assert!(group_exists(name));
            assert!(!group_exists(&format!("{name}\0")));
            assert!(!group_exists(&format!("\0{name}")));
        }
    }
}

#[test]
fn get_real_current_user_knows_no_user_with_a_nul_in_their_name() {
    assert_eq!(get_real_current_user(Some("\0")), None);
    assert_eq!(get_real_current_user(Some("ali\0ce")), None);
    if let Some(name) = uzers::get_current_username() {
        if let Some(name) = name.to_str() {
            assert_eq!(get_real_current_user(Some(&format!("{name}\0"))), None);
            assert_eq!(get_real_current_user(Some(&format!("\0{name}"))), None);
        }
    }
}

#[test]
fn current_user_in_group_knows_no_group_with_a_nul_in_its_name() {
    assert!(!current_user_in_group("\0"));
    assert!(!current_user_in_group("access\0bpf"));
    if let Some(identity) = get_real_current_user(None) {
        for group in &identity.groups {
            assert!(!current_user_in_group(&format!("{}\0", group.name)));
            assert!(!current_user_in_group(&format!("\0{}", group.name)));
        }
    }
}

#[test]
fn current_user_in_group_knows_the_groups_of_the_current_user() {
    let known = uzers::get_current_username().and_then(|name| uzers::get_user_by_name(&name));
    if let Some(user) = known {
        for group in user.groups().unwrap_or_default() {
            if let Some(name) = group.name().to_str() {
                assert!(current_user_in_group(name));
            }
        }
    }
}

#[test]
fn identity_of_finds_no_group_with_a_nul_in_its_name() {
    if let Some(identity) = get_real_current_user(None) {
        for group in &identity.groups {
            assert!(!group.name.contains('\0'));
        }
    }
}
