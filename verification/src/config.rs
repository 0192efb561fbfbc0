//! The names and paths that an installation works with.

use vstd::prelude::*;
use vstd::string::*;

verus! {

/// The group whose members may use the devices.
pub const BPF_GROUP: &'static str = "access_bpf";

/// The name under which the group is shown to users.
pub const BPF_GROUP_NAME: &'static str = "BPF Device ACL";

/// The administrators' group, which is nested inside the access group.
pub const ADMIN_GROUP: &'static str = "admin";

/// Ids below this one are left to the system.
pub const MIN_GID: u32 = 100;

/// The directory that holds the device nodes.
pub const DEVICE_ROOT: &'static str = "/dev";

/// What the names of the device nodes begin with.
pub const DEVICE_PREFIX: &'static str = "bpf";

/// Where the daemon's descriptor is installed.
pub const CHMOD_BPF_PLIST_PATH: &'static str = "/Library/LaunchDaemons/com.foctal.chmod-bpf.plist";

/// A descriptor that another distribution of the same helper installs.
pub const LEGACY_PLIST_PATH: &'static str = "/Library/LaunchDaemons/org.wireshark.ChmodBPF.plist";

/// The directory that holds the helper script.
pub const CHMOD_BPF_SCRIPT_DIR_PATH: &'static str = "/Library/Application Support/Foctal/chmod-bpf/";

/// Where the helper script is installed.
pub const CHMOD_BPF_SCRIPT_PATH: &'static str =
    "/Library/Application Support/Foctal/chmod-bpf/chmod-bpf.sh";

/// Everything that an audit, an installation or a removal needs to know of
/// the system it works on. It is made once and handed to each operation.
#[derive(Clone, Debug, PartialEq, Eq)]
pub struct Config {
    /// The access group.
    pub group: String,
    /// The access group's display name.
    pub group_name: String,
    /// The group nested inside the access group.
    pub admin_group: String,
    /// The least id that the access group may get.
    pub min_gid: u32,
    /// The directory that holds the device nodes.
    pub device_root: String,
    /// What the names of the device nodes begin with.
    pub device_prefix: String,
    /// The descriptor that an installation writes and a removal deletes.
    pub plist_path: String,
    /// Every place where a descriptor may lie, the current one first.
    pub known_plists: Vec<String>,
    /// The directory of the helper script.
    pub script_dir: String,
    /// The helper script.
    pub script_path: String,
}

/// A [`Config`] with its texts as sequences of characters.
pub struct ConfigView {
    pub group: Seq<char>,
    pub group_name: Seq<char>,
    pub admin_group: Seq<char>,
    pub min_gid: u32,
    pub device_root: Seq<char>,
    pub device_prefix: Seq<char>,
    pub plist_path: Seq<char>,
    pub known_plists: Seq<Seq<char>>,
    pub script_dir: Seq<char>,
    pub script_path: Seq<char>,
}

impl View for Config {
    type V = ConfigView;

    open spec fn view(&self) -> ConfigView {
        ConfigView {
            group: self.group@,
            group_name: self.group_name@,
            admin_group: self.admin_group@,
            min_gid: self.min_gid,
            device_root: self.device_root@,
            device_prefix: self.device_prefix@,
            plist_path: self.plist_path@,
            known_plists: self.known_plists.deep_view(),
            script_dir: self.script_dir@,
            script_path: self.script_path@,
        }
    }
}

impl ConfigView {
    /// The script lies in the script directory, so that removing the
    /// directory removes the script.
    pub open spec fn well_formed(self) -> bool {
        self.script_dir.is_prefix_of(self.script_path)
    }

    /// The configuration of a standard system.
    pub open spec fn standard() -> ConfigView {
        ConfigView {
            group: BPF_GROUP@,
            group_name: BPF_GROUP_NAME@,
            admin_group: ADMIN_GROUP@,
            min_gid: MIN_GID,
            device_root: DEVICE_ROOT@,
            device_prefix: DEVICE_PREFIX@,
            plist_path: CHMOD_BPF_PLIST_PATH@,
            known_plists: seq![CHMOD_BPF_PLIST_PATH@, LEGACY_PLIST_PATH@],
            script_dir: CHMOD_BPF_SCRIPT_DIR_PATH@,
            script_path: CHMOD_BPF_SCRIPT_PATH@,
        }
    }
}

/// The standard configuration is well formed.
pub proof fn lemma_standard_well_formed()
    ensures
        ConfigView::standard().well_formed(),
{
    reveal_strlit("/Library/Application Support/Foctal/chmod-bpf/");
    reveal_strlit("/Library/Application Support/Foctal/chmod-bpf/chmod-bpf.sh");
}

impl Config {
    /// The configuration of a standard system.
    pub fn standard() -> (config: Config)
        ensures
            config@ == ConfigView::standard(),
            config@.well_formed(),
    {
        proof {
            lemma_standard_well_formed();
        }
        let mut known_plists: Vec<String> = Vec::new();
        known_plists.push(CHMOD_BPF_PLIST_PATH.to_owned());
        known_plists.push(LEGACY_PLIST_PATH.to_owned());
        assert(known_plists.deep_view() =~= seq![CHMOD_BPF_PLIST_PATH@, LEGACY_PLIST_PATH@]);
        Config {
            group: BPF_GROUP.to_owned(),
            group_name: BPF_GROUP_NAME.to_owned(),
            admin_group: ADMIN_GROUP.to_owned(),
            min_gid: MIN_GID,
            device_root: DEVICE_ROOT.to_owned(),
            device_prefix: DEVICE_PREFIX.to_owned(),
            plist_path: CHMOD_BPF_PLIST_PATH.to_owned(),
            known_plists,
            script_dir: CHMOD_BPF_SCRIPT_DIR_PATH.to_owned(),
            script_path: CHMOD_BPF_SCRIPT_PATH.to_owned(),
        }
    }
}

} // verus!
