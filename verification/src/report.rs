//! The audit report: three verdicts, and the tree that shows them.

use crate::error::{Error, ErrorView};
use crate::output::{
    get_check_error_log, get_check_ok_log, get_error_log, get_ok_log, labelled, log_line,
    node_label, Paint, EMOJI_CHECK_MARK, EMOJI_CROSS_MARK, LOG_LABEL_ERROR, LOG_LABEL_OK,
};
use termtree::Tree;
use vstd::prelude::*;
use vstd::string::*;

verus! {

/// `termtree::Tree`: a label with the trees that hang below it.
#[verifier::external_type_specification]
#[verifier::external_body]
#[verifier::reject_recursive_types(D)]
pub struct ExTree<D: core::fmt::Display>(Tree<D>);

/// The nodes of a tree from the root downwards, each node before its
/// children and the children in the order in which they were added: of each
/// node its depth below the root and its label.
pub uninterp spec fn tree_lines(tree: Tree<String>) -> Seq<(nat, Seq<char>)>;

/// Whether every node of a tree is drawn with the default glyphs and as a
/// single item, as a tree is that was only ever made and added to.
pub uninterp spec fn tree_plain(tree: Tree<String>) -> bool;

/// The text that shows the nodes `lines` as a tree: the root's label on the
/// first line, below it one item for each other node, indented by its depth
/// and joined to its parent by branch glyphs.
pub uninterp spec fn tree_text(lines: Seq<(nat, Seq<char>)>) -> Seq<char>;

/// `lines` one level further down.
pub open spec fn nested(lines: Seq<(nat, Seq<char>)>) -> Seq<(nat, Seq<char>)> {
    lines.map_values(|line: (nat, Seq<char>)| (line.0 + 1, line.1))
}

/// `termtree::Tree::new`: a tree that is a root without children.
#[verifier::external_body]
fn tree_new(label: String) -> (tree: Tree<String>)
    ensures
        tree_lines(tree) == seq![(0nat, label@)],
        tree_plain(tree),
{
    Tree::new(label)
}

/// `termtree::Tree::push`: `leaf` becomes the last child of the root, so its
/// nodes follow all others, one level further down than they were.
#[verifier::external_body]
fn tree_push(tree: &mut Tree<String>, leaf: Tree<String>)
    ensures
        tree_lines(*final(tree)) == tree_lines(*old(tree)) + nested(tree_lines(leaf)),
        tree_plain(*final(tree)) == (tree_plain(*old(tree)) && tree_plain(leaf)),
{
    tree.push(leaf);
}

/// `Display` of a `termtree::Tree`: the text that shows the tree. For a tree
/// drawn with the default glyphs the nodes determine it.
#[verifier::external_body]
fn tree_render(tree: &Tree<String>) -> (text: String)
    requires
        tree_plain(*tree),
    ensures
        text@ == tree_text(tree_lines(*tree)),
{
    tree.to_string()
}

/// What an audit found: the verdicts of its three checks. Each check is made
/// whatever the others find.
#[derive(Debug, PartialEq, Eq)]
pub struct CheckReport {
    /// Whether the user can read and write every device.
    pub permission: Result<(), Error>,
    /// Whether the user belongs to the access group.
    pub group_member: bool,
    /// The daemon descriptor that was found.
    pub daemon: Result<String, Error>,
}

/// A [`CheckReport`] with its texts as sequences of characters.
pub struct CheckReportView {
    pub permission: Result<(), ErrorView>,
    pub group_member: bool,
    pub daemon: Result<Seq<char>, ErrorView>,
}

impl View for CheckReport {
    type V = CheckReportView;

    open spec fn view(&self) -> CheckReportView {
        CheckReportView {
            permission: match self.permission {
                Ok(()) => Ok(()),
                Err(e) => Err(e@),
            },
            group_member: self.group_member,
            daemon: match self.daemon {
                Ok(path) => Ok(path@),
                Err(e) => Err(e@),
            },
        }
    }
}

/// One section of the report: its title, below it the topic marked as passed
/// or failed and the sentence that says what was found.
pub open spec fn section_lines(
    title: Seq<char>,
    topic: Seq<char>,
    passed: bool,
    finding: Seq<char>,
) -> Seq<(nat, Seq<char>)> {
    if passed {
        seq![
            (0nat, title),
            (1nat, log_line(Paint::Green, LOG_LABEL_OK@, topic)),
            (1nat, EMOJI_CHECK_MARK@ + " "@ + finding),
        ]
    } else {
        seq![
            (0nat, title),
            (1nat, log_line(Paint::Red, LOG_LABEL_ERROR@, topic)),
            (1nat, EMOJI_CROSS_MARK@ + " "@ + finding),
        ]
    }
}

impl CheckReportView {
    /// What the report says of the permissions.
    pub open spec fn permission_finding(self) -> Seq<char> {
        match self.permission {
            Ok(()) => "You have access to all detected BPF devices."@,
            Err(e) => e.message(),
        }
    }

    /// What the report says of the membership in the group called `group`.
    pub open spec fn group_finding(self, group: Seq<char>) -> Seq<char> {
        if self.group_member {
            "Current user belongs to "@ + group
        } else {
            "Current user is not a member of "@ + group
        }
    }

    /// What the report says of the daemon.
    pub open spec fn daemon_finding(self) -> Seq<char> {
        match self.daemon {
            Ok(path) => "Found configuration at "@ + path,
            Err(e) => e.message(),
        }
    }

    /// The nodes of the report's tree: the title, a section for each of the
    /// three checks, and the time of the audit.
    pub open spec fn lines(self, group: Seq<char>, timestamp: Seq<char>) -> Seq<(nat, Seq<char>)> {
        seq![(0nat, "BPF device audit"@)] + nested(
            section_lines(
                "Permissions"@,
                "Permission"@,
                self.permission is Ok,
                self.permission_finding(),
            ),
        ) + nested(
            section_lines("Group"@, "Group"@, self.group_member, self.group_finding(group)),
        ) + nested(
            section_lines("Daemon"@, "Daemon"@, self.daemon is Ok, self.daemon_finding()),
        ) + seq![(1nat, labelled("Checked at"@, Some(timestamp), Some(" :"@)))]
    }
}

fn section(title: &str, topic: &str, passed: bool, finding: &str) -> (tree: Tree<String>)
    ensures
        tree_lines(tree) == section_lines(title@, topic@, passed, finding@),
        tree_plain(tree),
{
    let mut tree = tree_new(node_label(title, None, None));
    if passed {
        let status = get_ok_log(LOG_LABEL_OK, topic);
        tree_push(&mut tree, tree_new(node_label(status.as_str(), None, None)));
        let detail = get_check_ok_log(finding);
        tree_push(&mut tree, tree_new(node_label(detail.as_str(), None, None)));
    } else {
        let status = get_error_log(LOG_LABEL_ERROR, topic);
        tree_push(&mut tree, tree_new(node_label(status.as_str(), None, None)));
        let detail = get_check_error_log(finding);
        tree_push(&mut tree, tree_new(node_label(detail.as_str(), None, None)));
    }
    tree
}

impl CheckReport {
    /// Draws the report as a tree. `group` is the name of the access group
    /// and `timestamp` the time of the audit, as it is to be shown.
    pub fn render(&self, group: &str, timestamp: &str) -> (text: String)
        ensures
            text@ == tree_text(self@.lines(group@, timestamp@)),
    {
        let mut tree = tree_new(node_label("BPF device audit", None, None));
        let permissions = match &self.permission {
            Ok(_) => section(
                "Permissions",
                "Permission",
                true,
                "You have access to all detected BPF devices.",
            ),
            Err(e) => {
                let finding = e.message();
                section("Permissions", "Permission", false, finding.as_str())
            },
        };
        tree_push(&mut tree, permissions);
        let mut finding = if self.group_member {
            "Current user belongs to ".to_owned()
        } else {
            "Current user is not a member of ".to_owned()
        };
        finding.append(group);
        tree_push(&mut tree, section("Group", "Group", self.group_member, finding.as_str()));
        let daemon = match &self.daemon {
            Ok(path) => {
                let mut finding = "Found configuration at ".to_owned();
                finding.append(path.as_str());
                section("Daemon", "Daemon", true, finding.as_str())
            },
            Err(e) => {
                let finding = e.message();
                section("Daemon", "Daemon", false, finding.as_str())
            },
        };
        tree_push(&mut tree, daemon);
        tree_push(&mut tree, tree_new(node_label("Checked at", Some(timestamp), Some(" :"))));
        assert(tree_lines(tree) =~= self@.lines(group@, timestamp@));
        tree_render(&tree)
    }
}

} // verus!
