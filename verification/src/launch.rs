//! Runtime launcher: the isolated environment the interpreter starts in.
//!
//! The launcher clears inherited interpreter configuration and builds a
//! fresh plan from the executable's own location: the interpreter home,
//! the module search path with the bundled archive first, the forwarded
//! argument vector, and the entry-point context markers. Everything here
//! is construction over plain values; applying the plan to the process
//! and running the interpreter is work outside this crate.

use vstd::prelude::*;
use vstd::string::StringExecFns;

verus! {

/// Everything the embedded interpreter is started with. Built fresh for
/// each launch; never read back.
#[derive(Debug)]
pub struct LaunchPlan {
    /// The interpreter's home/library root: the internal assets directory.
    pub python_home: String,
    /// The module search path: the bundled archive first, then the assets
    /// directory, so bundled modules take precedence.
    pub python_path: String,
    /// The "no user site-packages" flag is set.
    pub no_user_site: bool,
    /// The "force UTF-8" flag is set.
    pub utf8_mode: bool,
    /// The process's own arguments, forwarded verbatim.
    pub argv: Vec<String>,
    /// Entry-point identity marker: the payload runs as the program entry.
    pub entry_name: String,
    /// The payload's logical source location, for diagnostics only.
    pub entry_file: String,
    /// The decrypted payload, as text: the source the interpreter
    /// executes.
    pub source: String,
}

/// Whether a plan is exactly the one owed for these inputs: home at the
/// assets directory, search path `archive || separator || assets` in that
/// fixed order, both isolation flags set, the arguments forwarded
/// verbatim, and the entry context naming the payload as the program
/// entry point with the given source.
pub open spec fn spec_plan_matches(
    plan: LaunchPlan,
    assets_dir: Seq<char>,
    base_archive: Seq<char>,
    path_sep: Seq<char>,
    payload_path: Seq<char>,
    argv: Seq<Seq<char>>,
    source: Seq<char>,
) -> bool {
    &&& plan.python_home@ == assets_dir
    &&& plan.python_path@ == base_archive + path_sep + assets_dir
    &&& plan.no_user_site == true
    &&& plan.utf8_mode == true
    &&& plan.argv.deep_view() == argv
    &&& plan.entry_name@ == "__main__"@
    &&& plan.entry_file@ == payload_path
    &&& plan.source@ == source
}

/// A byte string with every ASCII space removed, in order. Stripping is
/// done on bytes: a space byte never occurs inside a longer UTF-8
/// encoding, so this is exact for UTF-8 text as well.
pub open spec fn spec_strip_spaces(s: Seq<u8>) -> Seq<u8>
    decreases s.len(),
{
    if s.len() == 0 {
        Seq::empty()
    } else if s.last() == 0x20 {
        spec_strip_spaces(s.drop_last())
    } else {
        spec_strip_spaces(s.drop_last()).push(s.last())
    }
}

/// The ASCII bytes of `Pytron.`, the fixed head of the task-grouping
/// identity.
pub open spec fn spec_identity_prefix() -> Seq<u8> {
    seq![0x50u8, 0x79u8, 0x74u8, 0x72u8, 0x6fu8, 0x6eu8, 0x2eu8]
}

/// The OS task-grouping identity owed for an author and a title:
/// `Pytron.<author>.<title>` with every space removed from the two parts.
pub open spec fn spec_app_identity(author: Seq<u8>, title: Seq<u8>) -> Seq<u8> {
    spec_identity_prefix() + spec_strip_spaces(author) + seq![0x2eu8] + spec_strip_spaces(title)
}

/// Append `s` with its spaces removed.
fn push_stripped(out: &mut Vec<u8>, s: &Vec<u8>)
    ensures
        final(out)@ == old(out)@ + spec_strip_spaces(s@),
{
    let ghost head: Seq<u8> = out@;
    let mut i: usize = 0;
    while i < s.len()
        invariant
            i <= s.len(),
            out@ == head + spec_strip_spaces(s@.subrange(0, i as int)),
        decreases s.len() - i,
    {
        proof {
            assert(s@.subrange(0, i + 1).drop_last() =~= s@.subrange(0, i as int));
            assert(s@.subrange(0, i + 1).last() == s@[i as int]);
        }
        if s[i] != 0x20 {
            out.push(s[i]);
        }
        i = i + 1;
    }
    proof {
        assert(s@.subrange(0, s@.len() as int) =~= s@);
    }
}

/// Build the OS task-grouping identity from the settings' author and
/// title, as bytes: `Pytron.<author>.<title>` with spaces removed.
pub fn app_identity(author: &Vec<u8>, title: &Vec<u8>) -> (id: Vec<u8>)
    ensures
        id@ == spec_app_identity(author@, title@),
{
    let mut id: Vec<u8> = Vec::new();
    id.push(0x50u8);
    id.push(0x79u8);
    id.push(0x74u8);
    id.push(0x72u8);
    id.push(0x6fu8);
    id.push(0x6eu8);
    id.push(0x2eu8);
    proof {
        assert(id@ =~= spec_identity_prefix());
    }
    push_stripped(&mut id, author);
    id.push(0x2eu8);
    push_stripped(&mut id, title);
    proof {
        assert(id@ =~= spec_app_identity(author@, title@));
    }
    id
}

/// Pick the internal assets directory: the dedicated one beside the
/// executable when it exists, the executable's own directory otherwise.
pub fn select_assets_dir(root_dir: &String, internal_dir: &String, internal_exists: bool) -> (dir:
    String)
    ensures
        internal_exists ==> dir@ == internal_dir@,
        !internal_exists ==> dir@ == root_dir@,
{
    if internal_exists {
        internal_dir.clone()
    } else {
        root_dir.clone()
    }
}

/// Build the launch plan for a decrypted payload. The plan is pinned
/// exactly by `spec_plan_matches`: nothing of the ambient environment
/// leaks in, the bundled archive stands first on the search path, and the
/// payload is marked as the program entry point at its file path.
pub fn build_launch_plan(
    assets_dir: &String,
    base_archive: &String,
    path_sep: &String,
    payload_path: &String,
    args: &Vec<String>,
    source: String,
) -> (plan: LaunchPlan)
    ensures
        spec_plan_matches(
            plan,
            assets_dir@,
            base_archive@,
            path_sep@,
            payload_path@,
            args.deep_view(),
            source@,
        ),
{
    let mut search_path: String = base_archive.clone();
    search_path.append(path_sep.as_str());
    search_path.append(assets_dir.as_str());
    let mut argv: Vec<String> = Vec::new();
    let mut i: usize = 0;
    while i < args.len()
        invariant
            i <= args.len(),
            argv@.len() == i,
            forall|j: int| 0 <= j < i ==> argv@[j]@ == args@[j]@,
        decreases args.len() - i,
    {
        argv.push(args[i].clone());
        i = i + 1;
    }
    proof {
        assert forall|j: int| 0 <= j < argv.deep_view().len() implies argv.deep_view()[j]
            == args.deep_view()[j] by {
            assert(argv.deep_view()[j] == argv@[j]@);
            assert(args.deep_view()[j] == args@[j]@);
        }
        assert(argv.deep_view() =~= args.deep_view());
    }
    LaunchPlan {
        python_home: assets_dir.clone(),
        python_path: search_path,
        no_user_site: true,
        utf8_mode: true,
        argv,
        entry_name: "__main__".to_owned(),
        entry_file: payload_path.clone(),
        source,
    }
}

} // verus!
