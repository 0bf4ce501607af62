//! The bundle assembly plan: the exact, ordered file-system steps that build
//! the bundle tree.  The caller executes them; every decision about what they
//! are is made and proved here.

use vstd::prelude::*;
use vstd::string::StringExecFns;
use crate::names::is_native_name;
use crate::plist::{BundleMeta, descriptor_text, descriptor_content, icon_view, copyright_view};

verus! {

/// How the icon pipeline is to proceed for a list of candidate file names.
#[derive(Clone, Copy, Debug, PartialEq, Eq, Structural)]
pub enum IconPlan {
    /// No candidates were given: the bundle gets no icon, and that is not an
    /// error.
    NoCandidates,
    /// The candidate at this index already bears the container's native
    /// extension: its file is copied verbatim and nothing is ever decoded.
    UseNative(usize),
    /// No candidate is a pre-made container: decode them all, in order, and
    /// synthesize one.
    Synthesize,
}

/// Decides the icon pipeline for the candidate file names (each the final
/// path component, as bytes): the first candidate that already bears the
/// native extension wins and short-circuits synthesis entirely.
pub fn icon_plan(names: &Vec<Vec<u8>>) -> (r: IconPlan)
    ensures
        (r == IconPlan::NoCandidates) == (names@.len() == 0),
        match r {
            IconPlan::NoCandidates => names@.len() == 0,
            IconPlan::UseNative(i) => {
                &&& i < names@.len()
                &&& is_native_name(names@[i as int]@)
                &&& forall|j: int| 0 <= j < i ==> !is_native_name(#[trigger] names@[j]@)
            },
            IconPlan::Synthesize => {
                &&& names@.len() > 0
                &&& forall|j: int|
                    0 <= j < names@.len() ==> !is_native_name(#[trigger] names@[j]@)
            },
        },
{
    if names.len() == 0 {
        return IconPlan::NoCandidates;
    }
    match crate::names::first_native_index(names) {
        Some(i) => IconPlan::UseNative(i),
        None => IconPlan::Synthesize,
    }
}

/// How the bundle's icon was resolved, as input to the assembly plan.
pub enum IconResolution {
    /// No icon: none was given, or none was usable.
    NoIcon,
    /// A candidate file that already is a container: copied verbatim, kept
    /// under its own file name.
    Native { src: String, file_name: String },
    /// A synthesized container, to be written as `<bundle name>.icns`.
    Synthesized { bytes: Vec<u8> },
}

/// One resource file to copy: its source path and its path relative to the
/// resources directory.
pub struct ResourceCopy {
    pub src: String,
    pub rel: String,
}

/// One file-system step of the assembly, in the order the caller must run
/// them.
pub enum PlanStep {
    /// Remove a directory tree and everything under it.
    RemoveTree { path: String },
    /// Create a directory and its missing parents.
    CreateDir { path: String },
    /// Copy one file byte for byte, creating missing parent directories.
    CopyFile { src: String, dest: String },
    /// Write a file holding exactly these bytes.
    WriteBytes { path: String, bytes: Vec<u8> },
    /// Write a file holding exactly this text.
    WriteText { path: String, text: String },
}

/// The mathematical shadow of a step: the same shape over sequences.
pub enum StepView {
    RemoveTree { path: Seq<char> },
    CreateDir { path: Seq<char> },
    CopyFile { src: Seq<char>, dest: Seq<char> },
    WriteBytes { path: Seq<char>, bytes: Seq<u8> },
    WriteText { path: Seq<char>, text: Seq<char> },
}

impl View for PlanStep {
    type V = StepView;

    open spec fn view(&self) -> StepView {
        match self {
            PlanStep::RemoveTree { path } => StepView::RemoveTree { path: path@ },
            PlanStep::CreateDir { path } => StepView::CreateDir { path: path@ },
            PlanStep::CopyFile { src, dest } => StepView::CopyFile { src: src@, dest: dest@ },
            PlanStep::WriteBytes { path, bytes } => StepView::WriteBytes {
                path: path@,
                bytes: bytes@,
            },
            PlanStep::WriteText { path, text } => StepView::WriteText { path: path@, text: text@ },
        }
    }
}

/// The views of a plan's steps, in order.
pub open spec fn views_of(v: Seq<PlanStep>) -> Seq<StepView> {
    v.map_values(|p: PlanStep| p@)
}

/// Two path components joined by the separator.
pub open spec fn spec_joined(a: Seq<char>, b: Seq<char>) -> Seq<char> {
    a + "/"@ + b
}

/// The bundle root: `<out dir>/bundle/osx/<name>.app`.
pub open spec fn spec_root(out_dir: Seq<char>, name: Seq<char>) -> Seq<char> {
    out_dir + "/bundle/osx/"@ + name + ".app"@
}

/// The steps that place the icon file, if any, into the resources directory.
pub open spec fn spec_icon_steps(
    resources: Seq<char>,
    name: Seq<char>,
    icon: IconResolution,
) -> Seq<StepView> {
    match icon {
        IconResolution::NoIcon => Seq::<StepView>::empty(),
        IconResolution::Native { src, file_name } => seq![
            StepView::CreateDir { path: resources },
            StepView::CopyFile { src: src@, dest: spec_joined(resources, file_name@) },
        ],
        IconResolution::Synthesized { bytes } => seq![
            StepView::CreateDir { path: resources },
            StepView::WriteBytes {
                path: spec_joined(resources, name + ".icns"@),
                bytes: bytes@,
            },
        ],
    }
}

/// The file name the metadata descriptor references for an icon resolution:
/// always a bare name, never a path.
pub open spec fn spec_icon_ref(name: Seq<char>, icon: IconResolution) -> Option<Seq<char>> {
    match icon {
        IconResolution::NoIcon => None,
        IconResolution::Native { src, file_name } => Some(file_name@),
        IconResolution::Synthesized { bytes } => Some(name + ".icns"@),
    }
}

/// The copy steps for the resource files, preserving each relative path under
/// the resources directory.
pub open spec fn spec_resource_steps(
    resources_dir: Seq<char>,
    rs: Seq<ResourceCopy>,
) -> Seq<StepView> {
    rs.map_values(
        |rc: ResourceCopy| StepView::CopyFile {
            src: rc.src@,
            dest: spec_joined(resources_dir, rc.rel@),
        },
    )
}

/// The whole assembly: remove a stale bundle root first if one exists, create
/// the contents directory, place the icon, write the metadata descriptor,
/// copy the resources, and copy the executable.
pub open spec fn spec_plan(
    meta: BundleMeta,
    out_dir: Seq<char>,
    root_exists: bool,
    icon: IconResolution,
    rs: Seq<ResourceCopy>,
    binary_src: Seq<char>,
) -> Seq<StepView> {
    let root = spec_root(out_dir, meta.bundle_name@);
    let contents = root + "/Contents"@;
    let resources_dir = contents + "/Resources"@;
    let macos = contents + "/MacOS"@;
    (if root_exists {
        seq![StepView::RemoveTree { path: root }]
    } else {
        Seq::<StepView>::empty()
    }) + seq![StepView::CreateDir { path: contents }] + spec_icon_steps(
        resources_dir,
        meta.bundle_name@,
        icon,
    ) + seq![
        StepView::WriteText {
            path: contents + "/Info.plist"@,
            text: descriptor_text(
                meta.bundle_name@,
                meta.binary_name@,
                spec_icon_ref(meta.bundle_name@, icon),
                meta.identifier@,
                meta.version@,
                copyright_view(meta.copyright),
            ),
        },
    ] + spec_resource_steps(resources_dir, rs) + seq![
        StepView::CreateDir { path: macos },
        StepView::CopyFile { src: binary_src, dest: spec_joined(macos, meta.binary_name@) },
    ]
}

/// Joins two path components with the separator.
fn joined(a: &str, b: &str) -> (r: String)
    ensures
        r@ == spec_joined(a@, b@),
{
    let mut s = String::new();
    s.append(a);
    s.append("/");
    s.append(b);
    s
}

/// Computes the assembly plan for a bundle.  The caller reports whether the
/// bundle root currently exists and runs the returned steps in order.
pub fn assemble_plan(
    meta: &BundleMeta,
    out_dir: &str,
    root_exists: bool,
    icon: IconResolution,
    resources: &Vec<ResourceCopy>,
    binary_src: &str,
) -> (r: Vec<PlanStep>)
    ensures
        views_of(r@) == spec_plan(*meta, out_dir@, root_exists, icon, resources@, binary_src@),
{
    let ghost gplan = spec_plan(*meta, out_dir@, root_exists, icon, resources@, binary_src@);
    let mut root = String::new();
    root.append(out_dir);
    root.append("/bundle/osx/");
    root.append(meta.bundle_name.as_str());
    root.append(".app");
    let mut contents = root.clone();
    contents.append("/Contents");
    let mut resources_dir = contents.clone();
    resources_dir.append("/Resources");
    let mut macos = contents.clone();
    macos.append("/MacOS");
    let mut plist_path = contents.clone();
    plist_path.append("/Info.plist");

    let mut plan: Vec<PlanStep> = Vec::new();
    if root_exists {
        plan.push(PlanStep::RemoveTree { path: root });
    }
    plan.push(PlanStep::CreateDir { path: contents });

    let ghost icon_snapshot = icon;
    let icon_name: Option<String> = match icon {
        IconResolution::NoIcon => None,
        IconResolution::Native { src, file_name } => {
            plan.push(PlanStep::CreateDir { path: resources_dir.clone() });
            plan.push(
                PlanStep::CopyFile {
                    src,
                    dest: joined(resources_dir.as_str(), file_name.as_str()),
                },
            );
            Some(file_name)
        },
        IconResolution::Synthesized { bytes } => {
            plan.push(PlanStep::CreateDir { path: resources_dir.clone() });
            let mut fname = String::new();
            fname.append(meta.bundle_name.as_str());
            fname.append(".icns");
            plan.push(
                PlanStep::WriteBytes {
                    path: joined(resources_dir.as_str(), fname.as_str()),
                    bytes,
                },
            );
            Some(fname)
        },
    };
    proof {
        assert(icon_view(icon_name) == spec_icon_ref(meta.bundle_name@, icon_snapshot));
    }
    let text = descriptor_content(meta, &icon_name);
    plan.push(PlanStep::WriteText { path: plist_path, text });

    let ghost base = views_of(plan@);
    proof {
        assert(base =~= (if root_exists {
            seq![StepView::RemoveTree { path: spec_root(out_dir@, meta.bundle_name@) }]
        } else {
            Seq::<StepView>::empty()
        }) + seq![StepView::CreateDir { path: spec_root(out_dir@, meta.bundle_name@) + "/Contents"@ }]
            + spec_icon_steps(
            spec_root(out_dir@, meta.bundle_name@) + "/Contents"@ + "/Resources"@,
            meta.bundle_name@,
            icon_snapshot,
        ) + seq![
            StepView::WriteText {
                path: spec_root(out_dir@, meta.bundle_name@) + "/Contents"@ + "/Info.plist"@,
                text: descriptor_text(
                    meta.bundle_name@,
                    meta.binary_name@,
                    spec_icon_ref(meta.bundle_name@, icon_snapshot),
                    meta.identifier@,
                    meta.version@,
                    copyright_view(meta.copyright),
                ),
            },
        ]);
    }

    let mut i: usize = 0;
    while i < resources.len()
        invariant
            i <= resources@.len(),
            views_of(plan@) == base + spec_resource_steps(
                spec_root(out_dir@, meta.bundle_name@) + "/Contents"@ + "/Resources"@,
                resources@.take(i as int),
            ),
            resources_dir@ == spec_root(out_dir@, meta.bundle_name@) + "/Contents"@
                + "/Resources"@,
        decreases resources@.len() - i,
    {
        let ghost before = views_of(plan@);
        let step = PlanStep::CopyFile {
            src: resources[i].src.clone(),
            dest: joined(resources_dir.as_str(), resources[i].rel.as_str()),
        };
        plan.push(step);
        proof {
            assert(views_of(plan@) =~= before.push(step@));
            assert(spec_resource_steps(
                resources_dir@,
                resources@.take(i + 1),
            ) =~= spec_resource_steps(resources_dir@, resources@.take(i as int)).push(step@));
            assert(views_of(plan@) =~= base + spec_resource_steps(
                resources_dir@,
                resources@.take(i + 1),
            ));
        }
        i += 1;
    }
    proof {
        assert(resources@.take(resources@.len() as int) =~= resources@);
    }

    plan.push(PlanStep::CreateDir { path: macos.clone() });
    let bin_dest = joined(macos.as_str(), meta.binary_name.as_str());
    let mut bin_src = String::new();
    bin_src.append(binary_src);
    plan.push(PlanStep::CopyFile { src: bin_src, dest: bin_dest });
    proof {
        assert(views_of(plan@) =~= gplan);
    }
    plan
}

/// A stale bundle tree is removed before anything is built: when the root
/// exists, the plan's very first step removes it, and nothing else in the
/// plan ever removes anything; when it does not exist, nothing is removed at
/// all.
pub proof fn lemma_stale_tree_removed_first(
    meta: BundleMeta,
    out_dir: Seq<char>,
    root_exists: bool,
    icon: IconResolution,
    rs: Seq<ResourceCopy>,
    binary_src: Seq<char>,
)
    ensures
        ({
            let plan = spec_plan(meta, out_dir, root_exists, icon, rs, binary_src);
            &&& root_exists ==> plan.len() > 0 && plan[0] == (StepView::RemoveTree {
                path: spec_root(out_dir, meta.bundle_name@),
            })
            &&& forall|k: int|
                (if root_exists {
                    1int
                } else {
                    0int
                }) <= k < plan.len() ==> !((#[trigger] plan[k]) is RemoveTree)
        }),
{
    let plan = spec_plan(meta, out_dir, root_exists, icon, rs, binary_src);
    let resources_dir = spec_root(out_dir, meta.bundle_name@) + "/Contents"@ + "/Resources"@;
    assert forall|k: int|
        (if root_exists {
            1int
        } else {
            0int
        }) <= k < plan.len() implies !((#[trigger] plan[k]) is RemoveTree) by {
        let pre = (if root_exists {
            1int
        } else {
            0int
        }) + 1 + spec_icon_steps(resources_dir, meta.bundle_name@, icon).len() + 1;
        if k >= pre {
            if k < pre + rs.len() {
                assert(plan[k] == spec_resource_steps(resources_dir, rs)[k - pre]);
            }
        }
    }
}

/// With no icon resolved, the plan writes no container bytes anywhere, and
/// the metadata descriptor it writes is the exact text with no icon-file
/// reference.
pub proof fn lemma_no_icon_plan(
    meta: BundleMeta,
    out_dir: Seq<char>,
    root_exists: bool,
    rs: Seq<ResourceCopy>,
    binary_src: Seq<char>,
)
    ensures
        ({
            let plan = spec_plan(meta, out_dir, root_exists, IconResolution::NoIcon, rs, binary_src);
            &&& forall|k: int| 0 <= k < plan.len() ==> !((#[trigger] plan[k]) is WriteBytes)
            &&& exists|k: int|
                0 <= k < plan.len() && (#[trigger] plan[k]) == (StepView::WriteText {
                    path: spec_root(out_dir, meta.bundle_name@) + "/Contents"@ + "/Info.plist"@,
                    text: descriptor_text(
                        meta.bundle_name@,
                        meta.binary_name@,
                        None,
                        meta.identifier@,
                        meta.version@,
                        copyright_view(meta.copyright),
                    ),
                })
        }),
{
    let plan = spec_plan(meta, out_dir, root_exists, IconResolution::NoIcon, rs, binary_src);
    let resources_dir = spec_root(out_dir, meta.bundle_name@) + "/Contents"@ + "/Resources"@;
    let pre = (if root_exists {
        1int
    } else {
        0int
    }) + 1;
    assert(plan[pre] == (StepView::WriteText {
        path: spec_root(out_dir, meta.bundle_name@) + "/Contents"@ + "/Info.plist"@,
        text: descriptor_text(
            meta.bundle_name@,
            meta.binary_name@,
            None,
            meta.identifier@,
            meta.version@,
            copyright_view(meta.copyright),
        ),
    }));
    assert forall|k: int| 0 <= k < plan.len() implies !((#[trigger] plan[k]) is WriteBytes) by {
        if pre + 1 <= k < pre + 1 + rs.len() {
            assert(plan[k] == spec_resource_steps(resources_dir, rs)[k - (pre + 1)]);
        }
    }
}

} // verus!
