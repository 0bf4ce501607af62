//! Tests of the filename conventions, the metadata descriptor, and the
//! assembly plan: the native-extension short circuit, the no-icon run, and
//! the removal of a stale bundle tree.

use osx_bundle::assemble::{
    assemble_plan, icon_plan, IconPlan, IconResolution, PlanStep, ResourceCopy,
};
use osx_bundle::classify::DensityClass;
use osx_bundle::names::{density_of, first_native_index, is_native};
use osx_bundle::plist::{descriptor_content, BundleMeta};

fn meta() -> BundleMeta {
    BundleMeta {
        bundle_name: String::from("Example"),
        binary_name: String::from("example"),
        identifier: String::from("org.example.app"),
        version: String::from("1.2.3"),
        copyright: None,
    }
}

fn names(list: &[&str]) -> Vec<Vec<u8>> {
    list.iter().map(|s| s.as_bytes().to_vec()).collect()
}

#[test]
fn native_extension_detected() {
    assert!(is_native(&b"app.icns".to_vec()));
    assert!(is_native(&b"a.b.icns".to_vec()));
    assert!(!is_native(&b"app.png".to_vec()));
    assert!(!is_native(&b".icns".to_vec()));
    assert!(!is_native(&b"appicns".to_vec()));
    assert!(!is_native(&b"app.ICNS".to_vec()));
}

#[test]
fn density_read_from_stem() {
    assert_eq!(density_of(&b"icon@2x.png".to_vec()), DensityClass::Double);
    assert_eq!(density_of(&b"icon.png".to_vec()), DensityClass::Standard);
    assert_eq!(density_of(&b"icon@2x".to_vec()), DensityClass::Double);
    assert_eq!(density_of(&b"icon@2x.foo.png".to_vec()), DensityClass::Standard);
    assert_eq!(density_of(&b"icon".to_vec()), DensityClass::Standard);
}

#[test]
fn first_native_wins_and_short_circuits() {
    let ns = names(&["icon.png", "pack.icns", "other.icns"]);
    assert_eq!(first_native_index(&ns), Some(1));
    assert_eq!(icon_plan(&ns), IconPlan::UseNative(1));
}

#[test]
fn no_native_means_synthesis() {
    let ns = names(&["icon.png", "icon@2x.png"]);
    assert_eq!(icon_plan(&ns), IconPlan::Synthesize);
}

#[test]
fn zero_candidates_mean_no_icon() {
    let ns: Vec<Vec<u8>> = Vec::new();
    assert_eq!(icon_plan(&ns), IconPlan::NoCandidates);
}

#[test]
fn descriptor_without_icon_has_no_icon_key() {
    let text = descriptor_content(&meta(), &None);
    assert!(!text.contains("CFBundleIconFile"));
    assert!(text.contains("<key>CFBundleDisplayName</key>\n  <string>Example</string>"));
    assert!(text.contains("<key>CFBundleExecutable</key>\n  <string>example</string>"));
    assert!(text.contains("<key>CFBundleIdentifier</key>\n  <string>org.example.app</string>"));
    assert!(text.contains("<key>CFBundleVersion</key>\n  <string>1.2.3</string>"));
    assert!(!text.contains("NSHumanReadableCopyright"));
}

#[test]
fn descriptor_exact_text() {
    let m = BundleMeta {
        bundle_name: String::from("App"),
        binary_name: String::from("app"),
        identifier: String::from("io.app"),
        version: String::from("0.1"),
        copyright: Some(String::from("c 2016")),
    };
    let text = descriptor_content(&m, &Some(String::from("App.icns")));
    let mut expected = String::new();
    expected.push_str("<?xml version=\"1.0\" encoding=\"UTF-8\"?>\n");
    expected.push_str("<!DOCTYPE plist PUBLIC \"-//Apple Computer//DTD PLIST 1.0//EN\" ");
    expected.push_str("\"http://www.apple.com/DTDs/PropertyList-1.0.dtd\">\n");
    expected.push_str("<plist version=\"1.0\">\n<dict>\n");
    expected.push_str("  <key>CFBundleDevelopmentRegion</key>\n  <string>English</string>\n");
    expected.push_str("  <key>CFBundleDisplayName</key>\n  <string>App</string>\n");
    expected.push_str("  <key>CFBundleExecutable</key>\n  <string>app</string>\n");
    expected.push_str("  <key>CFBundleIconFile</key>\n  <string>App.icns</string>\n");
    expected.push_str("  <key>CFBundleIdentifier</key>\n  <string>io.app</string>\n");
    expected.push_str("  <key>CFBundleInfoDictionaryVersion</key>\n  <string>6.0</string>\n");
    expected.push_str("  <key>CFBundleName</key>\n  <string>App</string>\n");
    expected.push_str("  <key>CFBundlePackageType</key>\n  <string>APPL</string>\n");
    expected.push_str("  <key>CFBundleVersion</key>\n  <string>0.1</string>\n");
    expected.push_str("  <key>CSResourcesFileMapped</key>\n  <true/>\n");
    expected.push_str("  <key>LSRequiresCarbon</key>\n  <true/>\n");
    expected.push_str("  <key>NSHighResolutionCapable</key>\n  <true/>\n");
    expected.push_str("  <key>NSHumanReadableCopyright</key>\n  <string>c 2016</string>\n");
    expected.push_str("</dict>\n</plist>\n");
    assert_eq!(text, expected);
}

#[test]
fn no_icon_plan_writes_no_container() {
    let plan = assemble_plan(
        &meta(),
        "/tmp/out",
        false,
        IconResolution::NoIcon,
        &vec![ResourceCopy { src: String::from("assets/a.txt"), rel: String::from("a.txt") }],
        "target/example",
    );
    for step in &plan {
        match step {
            PlanStep::WriteBytes { .. } => panic!("no container may be written"),
            PlanStep::RemoveTree { .. } => panic!("nothing existed to remove"),
            PlanStep::WriteText { text, .. } => assert!(!text.contains("CFBundleIconFile")),
            _ => {}
        }
    }
}

#[test]
fn stale_bundle_tree_removed_first() {
    let plan = assemble_plan(
        &meta(),
        "/tmp/out",
        true,
        IconResolution::NoIcon,
        &Vec::new(),
        "target/example",
    );
    assert!(plan.len() > 0);
    match &plan[0] {
        PlanStep::RemoveTree { path } => {
            assert_eq!(path.as_str(), "/tmp/out/bundle/osx/Example.app");
        }
        _ => panic!("the stale tree must be removed before anything else"),
    }
    for step in &plan[1..] {
        match step {
            PlanStep::RemoveTree { .. } => panic!("only the stale root is ever removed"),
            _ => {}
        }
    }
}

#[test]
fn plan_places_everything_in_order() {
    let plan = assemble_plan(
        &meta(),
        "/tmp/out",
        false,
        IconResolution::Synthesized { bytes: vec![1, 2, 3] },
        &vec![
            ResourceCopy { src: String::from("assets/a.txt"), rel: String::from("a.txt") },
            ResourceCopy { src: String::from("assets/b/c.txt"), rel: String::from("b/c.txt") },
        ],
        "target/example",
    );
    let root = "/tmp/out/bundle/osx/Example.app";
    assert_eq!(plan.len(), 8);
    match &plan[0] {
        PlanStep::CreateDir { path } => assert_eq!(path, &format!("{}/Contents", root)),
        _ => panic!("contents directory first"),
    }
    match &plan[1] {
        PlanStep::CreateDir { path } => {
            assert_eq!(path, &format!("{}/Contents/Resources", root))
        }
        _ => panic!("resources directory before the icon"),
    }
    match &plan[2] {
        PlanStep::WriteBytes { path, bytes } => {
            assert_eq!(path, &format!("{}/Contents/Resources/Example.icns", root));
            assert_eq!(bytes, &vec![1, 2, 3]);
        }
        _ => panic!("the synthesized container is written next"),
    }
    match &plan[3] {
        PlanStep::WriteText { path, text } => {
            assert_eq!(path, &format!("{}/Contents/Info.plist", root));
            assert!(text.contains("<key>CFBundleIconFile</key>\n  <string>Example.icns</string>"));
        }
        _ => panic!("the descriptor follows the icon"),
    }
    match &plan[4] {
        PlanStep::CopyFile { src, dest } => {
            assert_eq!(src.as_str(), "assets/a.txt");
            assert_eq!(dest, &format!("{}/Contents/Resources/a.txt", root));
        }
        _ => panic!("resources are copied in order"),
    }
    match &plan[5] {
        PlanStep::CopyFile { src, dest } => {
            assert_eq!(src.as_str(), "assets/b/c.txt");
            assert_eq!(dest, &format!("{}/Contents/Resources/b/c.txt", root));
        }
        _ => panic!("resources are copied in order"),
    }
    match &plan[6] {
        PlanStep::CreateDir { path } => assert_eq!(path, &format!("{}/Contents/MacOS", root)),
        _ => panic!("the executable directory comes last"),
    }
    match &plan[7] {
        PlanStep::CopyFile { src, dest } => {
            assert_eq!(src.as_str(), "target/example");
            assert_eq!(dest, &format!("{}/Contents/MacOS/example", root));
        }
        _ => panic!("the executable is copied last"),
    }
}

#[test]
fn native_icon_copied_verbatim_under_its_name() {
    let plan = assemble_plan(
        &meta(),
        "/tmp/out",
        false,
        IconResolution::Native {
            src: String::from("art/pack.icns"),
            file_name: String::from("pack.icns"),
        },
        &Vec::new(),
        "target/example",
    );
    let root = "/tmp/out/bundle/osx/Example.app";
    match &plan[2] {
        PlanStep::CopyFile { src, dest } => {
            assert_eq!(src.as_str(), "art/pack.icns");
            assert_eq!(dest, &format!("{}/Contents/Resources/pack.icns", root));
        }
        _ => panic!("the native container is copied verbatim"),
    }
    match &plan[3] {
        PlanStep::WriteText { text, .. } => {
            assert!(text.contains("<key>CFBundleIconFile</key>\n  <string>pack.icns</string>"));
        }
        _ => panic!("the descriptor references the native file by name"),
    }
}
