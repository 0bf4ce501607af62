//! The bundle's metadata descriptor: a fixed-schema key/value document whose
//! exact text is computed here and written out by the caller.

use vstd::prelude::*;
use vstd::string::StringExecFns;

verus! {

/// What the descriptor says about a bundle.  The icon file reference is
/// separate, since it is resolved by the icon pipeline.
pub struct BundleMeta {
    /// Display name of the bundle; also names the `.app` directory.
    pub bundle_name: String,
    /// Name of the executable inside the bundle.
    pub binary_name: String,
    /// Reverse-domain identifier of the bundle.
    pub identifier: String,
    /// Version string of the bundle.
    pub version: String,
    /// Optional human-readable copyright line.
    pub copyright: Option<String>,
}

/// The document's fixed opening: XML and document-type preamble and the
/// opening of the single dictionary, with the fixed development region.
pub open spec fn descriptor_header() -> Seq<char> {
    "<?xml version=\"1.0\" encoding=\"UTF-8\"?>\n<!DOCTYPE plist PUBLIC \"-//Apple Computer//DTD PLIST 1.0//EN\" \"http://www.apple.com/DTDs/PropertyList-1.0.dtd\">\n<plist version=\"1.0\">\n<dict>\n"@
        + "  <key>CFBundleDevelopmentRegion</key>\n  <string>English</string>\n"@
}

/// One string-valued entry: the opening fragment (key and opening tag), the
/// value, and the closing tag.
pub open spec fn string_entry(opening: Seq<char>, value: Seq<char>) -> Seq<char> {
    opening + value + "</string>\n"@
}

/// The document's fixed closing: the three capability flags, then the end of
/// the dictionary and of the document.
pub open spec fn descriptor_flags() -> Seq<char> {
    "  <key>CSResourcesFileMapped</key>\n  <true/>\n  <key>LSRequiresCarbon</key>\n  <true/>\n  <key>NSHighResolutionCapable</key>\n  <true/>\n"@
}

/// The whole descriptor text for the given fields.  An absent icon file or
/// copyright contributes nothing: the corresponding key does not appear.
pub open spec fn descriptor_text(
    name: Seq<char>,
    binary: Seq<char>,
    icon: Option<Seq<char>>,
    identifier: Seq<char>,
    version: Seq<char>,
    copyright: Option<Seq<char>>,
) -> Seq<char> {
    descriptor_header() + string_entry("  <key>CFBundleDisplayName</key>\n  <string>"@, name)
        + string_entry("  <key>CFBundleExecutable</key>\n  <string>"@, binary) + (match icon {
        Some(ic) => string_entry("  <key>CFBundleIconFile</key>\n  <string>"@, ic),
        None => Seq::<char>::empty(),
    }) + string_entry("  <key>CFBundleIdentifier</key>\n  <string>"@, identifier)
        + "  <key>CFBundleInfoDictionaryVersion</key>\n  <string>6.0</string>\n"@ + string_entry(
        "  <key>CFBundleName</key>\n  <string>"@,
        name,
    ) + "  <key>CFBundlePackageType</key>\n  <string>APPL</string>\n"@ + string_entry(
        "  <key>CFBundleVersion</key>\n  <string>"@,
        version,
    ) + descriptor_flags() + (match copyright {
        Some(c) => string_entry("  <key>NSHumanReadableCopyright</key>\n  <string>"@, c),
        None => Seq::<char>::empty(),
    }) + "</dict>\n</plist>\n"@
}

/// The icon file reference the descriptor text carries for the given fields.
pub open spec fn icon_view(icon_file: Option<String>) -> Option<Seq<char>> {
    match icon_file {
        Some(p) => Some(p@),
        None => None,
    }
}

/// The copyright line the descriptor text carries for the given fields.
pub open spec fn copyright_view(copyright: Option<String>) -> Option<Seq<char>> {
    match copyright {
        Some(c) => Some(c@),
        None => None,
    }
}

/// Builds the descriptor document for a bundle, referencing the icon file —
/// by bare file name, never a path — only when one was produced.
pub fn descriptor_content(meta: &BundleMeta, icon_file: &Option<String>) -> (r: String)
    ensures
        r@ == descriptor_text(
            meta.bundle_name@,
            meta.binary_name@,
            icon_view(*icon_file),
            meta.identifier@,
            meta.version@,
            copyright_view(meta.copyright),
        ),
{
    let mut s = String::new();
    s.append(
        "<?xml version=\"1.0\" encoding=\"UTF-8\"?>\n<!DOCTYPE plist PUBLIC \"-//Apple Computer//DTD PLIST 1.0//EN\" \"http://www.apple.com/DTDs/PropertyList-1.0.dtd\">\n<plist version=\"1.0\">\n<dict>\n",
    );
    s.append("  <key>CFBundleDevelopmentRegion</key>\n  <string>English</string>\n");
    s.append("  <key>CFBundleDisplayName</key>\n  <string>");
    s.append(meta.bundle_name.as_str());
    s.append("</string>\n");
    s.append("  <key>CFBundleExecutable</key>\n  <string>");
    s.append(meta.binary_name.as_str());
    s.append("</string>\n");
    match icon_file {
        Some(icon) => {
            s.append("  <key>CFBundleIconFile</key>\n  <string>");
            s.append(icon.as_str());
            s.append("</string>\n");
        },
        None => {},
    }
    s.append("  <key>CFBundleIdentifier</key>\n  <string>");
    s.append(meta.identifier.as_str());
    s.append("</string>\n");
    s.append("  <key>CFBundleInfoDictionaryVersion</key>\n  <string>6.0</string>\n");
    s.append("  <key>CFBundleName</key>\n  <string>");
    s.append(meta.bundle_name.as_str());
    s.append("</string>\n");
    s.append("  <key>CFBundlePackageType</key>\n  <string>APPL</string>\n");
    s.append("  <key>CFBundleVersion</key>\n  <string>");
    s.append(meta.version.as_str());
    s.append("</string>\n");
    s.append("  <key>CSResourcesFileMapped</key>\n  <true/>\n  <key>LSRequiresCarbon</key>\n  <true/>\n  <key>NSHighResolutionCapable</key>\n  <true/>\n");
    match &meta.copyright {
        Some(c) => {
            s.append("  <key>NSHumanReadableCopyright</key>\n  <string>");
            s.append(c.as_str());
            s.append("</string>\n");
        },
        None => {},
    }
    s.append("</dict>\n</plist>\n");
    proof {
        assert(s@ =~= descriptor_text(
            meta.bundle_name@,
            meta.binary_name@,
            icon_view(*icon_file),
            meta.identifier@,
            meta.version@,
            copyright_view(meta.copyright),
        ));
    }
    s
}

} // verus!
