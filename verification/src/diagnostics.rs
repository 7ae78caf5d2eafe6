//! The resource-access report: a diagnostic text the shell can request,
//! describing where the installer artifact was looked for and what exists.
//! The caller gathers the filesystem observations into a snapshot; the
//! report derives every candidate path from the binary's directory and
//! renders one line per probe, nesting deeper only where a directory was
//! seen to exist.

use vstd::prelude::*;
use crate::paths::{joined, spec_colocated_installer, spec_resources_dir};

verus! {

/// The filesystem observations the report is rendered from. The nested
/// findings are meaningful only when each enclosing directory exists; the
/// report ignores them otherwise.
pub struct ResourceProbe {
    /// The application binary's own path.
    pub exe_path: String,
    /// The directory holding the binary.
    pub exe_dir: String,
    /// Whether `<exe-dir>\resources` exists.
    pub resources_dir_exists: bool,
    /// The names of the entries found in the resources directory.
    pub resource_entries: Vec<String>,
    /// Whether `<exe-dir>\resources\api` exists.
    pub api_dir_exists: bool,
    /// Whether `<exe-dir>\resources\api\installer` exists.
    pub installer_dir_exists: bool,
    /// Whether `<exe-dir>\resources\api\installer\dist` exists.
    pub dist_dir_exists: bool,
    /// Whether the installer artifact exists under the dist directory.
    pub bundled_installer_exists: bool,
    /// Whether the installer artifact exists beside the binary.
    pub colocated_installer_exists: bool,
}

/// `true` or `false`, as printed in the report.
pub open spec fn bool_text(b: bool) -> Seq<char> {
    if b {
        "true"@
    } else {
        "false"@
    }
}

/// One probe line: the label, the probed path, and whether it exists.
pub open spec fn probe_line(label: Seq<char>, path: Seq<char>, exists: bool) -> Seq<char> {
    label + path + " (exists: "@ + bool_text(exists) + ")\n"@
}

/// The listing of the first `n` directory entries, one indented line each.
pub open spec fn entries_listing(entries: Seq<String>, n: int) -> Seq<char>
    decreases n,
{
    if n <= 0 {
        Seq::<char>::empty()
    } else {
        entries_listing(entries, n - 1) + "  - "@ + entries[n - 1]@ + "\n"@
    }
}

/// The lines describing the resources directory's contents and the nested
/// installer-artifact location, rendered only when the directory exists.
pub open spec fn resources_section(p: ResourceProbe) -> Seq<char> {
    "Files in resources directory:\n"@ + entries_listing(
        p.resource_entries@,
        p.resource_entries@.len() as int,
    ) + probe_line(
        "API dir: "@,
        joined(spec_resources_dir(p.exe_dir@), "api"@),
        p.api_dir_exists,
    ) + if p.api_dir_exists {
        installer_section(p)
    } else {
        Seq::<char>::empty()
    }
}

/// The lines describing the nested installer directories, rendered only
/// while each enclosing directory exists.
pub open spec fn installer_section(p: ResourceProbe) -> Seq<char> {
    probe_line(
        "Installer dir: "@,
        joined(joined(spec_resources_dir(p.exe_dir@), "api"@), "installer"@),
        p.installer_dir_exists,
    ) + if p.installer_dir_exists {
        dist_section(p)
    } else {
        Seq::<char>::empty()
    }
}

/// The lines describing the dist directory and the bundled artifact.
pub open spec fn dist_section(p: ResourceProbe) -> Seq<char> {
    probe_line(
        "Dist dir: "@,
        joined(joined(joined(spec_resources_dir(p.exe_dir@), "api"@), "installer"@), "dist"@),
        p.dist_dir_exists,
    ) + if p.dist_dir_exists {
        probe_line(
            "Installer exe: "@,
            joined(
                joined(
                    joined(joined(spec_resources_dir(p.exe_dir@), "api"@), "installer"@),
                    "dist"@,
                ),
                "setup_installer.exe"@,
            ),
            p.bundled_installer_exists,
        )
    } else {
        Seq::<char>::empty()
    }
}

/// The whole report.
pub open spec fn report_text(p: ResourceProbe) -> Seq<char> {
    "Exe path: "@ + p.exe_path@ + "\n"@ + "Exe dir: "@ + p.exe_dir@ + "\n"@ + probe_line(
        "Resources dir: "@,
        spec_resources_dir(p.exe_dir@),
        p.resources_dir_exists,
    ) + (if p.resources_dir_exists {
        resources_section(p)
    } else {
        Seq::<char>::empty()
    }) + "\n=== NEW APPROACH: Installer in exe directory ===\n"@ + probe_line(
        "Installer in exe dir: "@,
        spec_colocated_installer(p.exe_dir@),
        p.colocated_installer_exists,
    )
}

/// Renders `true` or `false`.
fn bool_str(b: bool) -> (r: &'static str)
    ensures
        r@ == bool_text(b),
{
    if b {
        "true"
    } else {
        "false"
    }
}

/// Renders one probe line.
fn render_probe_line(label: &str, path: &str, exists: bool) -> (r: String)
    ensures
        r@ == probe_line(label@, path@, exists),
{
    let mut s = String::from_str(label);
    s.append(path);
    s.append(" (exists: ");
    s.append(bool_str(exists));
    s.append(")\n");
    s
}

/// Renders the directory-entry listing, one indented line per entry, in the
/// order the entries were observed.
fn render_entries(entries: &Vec<String>) -> (r: String)
    ensures
        r@ == entries_listing(entries@, entries@.len() as int),
{
    let mut s = String::new();
    let mut idx: usize = 0;
    while idx < entries.len()
        invariant
            idx <= entries@.len(),
            s@ == entries_listing(entries@, idx as int),
        decreases entries@.len() - idx,
    {
        s.append("  - ");
        s.append(entries[idx].as_str());
        s.append("\n");
        idx = idx + 1;
    }
    s
}

/// Renders the dist-directory lines of the report.
fn render_dist_section(p: &ResourceProbe) -> (r: String)
    ensures
        r@ == dist_section(*p),
{
    let resources_dir = crate::paths::resources_dir_path(p.exe_dir.as_str());
    let api_dir = crate::paths::join_path(resources_dir.as_str(), "api");
    let installer_dir = crate::paths::join_path(api_dir.as_str(), "installer");
    let dist_dir = crate::paths::join_path(installer_dir.as_str(), "dist");
    let bundled_exe = crate::paths::join_path(dist_dir.as_str(), "setup_installer.exe");
    let mut s = render_probe_line("Dist dir: ", dist_dir.as_str(), p.dist_dir_exists);
    if p.dist_dir_exists {
        let exe_line = render_probe_line(
            "Installer exe: ",
            bundled_exe.as_str(),
            p.bundled_installer_exists,
        );
        s.append(exe_line.as_str());
    }
    proof {
        assert(s@ =~= dist_section(*p));
    }
    s
}

/// Renders the installer-directory lines of the report.
fn render_installer_section(p: &ResourceProbe) -> (r: String)
    ensures
        r@ == installer_section(*p),
{
    let resources_dir = crate::paths::resources_dir_path(p.exe_dir.as_str());
    let api_dir = crate::paths::join_path(resources_dir.as_str(), "api");
    let installer_dir = crate::paths::join_path(api_dir.as_str(), "installer");
    let mut s = render_probe_line(
        "Installer dir: ",
        installer_dir.as_str(),
        p.installer_dir_exists,
    );
    if p.installer_dir_exists {
        let dist = render_dist_section(p);
        s.append(dist.as_str());
    }
    proof {
        assert(s@ =~= installer_section(*p));
    }
    s
}

/// Renders the resources-directory lines of the report.
fn render_resources_section(p: &ResourceProbe) -> (r: String)
    ensures
        r@ == resources_section(*p),
{
    let resources_dir = crate::paths::resources_dir_path(p.exe_dir.as_str());
    let api_dir = crate::paths::join_path(resources_dir.as_str(), "api");
    let mut s = String::from_str("Files in resources directory:\n");
    let listing = render_entries(&p.resource_entries);
    s.append(listing.as_str());
    let api_line = render_probe_line("API dir: ", api_dir.as_str(), p.api_dir_exists);
    s.append(api_line.as_str());
    if p.api_dir_exists {
        let installer = render_installer_section(p);
        s.append(installer.as_str());
    }
    proof {
        assert(s@ =~= resources_section(*p));
    }
    s
}

/// Renders the resource-access report from one probe snapshot.
pub fn resource_report(p: &ResourceProbe) -> (r: String)
    ensures
        r@ == report_text(*p),
{
    let resources_dir = crate::paths::resources_dir_path(p.exe_dir.as_str());
    let colocated = crate::paths::colocated_installer_path(p.exe_dir.as_str());

    let mut s = String::from_str("Exe path: ");
    s.append(p.exe_path.as_str());
    s.append("\n");
    s.append("Exe dir: ");
    s.append(p.exe_dir.as_str());
    s.append("\n");
    let resources_line = render_probe_line(
        "Resources dir: ",
        resources_dir.as_str(),
        p.resources_dir_exists,
    );
    s.append(resources_line.as_str());
    if p.resources_dir_exists {
        let section = render_resources_section(p);
        s.append(section.as_str());
    }
    s.append("\n=== NEW APPROACH: Installer in exe directory ===\n");
    let colocated_line = render_probe_line(
        "Installer in exe dir: ",
        colocated.as_str(),
        p.colocated_installer_exists,
    );
    s.append(colocated_line.as_str());
    proof {
        assert(s@ =~= report_text(*p));
    }
    s
}

} // verus!
