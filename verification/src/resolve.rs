//! Root resolution: container-path translation, the memoized
//! portable-root override, and the three entry points that turn what a
//! caller knows into a full layout.

use vstd::prelude::*;
use vstd::string::StringExecFns;
use vstd::string::StrSliceExecFns;
use crate::layout::{
    is_built_from, path_equivalent, spec_dashboard_exe, user_paths_resolvable, Layout,
    LayoutOverrides, UserDirs,
};
use crate::paths::{
    join_chars, lemma_join_parent_roundtrip, parent_chars, path_join,
    path_parent, str_starts_with,
};
use crate::platform::{spec_dashboard_fname, Os};

verus! {

/// Whether the content of the container-manager marker file identifies
/// the pressure-vessel sandbox runtime: present and starting with its
/// fixed identifier. Absent or unreadable content never does.
pub open spec fn spec_container_detected(marker: Option<&str>) -> bool {
    match marker {
        Some(content) => ("pressure-vessel")@.is_prefix_of(content@),
        None => false,
    }
}

/// A host path as the pressure-vessel sandbox exposes it: the real host
/// filesystem is remapped under `/run/host`, so an absolute path gains
/// that prefix verbatim.
pub open spec fn translate_chars(p: Seq<char>) -> Seq<char> {
    if p.len() > 0 && p[0] == '/' {
        ("/run/host")@ + p
    } else {
        join_chars(("/run/host")@, p)
    }
}

/// The container-path translation: it rewrites paths only on the FHS
/// family and only when the sandbox was detected, and is the identity
/// everywhere else.
pub open spec fn spec_translate(os: Os, in_container: bool, p: Seq<char>) -> Seq<char> {
    if os.is_fhs() && in_container {
        translate_chars(p)
    } else {
        p
    }
}

/// The installation root derived from the dashboard executable's path:
/// two directory levels above it on the FHS family (the executable sits
/// in `<root>/bin/`), its immediate parent on the flat-layout family.
pub open spec fn spec_root_from_dashboard_exe(os: Os, path: Seq<char>) -> Seq<char> {
    if os.is_fhs() {
        parent_chars(parent_chars(path))
    } else {
        parent_chars(path)
    }
}

/// The installation root derived from the OpenVR driver's root
/// directory: two levels above it on the FHS family, the directory
/// itself on the flat-layout family, where the two coincide.
pub open spec fn spec_root_from_driver_root_dir(os: Os, dir: Seq<char>) -> Seq<char> {
    if os.is_fhs() {
        parent_chars(parent_chars(dir))
    } else {
        dir
    }
}

/// Rewrites a path for the pressure-vessel mount namespace, as
/// `spec_translate` states.
pub fn translate_path(os: Os, in_container: bool, path: &str) -> (r: String)
    ensures
        r@ == spec_translate(os, in_container, path@),
{
    if os == Os::Linux && in_container {
        let n = path.unicode_len();
        if n > 0 && path.get_char(0) == '/' {
            "/run/host".to_owned().concat(path)
        } else {
            path_join("/run/host", path)
        }
    } else {
        path.to_owned()
    }
}

/// The root-resolution service of one process: the platform profile, the
/// build-time configuration, the host's user directories, the memoized
/// container-detection flag and the memoized layout of a portable-root
/// override. Constructed once, then queried through the entry points.
pub struct Resolver {
    pub os: Os,
    /// The build-time portable-root override, which takes precedence
    /// over any path evidence handed to an entry point.
    pub root_override: Option<String>,
    pub overrides: LayoutOverrides,
    pub user_dirs: UserDirs,
    /// Whether the pressure-vessel sandbox was detected, computed once
    /// from the marker file's content.
    pub is_pressure_vessel: bool,
    /// The layout memoized from the portable-root override, present
    /// exactly when that override is.
    pub layout_from_env: Option<Layout>,
}

impl Resolver {
    /// The invariant of a constructed resolver: user paths resolve, and
    /// the memoized layout exists exactly when the portable-root
    /// override does, built from that root after container translation.
    pub open spec fn wf(self) -> bool {
        &&& user_paths_resolvable(self.os, self.overrides, self.user_dirs)
        &&& match self.root_override {
            Some(root) => match self.layout_from_env {
                Some(l) => is_built_from(
                    l,
                    spec_translate(self.os, self.is_pressure_vessel, root@),
                    self.os,
                    self.overrides,
                    self.user_dirs,
                ),
                None => false,
            },
            None => self.layout_from_env is None,
        }
    }

    /// What an entry point returns for a derived root: the memoized
    /// override layout when one exists — the root derived from the
    /// caller's path evidence is then ignored entirely — and otherwise a
    /// layout built from the translated root.
    pub open spec fn resolves_from_root(self, root: Seq<char>, l: Layout) -> bool {
        match self.layout_from_env {
            Some(cached) => l == cached,
            None => is_built_from(
                l,
                spec_translate(self.os, self.is_pressure_vessel, root),
                self.os,
                self.overrides,
                self.user_dirs,
            ),
        }
    }

    /// The result of `filesystem_layout_from_dashboard_exe`.
    pub open spec fn resolves_from_dashboard_exe(self, path: Seq<char>, l: Layout) -> bool {
        self.resolves_from_root(spec_root_from_dashboard_exe(self.os, path), l)
    }

    /// The result of `filesystem_layout_from_openvr_driver_root_dir`.
    pub open spec fn resolves_from_driver_root_dir(self, dir: Seq<char>, l: Layout) -> bool {
        self.resolves_from_root(spec_root_from_driver_root_dir(self.os, dir), l)
    }

    /// The result of `filesystem_layout_invalid`: the memoized override
    /// layout when one exists, else the degenerate layout of the empty
    /// root, reliable only in the fields that disregard the root.
    pub open spec fn resolves_invalid(self, l: Layout) -> bool {
        match self.layout_from_env {
            Some(cached) => l == cached,
            None => is_built_from(l, Seq::empty(), self.os, self.overrides, self.user_dirs),
        }
    }

    /// Constructs the service: detects the sandbox from the marker
    /// file's content (read once by the caller), and memoizes the layout
    /// of the portable-root override when one is supplied.
    pub fn new(
        os: Os,
        root_override: Option<String>,
        overrides: LayoutOverrides,
        user_dirs: UserDirs,
        container_marker: Option<&str>,
    ) -> (r: Resolver)
        requires
            user_paths_resolvable(os, overrides, user_dirs),
        ensures
            r.wf(),
            r.os == os,
            r.root_override == root_override,
            r.overrides == overrides,
            r.user_dirs == user_dirs,
            r.is_pressure_vessel == spec_container_detected(container_marker),
            r.layout_from_env is Some <==> root_override is Some,
    {
        let is_pressure_vessel = match container_marker {
            Some(content) => str_starts_with(content, "pressure-vessel"),
            None => false,
        };
        let layout_from_env = match &root_override {
            Some(root) => {
                let translated = translate_path(os, is_pressure_vessel, root.as_str());
                Some(Layout::new(translated.as_str(), os, &overrides, &user_dirs))
            },
            None => None,
        };
        Resolver { os, root_override, overrides, user_dirs, is_pressure_vessel, layout_from_env }
    }

    /// Rewrites a path for the sandbox's mount namespace when the
    /// process runs under pressure-vessel on the FHS family; the
    /// identity otherwise.
    pub fn pressure_vessel_path(&self, path: &str) -> (r: String)
        ensures
            r@ == spec_translate(self.os, self.is_pressure_vessel, path@),
    {
        translate_path(self.os, self.is_pressure_vessel, path)
    }

    /// The layout for a process that knows the absolute path of the
    /// running dashboard executable. The path argument is ignored when a
    /// portable-root override is set.
    pub fn filesystem_layout_from_dashboard_exe(&self, path: &str) -> (r: Layout)
        requires
            self.wf(),
        ensures
            self.resolves_from_dashboard_exe(path@, r),
    {
        match &self.layout_from_env {
            Some(cached) => cached.clone(),
            None => {
                let exe_dir = path_parent(path);
                let root = if self.os == Os::Linux {
                    path_parent(exe_dir.as_str())
                } else {
                    exe_dir
                };
                let translated = translate_path(self.os, self.is_pressure_vessel, root.as_str());
                Layout::new(translated.as_str(), self.os, &self.overrides, &self.user_dirs)
            },
        }
    }

    /// The layout for a process that knows the absolute path of the
    /// OpenVR driver's root directory. The directory argument is ignored
    /// when a portable-root override is set.
    pub fn filesystem_layout_from_openvr_driver_root_dir(&self, dir: &str) -> (r: Layout)
        requires
            self.wf(),
        ensures
            self.resolves_from_driver_root_dir(dir@, r),
    {
        match &self.layout_from_env {
            Some(cached) => cached.clone(),
            None => {
                let root = if self.os == Os::Linux {
                    let up = path_parent(dir);
                    path_parent(up.as_str())
                } else {
                    dir.to_owned()
                };
                let translated = translate_path(self.os, self.is_pressure_vessel, root.as_str());
                Layout::new(translated.as_str(), self.os, &self.overrides, &self.user_dirs)
            },
        }
    }

    /// The layout for a process with no path evidence at all: the
    /// memoized override layout when one exists, else the degenerate
    /// layout of the empty root, whose root-derived paths are invalid by
    /// construction.
    pub fn filesystem_layout_invalid(&self) -> (r: Layout)
        requires
            self.wf(),
        ensures
            self.resolves_invalid(r),
    {
        match &self.layout_from_env {
            Some(cached) => cached.clone(),
            None => {
                proof {
                    reveal_strlit("");
                    assert(("")@ =~= Seq::<char>::empty());
                }
                Layout::new("", self.os, &self.overrides, &self.user_dirs)
            },
        }
    }
}

/// Resolution is idempotent: two calls of the dashboard-executable entry
/// point with the same resolver and the same path yield path-identical
/// layouts, whether or not the memoized override was exercised.
pub proof fn lemma_from_dashboard_exe_idempotent(
    r: Resolver,
    path: Seq<char>,
    l1: Layout,
    l2: Layout,
)
    requires
        r.resolves_from_dashboard_exe(path, l1),
        r.resolves_from_dashboard_exe(path, l2),
    ensures
        path_equivalent(l1, l2),
{
}

/// Resolution is idempotent: two calls of the driver-root entry point
/// with the same resolver and the same directory yield path-identical
/// layouts.
pub proof fn lemma_from_driver_root_dir_idempotent(
    r: Resolver,
    dir: Seq<char>,
    l1: Layout,
    l2: Layout,
)
    requires
        r.resolves_from_driver_root_dir(dir, l1),
        r.resolves_from_driver_root_dir(dir, l2),
    ensures
        path_equivalent(l1, l2),
{
}

/// Resolution is idempotent: two calls of the no-evidence entry point
/// with the same resolver yield path-identical layouts.
pub proof fn lemma_invalid_idempotent(r: Resolver, l1: Layout, l2: Layout)
    requires
        r.resolves_invalid(l1),
        r.resolves_invalid(l2),
    ensures
        path_equivalent(l1, l2),
{
}

/// Override precedence: when a portable-root override is set, the two
/// path-taking entry points return the very same memoized layout for
/// arbitrary, distinct inputs — the path evidence is ignored entirely.
pub proof fn lemma_override_precedence(
    r: Resolver,
    path_a: Seq<char>,
    path_b: Seq<char>,
    l1: Layout,
    l2: Layout,
)
    requires
        r.wf(),
        r.root_override is Some,
        r.resolves_from_dashboard_exe(path_a, l1),
        r.resolves_from_driver_root_dir(path_b, l2),
    ensures
        l1 == l2,
{
}

/// Container translation: once the pressure-vessel sandbox is detected
/// on the FHS family, every absolute root path resolves to itself
/// prefixed with the sandbox's private mount point; with no detection,
/// or off that family, every path resolves to itself unchanged.
pub proof fn lemma_container_translation(os: Os, in_container: bool, p: Seq<char>)
    requires
        p.len() > 0,
        p[0] == '/',
    ensures
        os.is_fhs() && in_container ==> spec_translate(os, in_container, p) == ("/run/host")@ + p,
        !(os.is_fhs() && in_container) ==> spec_translate(os, in_container, p) == p,
{
}

/// On the flat-layout family, without a portable-root override, the
/// layout resolved from a dashboard-executable path reconstructs that
/// path exactly through its `dashboard_exe` accessor. This fails for an
/// executable directory with a redundant trailing separator (such as
/// `a//`), which root derivation normalises away.
pub proof fn lemma_dashboard_exe_roundtrip(
    r: Resolver,
    dir: Seq<char>,
    path: Seq<char>,
    l: Layout,
)
    requires
        r.wf(),
        r.root_override is None,
        !r.os.is_fhs(),
        dir.len() == 0 || dir.last() != '/' || dir =~= seq!['/'],
        path == join_chars(dir, spec_dashboard_fname(r.os)),
        r.resolves_from_dashboard_exe(path, l),
    ensures
        spec_dashboard_exe(l) == path,
{
    let fname = spec_dashboard_fname(r.os);
    reveal_strlit("ALVR Dashboard.exe");
    reveal_strlit("alvr_dashboard");
    assert(fname.len() > 0);
    assert(forall|j: int| 0 <= j < fname.len() ==> fname[j] != '/');
    lemma_join_parent_roundtrip(dir, fname);
    assert(l.executables_dir@ == parent_chars(path));
}

} // verus!
