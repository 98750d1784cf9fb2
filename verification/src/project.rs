//! The project context: a snapshot of the currently loaded project's root
//! directory and its configured subdirectories.
//!
//! The context is externally owned, mutable state: the hosting environment
//! replaces it whenever a project is opened or switched. This library never
//! mutates it; each resolution call works from one consistent snapshot,
//! passed in by value or by shared reference, so a concurrent project switch
//! can never be observed half-way through a single resolution.

use vstd::prelude::*;

use crate::route::ResourceType;

verus! {

/// A loaded project: its root directory and the two configured
/// subdirectories that route captures are resolved under.
#[derive(Clone, Debug)]
pub struct ProjectContext {
    /// The project's root directory.
    pub root: String,
    /// The subdirectory of `root` holding built bundles.
    pub bundles_dir: String,
    /// The subdirectory of `root` holding the external UI files.
    pub external_ui_dir: String,
}

impl ProjectContext {
    /// The configured subdirectory that a route kind resolves under.
    pub open spec fn spec_subdir_for(self, kind: ResourceType) -> Seq<char> {
        match kind {
            ResourceType::Bundle => self.bundles_dir@,
            ResourceType::External => self.external_ui_dir@,
        }
    }

    pub fn new(root: String, bundles_dir: String, external_ui_dir: String) -> (r: ProjectContext)
        ensures
            r.root@ == root@,
            r.bundles_dir@ == bundles_dir@,
            r.external_ui_dir@ == external_ui_dir@,
    {
        ProjectContext { root, bundles_dir, external_ui_dir }
    }

    /// The root directory of the project.
    pub fn root_path(&self) -> (r: &str)
        ensures
            r@ == self.root@,
    {
        self.root.as_str()
    }

    /// The configured bundles subdirectory.
    pub fn bundles_subdir(&self) -> (r: &str)
        ensures
            r@ == self.bundles_dir@,
    {
        self.bundles_dir.as_str()
    }

    /// The configured external-UI subdirectory.
    pub fn external_ui_subdir(&self) -> (r: &str)
        ensures
            r@ == self.external_ui_dir@,
    {
        self.external_ui_dir.as_str()
    }

    /// The subdirectory selected by `kind`, as executable code.
    pub fn subdir_for(&self, kind: ResourceType) -> (r: &str)
        ensures
            r@ == self.spec_subdir_for(kind),
    {
        match kind {
            ResourceType::Bundle => self.bundles_dir.as_str(),
            ResourceType::External => self.external_ui_dir.as_str(),
        }
    }
}

} // verus!
