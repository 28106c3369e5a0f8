//! Plugin metadata and the enable/disable bookkeeping of the plugin
//! registry.
//!
//! Plugin discovery and loading are an unimplemented stub in this design
//! and stay with the surrounding program; the registry state it would
//! manage — which plugin names are enabled — is kept and proved here.

use vstd::prelude::*;

use crate::config::WallpaperType;
use crate::error::AppError;
use crate::text::str_eq;

verus! {

/// Plugin metadata.
#[derive(Debug, Clone)]
pub struct PluginMetadata {
    /// Plugin name.
    pub name: String,
    /// Plugin version.
    pub version: String,
    /// Plugin author.
    pub author: String,
    /// Plugin description.
    pub description: String,
    /// Plugin homepage.
    pub homepage: Option<String>,
    /// Plugin license.
    pub license: Option<String>,
    /// Plugin dependencies.
    pub dependencies: Vec<String>,
    /// The wallpaper kinds the plugin can create.
    pub wallpaper_types: Vec<WallpaperType>,
}

/// The enabled-plugins register: an ordered list of plugin names.
pub struct PluginRegister {
    /// The names of the enabled plugins, in order of enabling.
    enabled: Vec<String>,
}

/// Whether a name stands in a name list.
pub open spec fn spec_name_enabled(names: Seq<String>, name: Seq<char>) -> bool {
    exists|i: int| 0 <= i < names.len() && names[i]@ == name
}

/// A name list with every entry under the given name removed, the others
/// kept in order.
pub open spec fn spec_without_name(names: Seq<String>, name: Seq<char>) -> Seq<String>
    decreases names.len(),
{
    if names.len() == 0 {
        Seq::empty()
    } else if names.last()@ == name {
        spec_without_name(names.drop_last(), name)
    } else {
        spec_without_name(names.drop_last(), name).push(names.last())
    }
}

impl PluginRegister {
    /// The enabled plugin names, in order.
    pub closed spec fn spec_enabled(&self) -> Seq<String> {
        self.enabled@
    }

    /// Create an empty register.
    pub fn new() -> (r: Self)
        ensures
            r.spec_enabled().len() == 0,
    {
        PluginRegister { enabled: Vec::new() }
    }

    /// Whether a plugin is enabled.
    pub fn is_enabled(&self, name: &str) -> (r: bool)
        ensures
            r == spec_name_enabled(self.spec_enabled(), name@),
    {
        let n = self.enabled.len();
        let mut i: usize = 0;
        while i < n
            invariant
                i <= n,
                n == self.enabled@.len(),
                forall|j: int| 0 <= j < i ==> self.enabled@[j]@ != name@,
            decreases n - i,
        {
            if str_eq(self.enabled[i].as_str(), name) {
                return true;
            }
            i = i + 1;
        }
        false
    }

    /// Enable a plugin. Enabling an already enabled plugin changes
    /// nothing.
    pub fn enable_plugin(&mut self, name: String) -> (r: Result<(), AppError>)
        ensures
            r is Ok,
            spec_name_enabled(old(self).spec_enabled(), name@) ==> final(self).spec_enabled()
                == old(self).spec_enabled(),
            !spec_name_enabled(old(self).spec_enabled(), name@) ==> final(self).spec_enabled()
                == old(self).spec_enabled().push(name),
    {
        if self.is_enabled(name.as_str()) {
            Ok(())
        } else {
            self.enabled.push(name);
            Ok(())
        }
    }

    /// Disable a plugin: every entry under its name leaves the register,
    /// and exactly the entries under other names survive, in order.
    pub fn disable_plugin(&mut self, name: &str) -> (r: Result<(), AppError>)
        ensures
            r is Ok,
            final(self).spec_enabled() == spec_without_name(old(self).spec_enabled(), name@),
            !spec_name_enabled(final(self).spec_enabled(), name@),
    {
        let n = self.enabled.len();
        let mut kept: Vec<String> = Vec::new();
        let mut i: usize = 0;
        proof {
            assert(self.enabled@.take(0) =~= Seq::<String>::empty());
            assert(kept@ =~= spec_without_name(self.enabled@.take(0), name@));
        }
        while i < n
            invariant
                i <= n,
                n == self.enabled@.len(),
                kept@ == spec_without_name(self.enabled@.take(i as int), name@),
            decreases n - i,
        {
            proof {
                assert(self.enabled@.take(i + 1).drop_last() =~= self.enabled@.take(i as int));
                assert(self.enabled@.take(i + 1).last() == self.enabled@[i as int]);
            }
            if !str_eq(self.enabled[i].as_str(), name) {
                kept.push(self.enabled[i].clone());
            }
            i = i + 1;
        }
        proof {
            assert(self.enabled@.take(n as int) =~= self.enabled@);
            lemma_without_name_excludes(self.enabled@, name@);
        }
        self.enabled = kept;
        Ok(())
    }

    /// The enabled plugin names, in order.
    pub fn enabled_names(&self) -> (r: Vec<String>)
        ensures
            r@.len() == self.spec_enabled().len(),
            forall|i: int| 0 <= i < r@.len() ==> (#[trigger] r@[i])@ == self.spec_enabled()[i]@,
    {
        let n = self.enabled.len();
        let mut r: Vec<String> = Vec::new();
        let mut i: usize = 0;
        while i < n
            invariant
                i <= n,
                n == self.enabled@.len(),
                r@.len() == i,
                forall|j: int| 0 <= j < i ==> (#[trigger] r@[j])@ == self.enabled@[j]@,
            decreases n - i,
        {
            r.push(self.enabled[i].clone());
            i = i + 1;
        }
        r
    }
}

/// A list with a name removed never carries that name.
proof fn lemma_without_name_excludes(names: Seq<String>, name: Seq<char>)
    ensures
        !spec_name_enabled(spec_without_name(names, name), name),
    decreases names.len(),
{
    if names.len() > 0 {
        lemma_without_name_excludes(names.drop_last(), name);
        let rest = spec_without_name(names.drop_last(), name);
        if names.last()@ != name {
            assert forall|i: int|
                0 <= i < rest.push(names.last()).len() implies rest.push(names.last())[i]@
                != name by {
                if i < rest.len() {
                    assert(rest.push(names.last())[i] == rest[i]);
                }
            }
        }
    }
}

} // verus!
