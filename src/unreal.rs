//! What a project is made of: modules, plugins and build targets.
use crate::path::FsPath;
use crate::text::{cat, owned, to_upper, upper_of};
use vstd::string::*;
use vstd::prelude::*;

verus! {

/// Where a module lives.
#[derive(Debug, Clone, Copy, PartialEq, Eq, Structural)]
pub enum ModuleType {
    Project,
    Plugin,
}

/// A code module.
#[derive(Debug, Clone, PartialEq, Eq)]
pub struct Module {
    /// The name of the module.
    pub name: String,
    /// The root directory of the module.
    pub root: FsPath,
    /// Whether the module belongs to the project or to a plugin.
    pub module_type: ModuleType,
    /// The plugin that hosts the module, for plugin modules.
    pub plugin: Option<Plugin>,
}

/// A plugin.
#[derive(Debug, Clone, PartialEq, Eq)]
pub struct Plugin {
    /// The name of the plugin.
    pub name: String,
    /// The root directory of the plugin.
    pub root: FsPath,
}

/// A build target.
#[derive(Debug, Clone, PartialEq, Eq)]
pub struct Target {
    /// The name of the target.
    pub name: String,
    /// The target file.
    pub path: FsPath,
}

/// The names of a sequence of modules.
pub open spec fn module_names(v: Seq<Module>) -> Seq<Seq<char>> {
    v.map_values(|m: Module| m.name@)
}

/// The names of a sequence of plugins.
pub open spec fn plugin_names(v: Seq<Plugin>) -> Seq<Seq<char>> {
    v.map_values(|p: Plugin| p.name@)
}

/// The names of a sequence of targets.
pub open spec fn target_names(v: Seq<Target>) -> Seq<Seq<char>> {
    v.map_values(|t: Target| t.name@)
}

impl Module {
    /// The name shown for this module.
    pub fn describe(&self) -> (r: String)
        ensures
            r@ == self.name@,
    {
        self.name.clone()
    }
}

impl Plugin {
    /// The name shown for this plugin.
    pub fn describe(&self) -> (r: String)
        ensures
            r@ == self.name@,
    {
        self.name.clone()
    }
}

impl Target {
    /// The name shown for this target.
    pub fn describe(&self) -> (r: String)
        ensures
            r@ == self.name@,
    {
        self.name.clone()
    }
}

/// The name of the target whose file is named `file_name`: the file name
/// without its `.Target.cs` suffix; `None` when it has no such suffix.
pub fn target_name_of(file_name: &str) -> (r: Option<String>)
    ensures
        r is Some <==> file_name@.len() >= 10 && file_name@.skip(file_name@.len() - 10)
            == ".Target.cs"@,
        r is Some ==> r->Some_0@ == file_name@.take(file_name@.len() - 10),
{
    proof {
        reveal_strlit(".Target.cs");
    }
    let suffix = ".Target.cs";
    let n = file_name.unicode_len();
    if n < 10 {
        return None;
    }
    let start = n - 10;
    let mut i: usize = 0;
    while i < 10
        invariant
            n == file_name@.len(),
            start == n - 10,
            i <= 10,
            suffix@ == ".Target.cs"@,
            suffix@.len() == 10,
            forall|j: int| 0 <= j < i ==> file_name@[start + j] == suffix@[j],
        decreases 10 - i,
    {
        if file_name.get_char(start + i) != suffix.get_char(i) {
            assert(file_name@.skip(start as int)[i as int] != ".Target.cs"@[i as int]);
            return None;
        }
        i = i + 1;
    }
    assert(file_name@.skip(start as int) =~= ".Target.cs"@);
    Some(file_name.substring_char(0, start).to_owned())
}

/// The export macro of the module `name`: its name in uppercase followed
/// by `_API`.
pub fn export_macro_of(name: &str) -> (r: String)
    ensures
        r@ == upper_of(name@) + "_API"@,
{
    cat(to_upper(name).as_str(), "_API")
}

/// Whether `name` is among `names`.
pub fn contains_name(names: &Vec<String>, name: &str) -> (r: bool)
    ensures
        r == names@.map_values(|s: String| s@).contains(name@),
{
    let ghost ns = names@.map_values(|s: String| s@);
    let wanted = owned(name);
    let mut i: usize = 0;
    while i < names.len()
        invariant
            i <= names@.len(),
            ns == names@.map_values(|s: String| s@),
            wanted@ == name@,
            forall|j: int| 0 <= j < i ==> ns[j] != name@,
        decreases names@.len() - i,
    {
        if names[i] == wanted {
            assert(ns[i as int] == name@);
            return true;
        }
        i = i + 1;
    }
    assert forall|x: Seq<char>| ns.contains(x) implies x != name@ by {
        let j = choose|j: int| 0 <= j < ns.len() && ns[j] == x;
    }
    false
}

} // verus!
