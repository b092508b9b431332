//! Script registry: named scripts that players can store and run.

use vstd::prelude::*;
use vstd::hash_map::StringHashMap;

verus! {

/// A stored script.
pub struct Script {
    pub code: String,
}

/// Registry of scripts by name.
pub struct ScriptManager {
    scripts: StringHashMap<Script>,
}

impl ScriptManager {
    /// The stored scripts, by name.
    pub closed spec fn spec_scripts(&self) -> Map<Seq<char>, Script> {
        self.scripts@
    }

    /// Create an empty registry.
    pub fn new() -> (r: Self)
        ensures
            r.spec_scripts() == Map::<Seq<char>, Script>::empty(),
    {
        ScriptManager { scripts: StringHashMap::new() }
    }

    /// Store a script under a name, replacing any previous one.
    pub fn add_script(&mut self, name: String, code: String)
        ensures
            final(self).spec_scripts().contains_key(name@),
            final(self).spec_scripts()[name@].code == code,
            forall|k: Seq<char>| #[trigger] final(self).spec_scripts().contains_key(k) <==> (
                old(self).spec_scripts().contains_key(k) || k == name@),
            forall|k: Seq<char>|
                old(self).spec_scripts().contains_key(k) && k != name@ ==> #[trigger] final(self).spec_scripts()[k] == old(self).spec_scripts()[k],
    {
        let script = Script { code };
        self.scripts.insert(name, script);
    }

    /// Look up a script by name.
    pub fn get_script(&self, name: &str) -> (r: Option<&Script>)
        ensures
            match r {
                Some(s) => self.spec_scripts().contains_key(name@) && *s == self.spec_scripts()[
                    name@
                ],
                None => !self.spec_scripts().contains_key(name@),
            },
    {
        self.scripts.get(name)
    }
}

} // verus!
