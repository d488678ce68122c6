use crate::config::ConfigError;
use crate::path::{join, joined};
use vstd::prelude::*;

verus! {

/// Where the toolchain and the core sources lie under an Arduino home.
pub struct Toolchain {
    /// `<home>/packaged/arduino`
    pub package: String,
    /// `<package>/tools/avr-gcc/<version>`
    pub gcc_home: String,
    /// `<gcc_home>/bin/avr-gcc`
    pub gcc_bin: String,
    /// `<package>/hardware/avr/<core version>`
    pub core_path: String,
}

pub open spec fn package_of(home: Seq<char>) -> Seq<char> {
    joined(joined(home, "packaged"@), "arduino"@)
}

pub open spec fn gcc_home_of(home: Seq<char>, gcc_version: Seq<char>) -> Seq<char> {
    joined(joined(joined(package_of(home), "tools"@), "avr-gcc"@), gcc_version)
}

pub open spec fn gcc_bin_of(home: Seq<char>, gcc_version: Seq<char>) -> Seq<char> {
    joined(joined(gcc_home_of(home, gcc_version), "bin"@), "avr-gcc"@)
}

pub open spec fn core_path_of(home: Seq<char>, core_version: Seq<char>) -> Seq<char> {
    joined(joined(joined(package_of(home), "hardware"@), "avr"@), core_version)
}

impl Toolchain {
    pub open spec fn located(
        &self,
        home: Seq<char>,
        gcc_version: Seq<char>,
        core_version: Seq<char>,
    ) -> bool {
        &&& self.package@ == package_of(home)
        &&& self.gcc_home@ == gcc_home_of(home, gcc_version)
        &&& self.gcc_bin@ == gcc_bin_of(home, gcc_version)
        &&& self.core_path@ == core_path_of(home, core_version)
    }

    /// Derives the toolchain's paths from the Arduino home and the versions.
    pub fn locate(arduino_home: &str, avr_gcc_version: &str, core_version: &str) -> (t: Toolchain)
        ensures
            t.located(arduino_home@, avr_gcc_version@, core_version@),
    {
        let package = join(join(arduino_home, "packaged").as_str(), "arduino");
        let tools = join(join(package.as_str(), "tools").as_str(), "avr-gcc");
        let gcc_home = join(tools.as_str(), avr_gcc_version);
        let gcc_bin = join(join(gcc_home.as_str(), "bin").as_str(), "avr-gcc");
        let hardware = join(join(package.as_str(), "hardware").as_str(), "avr");
        let core_path = join(hardware.as_str(), core_version);
        Toolchain { package, gcc_home, gcc_bin, core_path }
    }
}

/// The views of a list of names.
pub open spec fn names_of(v: Seq<String>) -> Seq<Seq<char>> {
    v.map_values(|s: String| s@)
}

/// Where a library with these children keeps its sources: `None` where the
/// layout is ambiguous.
pub open spec fn root_of(base: Seq<char>, children: Seq<Seq<char>>) -> Option<Seq<char>> {
    let has_src = children.contains("src"@);
    let has_utility = children.contains("utility"@);
    if has_src && has_utility {
        None
    } else if has_src {
        Some(joined(base, "src"@))
    } else if has_utility {
        Some(joined(base, "utility"@))
    } else {
        Some(base)
    }
}

/// Whether `name` is among `children`.
fn contains_name(children: &Vec<String>, name: &str) -> (r: bool)
    ensures
        r == names_of(children@).contains(name@),
{
    let target = String::from_str(name);
    let mut i: usize = 0;
    while i < children.len()
        invariant
            i <= children@.len(),
            target@ == name@,
            forall|j: int| 0 <= j < i ==> children@[j]@ != name@,
        decreases children@.len() - i,
    {
        if children[i] == target {
            assert(names_of(children@)[i as int] == name@);
            return true;
        }
        i = i + 1;
    }
    proof {
        if names_of(children@).contains(name@) {
            let j = choose|j: int| 0 <= j < names_of(children@).len() && names_of(children@)[j] == name@;
            assert(children@[j]@ == name@);
        }
    }
    false
}

/// The source root of the library whose directory is `base` and whose
/// immediate children have the names `children`: `<base>/src` where only
/// `src` is there, `<base>/utility` where only `utility` is, `base` itself
/// where neither is, and an error naming `base` where both are.
pub fn src_root(base: &str, children: &Vec<String>) -> (r: Result<String, ConfigError>)
    ensures
        root_of(base@, names_of(children@)) is None ==> (r matches Err(ConfigError::MalformedLib(m))
            && m@ == base@),
        root_of(base@, names_of(children@)) matches Some(p) ==> (r matches Ok(s) && s@ == p),
{
    let has_src = contains_name(children, "src");
    let has_utility = contains_name(children, "utility");
    if has_src && has_utility {
        Err(ConfigError::MalformedLib(String::from_str(base)))
    } else if has_src {
        Ok(join(base, "src"))
    } else if has_utility {
        Ok(join(base, "utility"))
    } else {
        Ok(String::from_str(base))
    }
}

} // verus!
