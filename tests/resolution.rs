use arduino_config::config::{BindgenLists, Config, ConfigError, ConfigSerialize};
use arduino_config::resolver::{Probe, Reply, Resolver, Step};
use std::collections::HashMap;

const CORE: &str = "/h/packaged/arduino/hardware/avr/1.8.6";
const GCC: &str = "/h/packaged/arduino/tools/avr-gcc/7.3.0";

/// A file system made of the answers it gives.
struct FakeFs {
    existing: Vec<String>,
    listings: HashMap<String, Result<Vec<String>, String>>,
    matches: HashMap<String, Result<Vec<String>, String>>,
    asked: Vec<Probe>,
}

impl FakeFs {
    fn new(existing: &[&str]) -> FakeFs {
        FakeFs {
            existing: existing.iter().map(|s| s.to_string()).collect(),
            listings: HashMap::new(),
            matches: HashMap::new(),
            asked: Vec::new(),
        }
    }

    fn dir(mut self, path: &str, children: &[&str]) -> FakeFs {
        self.listings
            .insert(path.to_string(), Ok(children.iter().map(|s| s.to_string()).collect()));
        self
    }

    fn found(mut self, pattern: &str, files: &[&str]) -> FakeFs {
        self.matches
            .insert(pattern.to_string(), Ok(files.iter().map(|s| s.to_string()).collect()));
        self
    }

    fn answer(&mut self, probe: &Probe) -> Reply {
        match probe {
            Probe::Exists(p) => Reply::Exists(self.existing.contains(p)),
            Probe::ListDir(p) => Reply::Listing(
                self.listings.get(p).cloned().unwrap_or(Err(format!("cannot read {}", p))),
            ),
            Probe::Search(p) => Reply::Matches(self.matches.get(p).cloned().unwrap_or(Ok(Vec::new()))),
        }
    }
}

fn description(arduino: &[&str], external: &[&str]) -> ConfigSerialize {
    ConfigSerialize {
        arduino_home: "/h".to_string(),
        external_libraries_home: "/ext".to_string(),
        core_version: "1.8.6".to_string(),
        variant: "eightanaloginputs".to_string(),
        avr_gcc_version: "7.3.0".to_string(),
        arduino_libraries: arduino.iter().map(|s| s.to_string()).collect(),
        external_libraries: external.iter().map(|s| s.to_string()).collect(),
        definitions: HashMap::new(),
        flags: vec!["-mmcu=atmega328p".to_string()],
        bindgen_lists: BindgenLists {
            allowlist_function: vec!["digitalWrite".to_string()],
            allowlist_type: vec![],
            blocklist_function: vec!["digitalWrite".to_string()],
            blocklist_type: vec!["Print".to_string()],
        },
    }
}

fn run(desc: ConfigSerialize, fs: &mut FakeFs) -> Result<Config, ConfigError> {
    let mut resolver = Resolver::new(desc);
    let mut step = resolver.start();
    loop {
        match step {
            Step::Probe(probe) => {
                let reply = fs.answer(&probe);
                fs.asked.push(probe);
                assert!(resolver.awaits(&reply));
                step = resolver.feed(reply);
            }
            Step::Failed(e) => return Err(e),
            Step::Resolved => return Ok(resolver.into_config()),
        }
    }
}

fn healthy_fs() -> FakeFs {
    FakeFs::new(&["/h", "/ext", "/h/packaged/arduino/tools/avr-gcc/7.3.0/bin/avr-gcc"])
}

#[test]
fn wire_library_resolves_to_src() {
    let mut fs = healthy_fs().dir(&format!("{}/libraries/Wire", CORE), &["src", "examples"]);
    let c = run(description(&["Wire"], &[]), &mut fs).unwrap();
    assert_eq!(c.includes.len(), 4);
    assert_eq!(c.includes[3], format!("{}/libraries/Wire/src", CORE));
}

#[test]
fn external_library_without_marker_is_its_own_root() {
    let mut fs = healthy_fs().dir("/ext/Foo", &["Foo.h", "Foo.cpp"]);
    let c = run(description(&[], &["Foo"]), &mut fs).unwrap();
    assert_eq!(c.includes[3], "/ext/Foo");
}

#[test]
fn include_list_order_and_length() {
    let mut fs = healthy_fs()
        .dir(&format!("{}/libraries/Wire", CORE), &["src"])
        .dir(&format!("{}/libraries/SPI", CORE), &["utility"])
        .dir("/ext/Foo", &[])
        .dir("/ext/Bar", &["src"]);
    let c = run(description(&["Wire", "SPI"], &["Foo", "Bar"]), &mut fs).unwrap();
    assert_eq!(
        c.includes,
        vec![
            format!("{}/hardware/avr/1.8.6", CORE),
            format!("{}/variants/eightanaloginputs", CORE),
            format!("{}/include", GCC),
            format!("{}/libraries/Wire/src", CORE),
            format!("{}/libraries/SPI/utility", CORE),
            "/ext/Foo".to_string(),
            "/ext/Bar/src".to_string(),
        ]
    );
    assert_eq!(c.avr_gcc, format!("{}/bin/avr-gcc", GCC));
}

#[test]
fn duplicate_library_names_are_kept() {
    let mut fs = healthy_fs().dir("/ext/Foo", &["src"]);
    let c = run(description(&[], &["Foo", "Foo"]), &mut fs).unwrap();
    assert_eq!(c.includes.len(), 5);
    assert_eq!(c.includes[3], c.includes[4]);
}

#[test]
fn ambiguous_library_fails_resolution() {
    let mut fs = healthy_fs().dir("/ext/Both", &["src", "utility"]);
    let r = run(description(&[], &["Both"]), &mut fs);
    assert_eq!(r, Err(ConfigError::MalformedLib("/ext/Both".to_string())));
    assert!(!fs.asked.iter().any(|p| matches!(p, Probe::Search(_))));
}

#[test]
fn missing_arduino_home_fails_first() {
    let mut fs = FakeFs::new(&["/ext"]);
    let r = run(description(&["Wire"], &["Foo"]), &mut fs);
    assert_eq!(r, Err(ConfigError::ArduinoHomeNoExist("/h".to_string())));
    assert_eq!(fs.asked, vec![Probe::Exists("/h".to_string())]);
}

#[test]
fn missing_external_home_fails() {
    let mut fs = FakeFs::new(&["/h"]);
    let r = run(description(&[], &[]), &mut fs);
    assert_eq!(r, Err(ConfigError::ExternalLibrariesHomeNoExist("/ext".to_string())));
}

#[test]
fn missing_toolchain_names_the_binary() {
    let mut fs = FakeFs::new(&["/h", "/ext"]);
    let r = run(description(&["Wire"], &[]), &mut fs);
    assert_eq!(r, Err(ConfigError::NoAvrGcc(format!("{}/bin/avr-gcc", GCC))));
    assert_eq!(fs.asked.len(), 3);
}

#[test]
fn unreadable_library_directory_is_a_filesystem_error() {
    let mut fs = healthy_fs();
    let r = run(description(&[], &["Missing"]), &mut fs);
    assert_eq!(r, Err(ConfigError::Io("cannot read /ext/Missing".to_string())));
}

#[test]
fn failed_search_is_an_iteration_error() {
    let mut fs = healthy_fs();
    fs.matches.insert(
        format!("{}/include/**/*.cpp", GCC),
        Err("permission denied".to_string()),
    );
    let r = run(description(&[], &[]), &mut fs);
    assert_eq!(r, Err(ConfigError::GlobIterationError("permission denied".to_string())));
}

#[test]
fn malformed_pattern_stops_discovery() {
    let mut fs = healthy_fs().dir("/ext/we[ird", &[]);
    let r = run(description(&[], &["we[ird"]), &mut fs);
    assert!(matches!(r, Err(ConfigError::GlobPatternError(_))));
}

#[test]
fn sources_are_split_and_entry_point_dropped() {
    let mut fs = healthy_fs()
        .dir("/ext/Foo", &["src"])
        .found("/ext/Foo/src/**/*.cpp", &["/ext/Foo/src/Foo.cpp", "/ext/Foo/src/main.cpp"])
        .found("/ext/Foo/src/**/*.c", &["/ext/Foo/src/util/helper.c"])
        .found(
            &format!("{}/hardware/avr/1.8.6/**/*.cpp", CORE),
            &["/core/main.cpp", "/core/WString.cpp"],
        )
        .found(&format!("{}/hardware/avr/1.8.6/**/*.c", CORE), &["/core/wiring.c"]);
    let c = run(description(&[], &["Foo"]), &mut fs).unwrap();
    assert_eq!(c.cpp_files, vec!["/core/WString.cpp".to_string(), "/ext/Foo/src/Foo.cpp".to_string()]);
    assert_eq!(c.c_files, vec!["/core/wiring.c".to_string(), "/ext/Foo/src/util/helper.c".to_string()]);
    assert_eq!(c.bindgen_lists.allowlist_function, vec!["digitalWrite".to_string()]);
    assert_eq!(c.bindgen_lists.blocklist_function, vec!["digitalWrite".to_string()]);
    assert_eq!(c.bindgen_lists.blocklist_type, vec!["Print".to_string()]);
}

#[test]
fn resolution_twice_gives_the_same_plan() {
    let make = || {
        healthy_fs()
            .dir(&format!("{}/libraries/Wire", CORE), &["src"])
            .dir("/ext/Foo", &[])
            .found("/ext/Foo/**/*.cpp", &["/ext/Foo/a.cpp", "/ext/Foo/main.cpp"])
    };
    let mut fs1 = make();
    let mut fs2 = make();
    let first = run(description(&["Wire"], &["Foo"]), &mut fs1);
    let second = run(description(&["Wire"], &["Foo"]), &mut fs2);
    assert_eq!(first, second);
    assert_eq!(fs1.asked, fs2.asked);
}

#[test]
fn unset_environment_reference_expands_to_empty() {
    let mut desc = description(&[], &[]);
    desc.arduino_home = "/base/${ARDUINO_CONFIG_TEST_UNSET_VARIABLE}/h".to_string();
    let r = Resolver::new(desc);
    assert_eq!(r.arduino_home, "/base//h");
    assert_eq!(r.toolchain.gcc_bin, "/base//h/packaged/arduino/tools/avr-gcc/7.3.0/bin/avr-gcc");
}

#[test]
fn plain_homes_are_not_changed_by_expansion() {
    let r = Resolver::new(description(&[], &[]));
    assert_eq!(r.arduino_home, "/h");
    assert_eq!(r.external_home, "/ext");
    assert_eq!(r.start(), Step::Probe(Probe::Exists("/h".to_string())));
}
