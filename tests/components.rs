use arduino_config::config::ConfigError;
use arduino_config::discovery::{keep_sources, search_pattern};
use arduino_config::layout::{src_root, Toolchain};
use arduino_config::path::{ends_in_entry_point, join};

fn names(v: &[&str]) -> Vec<String> {
    v.iter().map(|s| s.to_string()).collect()
}

#[test]
fn join_inserts_one_separator() {
    assert_eq!(join("/home/u", "Arduino"), "/home/u/Arduino");
    assert_eq!(join("", "lib"), "/lib");
}

#[test]
fn entry_point_is_recognised_by_last_segment() {
    assert!(ends_in_entry_point("main.cpp"));
    assert!(ends_in_entry_point("/lib/src/main.cpp"));
    assert!(!ends_in_entry_point("/lib/src/domain.cpp"));
    assert!(!ends_in_entry_point("/lib/src/main.cpp.orig"));
    assert!(!ends_in_entry_point("/lib/main.cpp/other.cpp"));
    assert!(!ends_in_entry_point("ain.cpp"));
}

#[test]
fn root_with_src_and_utility_is_ambiguous() {
    let r = src_root("/libs/Both", &names(&["src", "utility", "README"]));
    assert_eq!(r, Err(ConfigError::MalformedLib("/libs/Both".to_string())));
}

#[test]
fn root_with_only_src() {
    let r = src_root("/libs/Wire", &names(&["src", "examples", "library.properties"]));
    assert_eq!(r, Ok("/libs/Wire/src".to_string()));
}

#[test]
fn root_with_only_utility() {
    let r = src_root("/libs/Servo", &names(&["utility", "Servo.h"]));
    assert_eq!(r, Ok("/libs/Servo/utility".to_string()));
}

#[test]
fn root_with_neither_is_the_directory() {
    let r = src_root("/ext/Foo", &names(&["Foo.h", "Foo.cpp"]));
    assert_eq!(r, Ok("/ext/Foo".to_string()));
    let empty = src_root("/ext/Empty", &Vec::new());
    assert_eq!(empty, Ok("/ext/Empty".to_string()));
}

#[test]
fn root_names_are_case_sensitive() {
    let r = src_root("/ext/Caps", &names(&["Src", "UTILITY"]));
    assert_eq!(r, Ok("/ext/Caps".to_string()));
}

#[test]
fn toolchain_paths() {
    let t = Toolchain::locate("/h", "7.3.0-atmel3.6.1-arduino7", "1.8.6");
    assert_eq!(t.package, "/h/packaged/arduino");
    assert_eq!(t.gcc_home, "/h/packaged/arduino/tools/avr-gcc/7.3.0-atmel3.6.1-arduino7");
    assert_eq!(
        t.gcc_bin,
        "/h/packaged/arduino/tools/avr-gcc/7.3.0-atmel3.6.1-arduino7/bin/avr-gcc"
    );
    assert_eq!(t.core_path, "/h/packaged/arduino/hardware/avr/1.8.6");
}

#[test]
fn search_pattern_is_recursive() {
    assert_eq!(search_pattern("/libs/Wire/src", "*.cpp"), Ok("/libs/Wire/src/**/*.cpp".to_string()));
    assert_eq!(search_pattern("/core", "*.c"), Ok("/core/**/*.c".to_string()));
}

#[test]
fn malformed_search_pattern_is_refused() {
    let r = search_pattern("/libs/bad[", "*.cpp");
    assert!(matches!(r, Err(ConfigError::GlobPatternError(_))));
    let r = search_pattern("/libs/a***b", "*.c");
    assert!(matches!(r, Err(ConfigError::GlobPatternError(_))));
}

#[test]
fn keep_sources_drops_entry_points() {
    let mut acc = names(&["/a/first.cpp"]);
    keep_sources(
        &mut acc,
        names(&["/a/main.cpp", "/a/x.cpp", "/b/sub/main.cpp", "/b/mymain.cpp", "main.cpp"]),
    );
    assert_eq!(acc, names(&["/a/first.cpp", "/a/x.cpp", "/b/mymain.cpp"]));
}
