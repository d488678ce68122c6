use crate::config::{BindgenLists, Config, ConfigError, ConfigSerialize};
use crate::discovery::{
    c_pattern, cpp_pattern, keep_sources, lemma_no_entry_point_kept, pattern_compiles,
    search_pattern, search_pattern_of, without_entry_points,
};
use crate::layout::{core_path_of, gcc_home_of, names_of, root_of, src_root, Toolchain};
use crate::path::{is_entry_point, join, joined};
use vstd::prelude::*;

verus! {

/// Relies on `envmnt::expand` with default options: references to
/// environment variables are replaced by their values in the process
/// environment, and an empty text is returned unchanged.
#[verifier::external_body]
fn expand_env(s: &str) -> (r: String)
    ensures
        s@.len() == 0 ==> r@.len() == 0,
{
    envmnt::expand(s, None)
}

/// A question about the file system that the resolver needs answered.
#[derive(Debug, PartialEq, Eq)]
pub enum Probe {
    /// Does this path exist?
    Exists(String),
    /// The names of the immediate children of this directory.
    ListDir(String),
    /// The paths that match this recursive pattern, in the order found.
    Search(String),
}

/// The answer to a `Probe`.
#[derive(Debug, PartialEq, Eq)]
pub enum Reply {
    /// Whether the path exists.
    Exists(bool),
    /// The child names, or the message of the failed listing.
    Listing(Result<Vec<String>, String>),
    /// The matching paths, or the message of the failed walk.
    Matches(Result<Vec<String>, String>),
}

/// What the resolver does next.
#[derive(Debug, PartialEq, Eq)]
pub enum Step {
    /// Answer this probe and feed the reply back.
    Probe(Probe),
    /// Resolution failed for good.
    Failed(ConfigError),
    /// Resolution is complete; the plan can be taken out.
    Resolved,
}

/// Where the resolver stands.
#[derive(Debug, Clone, Copy, PartialEq, Eq, Structural)]
pub enum Stage {
    /// Asking whether the Arduino home exists.
    ArduinoHome,
    /// Asking whether the external libraries home exists.
    ExternalHome,
    /// Asking whether the compiler binary exists.
    Compiler,
    /// Resolving the source root of the library at this position.
    Library(usize),
    /// Searching the include directory at this position for C++ sources.
    CppSources(usize),
    /// Searching the include directory at this position for C sources.
    CSources(usize),
    /// Done: the plan is complete.
    Resolved,
    /// Done: an error was reported.
    Failed,
}

/// The library directories, bundled ones first, each in the order named.
pub open spec fn library_dirs(
    core_path: Seq<char>,
    external_home: Seq<char>,
    arduino: Seq<Seq<char>>,
    external: Seq<Seq<char>>,
) -> Seq<Seq<char>> {
    arduino.map(|_i: int, n: Seq<char>| joined(joined(core_path, "libraries"@), n)) + external.map(
        |_i: int, n: Seq<char>| joined(external_home, n),
    )
}

/// The three include directories that precede the libraries: the core
/// sources, the board variant, and the toolchain's own headers.
pub open spec fn fixed_includes(
    home: Seq<char>,
    core_version: Seq<char>,
    variant: Seq<char>,
    gcc_version: Seq<char>,
) -> Seq<Seq<char>> {
    let core = core_path_of(home, core_version);
    seq![
        joined(joined(joined(core, "hardware"@), "avr"@), core_version),
        joined(joined(core, "variants"@), variant),
        joined(gcc_home_of(home, gcc_version), "include"@),
    ]
}

pub open spec fn asks_exists(step: Step, path: Seq<char>) -> bool {
    step matches Step::Probe(Probe::Exists(p)) && p@ == path
}

pub open spec fn asks_listing(step: Step, path: Seq<char>) -> bool {
    step matches Step::Probe(Probe::ListDir(p)) && p@ == path
}

pub open spec fn asks_search(step: Step, pattern: Seq<char>) -> bool {
    step matches Step::Probe(Probe::Search(p)) && p@ == pattern
}

/// The same error, by kind and path; a refused pattern by kind alone, since
/// its message is the pattern compiler's.
pub open spec fn same_error(e: ConfigError, f: ConfigError) -> bool {
    match (e, f) {
        (ConfigError::ArduinoHomeNoExist(p), ConfigError::ArduinoHomeNoExist(q)) => p@ == q@,
        (
            ConfigError::ExternalLibrariesHomeNoExist(p),
            ConfigError::ExternalLibrariesHomeNoExist(q),
        ) => p@ == q@,
        (ConfigError::NoAvrGcc(p), ConfigError::NoAvrGcc(q)) => p@ == q@,
        (ConfigError::MalformedLib(p), ConfigError::MalformedLib(q)) => p@ == q@,
        (ConfigError::Io(p), ConfigError::Io(q)) => p@ == q@,
        (ConfigError::GlobPatternError(_), ConfigError::GlobPatternError(_)) => true,
        (ConfigError::GlobIterationError(p), ConfigError::GlobIterationError(q)) => p@ == q@,
        _ => false,
    }
}

/// The same next step: the same probe of the same path, the same error, or
/// completion in both.
pub open spec fn same_step(s: Step, t: Step) -> bool {
    match (s, t) {
        (Step::Probe(Probe::Exists(p)), Step::Probe(Probe::Exists(q))) => p@ == q@,
        (Step::Probe(Probe::ListDir(p)), Step::Probe(Probe::ListDir(q))) => p@ == q@,
        (Step::Probe(Probe::Search(p)), Step::Probe(Probe::Search(q))) => p@ == q@,
        (Step::Failed(e), Step::Failed(f)) => same_error(e, f),
        (Step::Resolved, Step::Resolved) => true,
        _ => false,
    }
}

/// The resolution of one project description, one file-system answer at a
/// time.
pub struct Resolver {
    /// The Arduino home, expanded.
    pub arduino_home: String,
    /// The external libraries home, expanded.
    pub external_home: String,
    pub toolchain: Toolchain,
    /// The directory of each named library, bundled ones first.
    pub libraries: Vec<String>,
    /// The include directories gathered so far.
    pub includes: Vec<String>,
    pub cpp_files: Vec<String>,
    pub c_files: Vec<String>,
    pub bindgen_lists: BindgenLists,
    pub stage: Stage,
}

/// Whether `p` is one of the roots that a library in `base` can have.
pub open spec fn is_root_choice(base: Seq<char>, p: Seq<char>) -> bool {
    p == joined(base, "src"@) || p == joined(base, "utility"@) || p == base
}

impl Resolver {
    /// The include directories after the three fixed ones are, for the first
    /// `n` libraries in order, a root of that library.
    pub open spec fn roots_in_order(&self, n: int) -> bool {
        forall|k: int|
            0 <= k < n ==> is_root_choice(self.libraries@[k]@, #[trigger] self.includes@[3 + k]@)
    }

    pub open spec fn wf(&self) -> bool {
        &&& self.includes@.len() >= 3
        &&& match self.stage {
            Stage::ArduinoHome => self.includes@.len() == 3,
            Stage::ExternalHome => self.includes@.len() == 3,
            Stage::Compiler => self.includes@.len() == 3,
            Stage::Library(i) => {
                &&& i < self.libraries@.len()
                &&& self.includes@.len() == 3 + i
                &&& self.roots_in_order(i as int)
            },
            Stage::CppSources(j) => {
                &&& j < self.includes@.len()
                &&& self.includes@.len() == 3 + self.libraries@.len()
                &&& self.roots_in_order(self.libraries@.len() as int)
            },
            Stage::CSources(j) => {
                &&& j < self.includes@.len()
                &&& self.includes@.len() == 3 + self.libraries@.len()
                &&& self.roots_in_order(self.libraries@.len() as int)
            },
            Stage::Resolved => {
                &&& self.includes@.len() == 3 + self.libraries@.len()
                &&& self.roots_in_order(self.libraries@.len() as int)
            },
            Stage::Failed => true,
        }
        &&& forall|i: int|
            0 <= i < self.cpp_files@.len() ==> !is_entry_point(#[trigger] self.cpp_files@[i]@)
        &&& forall|i: int|
            0 <= i < self.c_files@.len() ==> !is_entry_point(#[trigger] self.c_files@[i]@)
    }

    /// The search of include directory `j` for one kind of source has been
    /// asked for, or has failed on its pattern.
    pub open spec fn searching(&self, step: Step, cpp: bool, j: int) -> bool {
        let pattern = search_pattern_of(
            self.includes@[j]@,
            if cpp {
                cpp_pattern()
            } else {
                c_pattern()
            },
        );
        if pattern_compiles(pattern) {
            &&& self.stage == (if cpp {
                Stage::CppSources(j as usize)
            } else {
                Stage::CSources(j as usize)
            })
            &&& asks_search(step, pattern)
        } else {
            self.stage == Stage::Failed && step matches Step::Failed(ConfigError::GlobPatternError(_))
        }
    }

    /// Source discovery goes on from include directory `j`: C++ sources
    /// under every directory first, then C sources, then completion.
    pub open spec fn search_from(&self, step: Step, cpp: bool, j: int) -> bool {
        if j < self.includes@.len() {
            self.searching(step, cpp, j)
        } else if cpp {
            self.searching(step, false, 0)
        } else {
            self.stage == Stage::Resolved && step is Resolved
        }
    }


    /// A resolver for `desc`, whose two homes have been expanded into
    /// `arduino_home` and `external_home`; it has not yet asked anything.
    pub fn from_expanded(desc: ConfigSerialize, arduino_home: String, external_home: String) -> (r: Resolver)
        ensures
            r.wf(),
            r.stage == Stage::ArduinoHome,
            r.arduino_home@ == arduino_home@,
            r.external_home@ == external_home@,
            r.toolchain.located(arduino_home@, desc.avr_gcc_version@, desc.core_version@),
            names_of(r.libraries@) == library_dirs(
                core_path_of(arduino_home@, desc.core_version@),
                external_home@,
                names_of(desc.arduino_libraries@),
                names_of(desc.external_libraries@),
            ),
            names_of(r.includes@) == fixed_includes(
                arduino_home@,
                desc.core_version@,
                desc.variant@,
                desc.avr_gcc_version@,
            ),
            r.cpp_files@.len() == 0,
            r.c_files@.len() == 0,
            r.bindgen_lists == desc.bindgen_lists,
    {
        let toolchain = Toolchain::locate(
            arduino_home.as_str(),
            desc.avr_gcc_version.as_str(),
            desc.core_version.as_str(),
        );
        let mut includes: Vec<String> = Vec::new();
        includes.push(
            join(
                join(join(toolchain.core_path.as_str(), "hardware").as_str(), "avr").as_str(),
                desc.core_version.as_str(),
            ),
        );
        includes.push(
            join(join(toolchain.core_path.as_str(), "variants").as_str(), desc.variant.as_str()),
        );
        includes.push(join(toolchain.gcc_home.as_str(), "include"));
        assert(names_of(includes@) =~= fixed_includes(
            arduino_home@,
            desc.core_version@,
            desc.variant@,
            desc.avr_gcc_version@,
        ));

        let library_home = join(toolchain.core_path.as_str(), "libraries");
        let ghost arduino_names = names_of(desc.arduino_libraries@);
        let ghost external_names = names_of(desc.external_libraries@);
        let mut libraries: Vec<String> = Vec::new();
        let mut i: usize = 0;
        while i < desc.arduino_libraries.len()
            invariant
                i <= desc.arduino_libraries@.len(),
                arduino_names == names_of(desc.arduino_libraries@),
                libraries@.len() == i,
                forall|j: int|
                    0 <= j < i ==> #[trigger] libraries@[j]@ == joined(library_home@, arduino_names[j]),
            decreases desc.arduino_libraries@.len() - i,
        {
            libraries.push(join(library_home.as_str(), desc.arduino_libraries[i].as_str()));
            i = i + 1;
        }
        let n_bundled = libraries.len();
        let mut k: usize = 0;
        while k < desc.external_libraries.len()
            invariant
                k <= desc.external_libraries@.len(),
                arduino_names == names_of(desc.arduino_libraries@),
                external_names == names_of(desc.external_libraries@),
                n_bundled == arduino_names.len(),
                libraries@.len() == n_bundled + k,
                forall|j: int|
                    0 <= j < n_bundled ==> #[trigger] libraries@[j]@ == joined(library_home@, arduino_names[j]),
                forall|j: int|
                    0 <= j < k ==> #[trigger] libraries@[n_bundled + j]@ == joined(external_home@, external_names[j]),
            decreases desc.external_libraries@.len() - k,
        {
            libraries.push(join(external_home.as_str(), desc.external_libraries[k].as_str()));
            k = k + 1;
        }
        let ghost dirs = library_dirs(toolchain.core_path@, external_home@, arduino_names, external_names);
        assert forall|j: int| 0 <= j < libraries@.len() implies #[trigger] names_of(libraries@)[j] == dirs[j] by {
            if j >= n_bundled {
                assert(libraries@[n_bundled + (j - n_bundled)]@ == joined(external_home@, external_names[j - n_bundled]));
            }
        }
        assert(names_of(libraries@) =~= dirs);
        Resolver {
            arduino_home,
            external_home,
            toolchain,
            libraries,
            includes,
            cpp_files: Vec::new(),
            c_files: Vec::new(),
            bindgen_lists: desc.bindgen_lists,
            stage: Stage::ArduinoHome,
        }
    }

    /// A resolver for `desc`, with the environment references in its two
    /// homes expanded from the process environment.
    pub fn new(desc: ConfigSerialize) -> (r: Resolver)
        ensures
            r.wf(),
            r.stage == Stage::ArduinoHome,
            desc.arduino_home@.len() == 0 ==> r.arduino_home@.len() == 0,
            desc.external_libraries_home@.len() == 0 ==> r.external_home@.len() == 0,
            r.toolchain.located(r.arduino_home@, desc.avr_gcc_version@, desc.core_version@),
            names_of(r.libraries@) == library_dirs(
                core_path_of(r.arduino_home@, desc.core_version@),
                r.external_home@,
                names_of(desc.arduino_libraries@),
                names_of(desc.external_libraries@),
            ),
            names_of(r.includes@) == fixed_includes(
                r.arduino_home@,
                desc.core_version@,
                desc.variant@,
                desc.avr_gcc_version@,
            ),
            r.cpp_files@.len() == 0,
            r.c_files@.len() == 0,
            r.bindgen_lists == desc.bindgen_lists,
    {
        let arduino_home = expand_env(desc.arduino_home.as_str());
        let external_home = expand_env(desc.external_libraries_home.as_str());
        Resolver::from_expanded(desc, arduino_home, external_home)
    }

    /// The first probe: whether the Arduino home exists.
    pub fn start(&self) -> (step: Step)
        requires
            self.stage == Stage::ArduinoHome,
        ensures
            asks_exists(step, self.arduino_home@),
    {
        Step::Probe(Probe::Exists(self.arduino_home.clone()))
    }


    /// What answering the pending probe with `reply` does: `after` is the
    /// resolver afterwards and `step` what it asks next.
    pub open spec fn fed(&self, after: Resolver, reply: Reply, step: Step) -> bool {
        match self.stage {
            Stage::ArduinoHome => if reply == Reply::Exists(true) {
                after.stage == Stage::ExternalHome && asks_exists(step, self.external_home@)
            } else {
                &&& after.stage == Stage::Failed
                &&& step matches Step::Failed(ConfigError::ArduinoHomeNoExist(p)) && p@
                    == self.arduino_home@
            },
            Stage::ExternalHome => if reply == Reply::Exists(true) {
                after.stage == Stage::Compiler && asks_exists(step, self.toolchain.gcc_bin@)
            } else {
                &&& after.stage == Stage::Failed
                &&& step matches Step::Failed(ConfigError::ExternalLibrariesHomeNoExist(p)) && p@
                    == self.external_home@
            },
            Stage::Compiler => if reply == Reply::Exists(true) {
                if self.libraries@.len() > 0 {
                    after.stage == Stage::Library(0) && asks_listing(step, self.libraries@[0]@)
                } else {
                    after.search_from(step, true, 0)
                }
            } else {
                &&& after.stage == Stage::Failed
                &&& step matches Step::Failed(ConfigError::NoAvrGcc(p)) && p@ == self.toolchain.gcc_bin@
            },
            Stage::Library(i) => match reply {
                Reply::Listing(Ok(children)) => match root_of(
                    self.libraries@[i as int]@,
                    names_of(children@),
                ) {
                    Some(root) => {
                        &&& names_of(after.includes@) == names_of(self.includes@).push(root)
                        &&& if i + 1 < self.libraries@.len() {
                            after.stage == Stage::Library((i + 1) as usize) && asks_listing(
                                step,
                                self.libraries@[i + 1]@,
                            )
                        } else {
                            after.search_from(step, true, 0)
                        }
                    },
                    None => {
                        &&& after.stage == Stage::Failed
                        &&& after.includes == self.includes
                        &&& step matches Step::Failed(ConfigError::MalformedLib(p)) && p@
                            == self.libraries@[i as int]@
                    },
                },
                Reply::Listing(Err(m)) => {
                    &&& after.stage == Stage::Failed
                    &&& after.includes == self.includes
                    &&& step matches Step::Failed(ConfigError::Io(e)) && e@ == m@
                },
                _ => false,
            },
            Stage::CppSources(j) => match reply {
                Reply::Matches(Ok(found)) => {
                    &&& names_of(after.cpp_files@) == names_of(self.cpp_files@)
                        + without_entry_points(names_of(found@))
                    &&& after.search_from(step, true, j + 1)
                },
                Reply::Matches(Err(m)) => {
                    &&& after.stage == Stage::Failed
                    &&& after.cpp_files == self.cpp_files
                    &&& step matches Step::Failed(ConfigError::GlobIterationError(e)) && e@ == m@
                },
                _ => false,
            },
            Stage::CSources(j) => match reply {
                Reply::Matches(Ok(found)) => {
                    &&& names_of(after.c_files@) == names_of(self.c_files@)
                        + without_entry_points(names_of(found@))
                    &&& after.search_from(step, false, j + 1)
                },
                Reply::Matches(Err(m)) => {
                    &&& after.stage == Stage::Failed
                    &&& after.c_files == self.c_files
                    &&& step matches Step::Failed(ConfigError::GlobIterationError(e)) && e@ == m@
                },
                _ => false,
            },
            _ => false,
        }
    }

    /// What answering a probe leaves as it was: the homes, the toolchain, the
    /// library directories and the symbol lists, and each list of paths that
    /// the pending probe does not add to.
    pub open spec fn keeps(&self, after: Resolver) -> bool {
        &&& after.arduino_home == self.arduino_home
        &&& after.external_home == self.external_home
        &&& after.toolchain == self.toolchain
        &&& after.libraries == self.libraries
        &&& after.bindgen_lists == self.bindgen_lists
        &&& !(self.stage is Library) ==> after.includes == self.includes
        &&& !(self.stage is CppSources) ==> after.cpp_files == self.cpp_files
        &&& !(self.stage is CSources) ==> after.c_files == self.c_files
    }

    /// Two resolvers that stand at the same stage with the same paths.
    pub open spec fn agrees(&self, other: Resolver) -> bool {
        &&& self.stage == other.stage
        &&& self.arduino_home@ == other.arduino_home@
        &&& self.external_home@ == other.external_home@
        &&& self.toolchain.gcc_bin@ == other.toolchain.gcc_bin@
        &&& names_of(self.libraries@) == names_of(other.libraries@)
        &&& names_of(self.includes@) == names_of(other.includes@)
        &&& names_of(self.cpp_files@) == names_of(other.cpp_files@)
        &&& names_of(self.c_files@) == names_of(other.c_files@)
    }

    /// Asks for the next search, from include directory `j` on.
    fn open_search(&mut self, cpp: bool, j: usize) -> (step: Step)
        requires
            old(self).includes@.len() == 3 + old(self).libraries@.len(),
            old(self).roots_in_order(old(self).libraries@.len() as int),
            j <= old(self).includes@.len(),
            forall|i: int|
                0 <= i < old(self).cpp_files@.len() ==> !is_entry_point(
                    #[trigger] old(self).cpp_files@[i]@,
                ),
            forall|i: int|
                0 <= i < old(self).c_files@.len() ==> !is_entry_point(
                    #[trigger] old(self).c_files@[i]@,
                ),
        ensures
            final(self).wf(),
            final(self).search_from(step, cpp, j as int),
            final(self).arduino_home == old(self).arduino_home,
            final(self).external_home == old(self).external_home,
            final(self).toolchain == old(self).toolchain,
            final(self).libraries == old(self).libraries,
            final(self).includes == old(self).includes,
            final(self).cpp_files == old(self).cpp_files,
            final(self).c_files == old(self).c_files,
            final(self).bindgen_lists == old(self).bindgen_lists,
    {
        let mut kind_cpp = cpp;
        let mut pos = j;
        if j == self.includes.len() {
            if cpp {
                kind_cpp = false;
                pos = 0;
            } else {
                self.stage = Stage::Resolved;
                return Step::Resolved;
            }
        }
        let file_pattern = if kind_cpp {
            "*.cpp"
        } else {
            "*.c"
        };
        match search_pattern(self.includes[pos].as_str(), file_pattern) {
            Ok(p) => {
                self.stage = if kind_cpp {
                    Stage::CppSources(pos)
                } else {
                    Stage::CSources(pos)
                };
                Step::Probe(Probe::Search(p))
            },
            Err(e) => {
                self.stage = Stage::Failed;
                Step::Failed(e)
            },
        }
    }

    fn feed_listing(&mut self, i: usize, listing: Result<Vec<String>, String>) -> (step: Step)
        requires
            old(self).wf(),
            old(self).stage == Stage::Library(i),
        ensures
            final(self).wf(),
            old(self).fed(*final(self), Reply::Listing(listing), step),
            final(self).arduino_home == old(self).arduino_home,
            final(self).external_home == old(self).external_home,
            final(self).toolchain == old(self).toolchain,
            final(self).libraries == old(self).libraries,
            final(self).bindgen_lists == old(self).bindgen_lists,
            final(self).cpp_files == old(self).cpp_files,
            final(self).c_files == old(self).c_files,
    {
        let n = self.libraries.len();
        assert(i < n);
        match listing {
            Ok(children) => {
                match src_root(self.libraries[i].as_str(), &children) {
                    Ok(root) => {
                        let ghost before = self.includes@;
                        let ghost old_self = *self;
                        self.includes.push(root);
                        assert(names_of(self.includes@) =~= names_of(before).push(root@));
                        assert forall|k: int| 0 <= k < i + 1 implies is_root_choice(
                            self.libraries@[k]@,
                            #[trigger] self.includes@[3 + k]@,
                        ) by {
                            if k < i {
                                assert(old_self.includes@[3 + k] == self.includes@[3 + k]);
                            }
                        }
                        if i + 1 < n {
                            self.stage = Stage::Library(i + 1);
                            Step::Probe(Probe::ListDir(self.libraries[i + 1].clone()))
                        } else {
                            self.open_search(true, 0)
                        }
                    },
                    Err(e) => {
                        self.stage = Stage::Failed;
                        Step::Failed(e)
                    },
                }
            },
            Err(m) => {
                self.stage = Stage::Failed;
                Step::Failed(ConfigError::Io(m))
            },
        }
    }

    fn feed_matches(&mut self, cpp: bool, j: usize, found: Result<Vec<String>, String>) -> (step: Step)
        requires
            old(self).wf(),
            old(self).stage == (if cpp {
                Stage::CppSources(j)
            } else {
                Stage::CSources(j)
            }),
        ensures
            final(self).wf(),
            old(self).fed(*final(self), Reply::Matches(found), step),
            final(self).arduino_home == old(self).arduino_home,
            final(self).external_home == old(self).external_home,
            final(self).toolchain == old(self).toolchain,
            final(self).libraries == old(self).libraries,
            final(self).bindgen_lists == old(self).bindgen_lists,
            final(self).includes == old(self).includes,
            !cpp ==> final(self).cpp_files == old(self).cpp_files,
            cpp ==> final(self).c_files == old(self).c_files,
    {
        match found {
            Ok(found) => {
                let ghost found_names = names_of(found@);
                proof {
                    lemma_no_entry_point_kept(found_names);
                }
                let n = self.includes.len();
                assert(j < n);
                let ghost old_cpp = names_of(self.cpp_files@);
                let ghost old_c = names_of(self.c_files@);
                let ghost kept = without_entry_points(found_names);
                if cpp {
                    keep_sources(&mut self.cpp_files, found);
                    assert forall|k: int| 0 <= k < self.cpp_files@.len() implies !is_entry_point(
                        #[trigger] self.cpp_files@[k]@,
                    ) by {
                        let all = names_of(self.cpp_files@);
                        assert(all == old_cpp + kept);
                        assert(all[k] == self.cpp_files@[k]@);
                        if k >= old_cpp.len() {
                            assert(all[k] == (old_cpp + kept)[k]);
                            assert(all[k] == kept[k - old_cpp.len()]);
                        }
                    }
                } else {
                    keep_sources(&mut self.c_files, found);
                    assert forall|k: int| 0 <= k < self.c_files@.len() implies !is_entry_point(
                        #[trigger] self.c_files@[k]@,
                    ) by {
                        let all = names_of(self.c_files@);
                        assert(all == old_c + kept);
                        assert(all[k] == self.c_files@[k]@);
                        if k >= old_c.len() {
                            assert(all[k] == (old_c + kept)[k]);
                            assert(all[k] == kept[k - old_c.len()]);
                        }
                    }
                }
                self.open_search(cpp, j + 1)
            },
            Err(m) => {
                self.stage = Stage::Failed;
                Step::Failed(ConfigError::GlobIterationError(m))
            },
        }
    }

    /// Takes the answer to the pending probe and says what comes next.
    pub fn feed(&mut self, reply: Reply) -> (step: Step)
        requires
            old(self).wf(),
            old(self).awaits_spec(reply),
        ensures
            final(self).wf(),
            old(self).fed(*final(self), reply, step),
            old(self).keeps(*final(self)),
    {
        match self.stage {
            Stage::ArduinoHome => {
                if matches!(reply, Reply::Exists(true)) {
                    self.stage = Stage::ExternalHome;
                    Step::Probe(Probe::Exists(self.external_home.clone()))
                } else {
                    self.stage = Stage::Failed;
                    Step::Failed(ConfigError::ArduinoHomeNoExist(self.arduino_home.clone()))
                }
            },
            Stage::ExternalHome => {
                if matches!(reply, Reply::Exists(true)) {
                    self.stage = Stage::Compiler;
                    Step::Probe(Probe::Exists(self.toolchain.gcc_bin.clone()))
                } else {
                    self.stage = Stage::Failed;
                    Step::Failed(ConfigError::ExternalLibrariesHomeNoExist(self.external_home.clone()))
                }
            },
            Stage::Compiler => {
                if matches!(reply, Reply::Exists(true)) {
                    if self.libraries.len() > 0 {
                        self.stage = Stage::Library(0);
                        Step::Probe(Probe::ListDir(self.libraries[0].clone()))
                    } else {
                        self.open_search(true, 0)
                    }
                } else {
                    self.stage = Stage::Failed;
                    Step::Failed(ConfigError::NoAvrGcc(self.toolchain.gcc_bin.clone()))
                }
            },
            Stage::Library(i) => match reply {
                Reply::Listing(listing) => self.feed_listing(i, listing),
                _ => Step::Resolved,
            },
            Stage::CppSources(j) => match reply {
                Reply::Matches(found) => self.feed_matches(true, j, found),
                _ => Step::Resolved,
            },
            Stage::CSources(j) => match reply {
                Reply::Matches(found) => self.feed_matches(false, j, found),
                _ => Step::Resolved,
            },
            _ => Step::Resolved,
        }
    }

    /// The resolved plan, once resolution is complete.
    pub fn into_config(self) -> (c: Config)
        requires
            self.wf(),
            self.stage == Stage::Resolved,
        ensures
            c.includes == self.includes,
            c.includes@.len() == 3 + self.libraries@.len(),
            forall|k: int|
                0 <= k < self.libraries@.len() ==> is_root_choice(
                    self.libraries@[k]@,
                    #[trigger] c.includes@[3 + k]@,
                ),
            c.avr_gcc@ == self.toolchain.gcc_bin@,
            c.cpp_files == self.cpp_files,
            c.c_files == self.c_files,
            c.bindgen_lists == self.bindgen_lists,
            forall|i: int| 0 <= i < c.cpp_files@.len() ==> !is_entry_point(#[trigger] c.cpp_files@[i]@),
            forall|i: int| 0 <= i < c.c_files@.len() ==> !is_entry_point(#[trigger] c.c_files@[i]@),
    {
        Config {
            includes: self.includes,
            avr_gcc: self.toolchain.gcc_bin,
            cpp_files: self.cpp_files,
            c_files: self.c_files,
            bindgen_lists: self.bindgen_lists,
        }
    }

    /// Whether `reply` answers the probe that this resolver asked.
    pub open spec fn awaits_spec(&self, reply: Reply) -> bool {
        match self.stage {
            Stage::ArduinoHome => reply is Exists,
            Stage::ExternalHome => reply is Exists,
            Stage::Compiler => reply is Exists,
            Stage::Library(_) => reply is Listing,
            Stage::CppSources(_) => reply is Matches,
            Stage::CSources(_) => reply is Matches,
            _ => false,
        }
    }

    /// Whether `reply` answers the probe that this resolver asked.
    pub fn awaits(&self, reply: &Reply) -> (r: bool)
        ensures
            r == self.awaits_spec(*reply),
    {
        match self.stage {
            Stage::ArduinoHome | Stage::ExternalHome | Stage::Compiler => matches!(reply, Reply::Exists(_)),
            Stage::Library(_) => matches!(reply, Reply::Listing(_)),
            Stage::CppSources(_) | Stage::CSources(_) => matches!(reply, Reply::Matches(_)),
            _ => false,
        }
    }
}

} // verus!
