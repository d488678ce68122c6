use crate::config::ConfigError;
use crate::layout::{names_of, root_of};
use crate::path::joined;
use crate::resolver::{is_root_choice, library_dirs, same_step, Reply, Resolver, Stage, Step};
use vstd::prelude::*;

verus! {

/// Once resolution has failed, no further probe is awaited: nothing more is
/// looked at on disk.
pub proof fn lemma_failure_is_final(r: Resolver, reply: Reply)
    requires
        r.stage == Stage::Failed,
    ensures
        !r.awaits_spec(reply),
{
}

/// A missing Arduino home ends resolution with an error naming it, before
/// any toolchain or library is looked at.
pub proof fn lemma_missing_home_fails_first(r: Resolver, after: Resolver, step: Step)
    requires
        r.stage == Stage::ArduinoHome,
        r.fed(after, Reply::Exists(false), step),
    ensures
        step matches Step::Failed(ConfigError::ArduinoHomeNoExist(p)) && p@ == r.arduino_home@,
        after.stage == Stage::Failed,
        forall|reply: Reply| !after.awaits_spec(reply),
{
}

/// A missing compiler binary ends resolution with an error naming the
/// derived binary path, before any library root or source is looked for.
pub proof fn lemma_missing_compiler_fails(r: Resolver, after: Resolver, step: Step)
    requires
        r.stage == Stage::Compiler,
        r.fed(after, Reply::Exists(false), step),
    ensures
        step matches Step::Failed(ConfigError::NoAvrGcc(p)) && p@ == r.toolchain.gcc_bin@,
        after.stage == Stage::Failed,
        forall|reply: Reply| !after.awaits_spec(reply),
{
}

/// A library directory that holds both `src` and `utility` ends resolution
/// with an error naming that directory.
pub proof fn lemma_ambiguous_library_fails(
    r: Resolver,
    i: usize,
    children: Vec<String>,
    after: Resolver,
    step: Step,
)
    requires
        r.stage == Stage::Library(i),
        names_of(children@).contains("src"@),
        names_of(children@).contains("utility"@),
        r.fed(after, Reply::Listing(Ok(children)), step),
    ensures
        step matches Step::Failed(ConfigError::MalformedLib(p)) && p@ == r.libraries@[i as int]@,
        after.stage == Stage::Failed,
        forall|reply: Reply| !after.awaits_spec(reply),
{
}

/// There is one library directory per named library, bundled ones first,
/// each list in the order given.
pub proof fn lemma_library_dirs_in_order(
    core_path: Seq<char>,
    external_home: Seq<char>,
    arduino: Seq<Seq<char>>,
    external: Seq<Seq<char>>,
)
    ensures
        library_dirs(core_path, external_home, arduino, external).len() == arduino.len()
            + external.len(),
        forall|i: int|
            0 <= i < arduino.len() ==> #[trigger] library_dirs(
                core_path,
                external_home,
                arduino,
                external,
            )[i] == joined(joined(core_path, "libraries"@), arduino[i]),
        forall|i: int|
            0 <= i < external.len() ==> #[trigger] library_dirs(
                core_path,
                external_home,
                arduino,
                external,
            )[arduino.len() + i] == joined(external_home, external[i]),
{
}

/// A completed resolution holds three fixed include directories and then
/// one root per library, in the order of the libraries.
pub proof fn lemma_include_count(r: Resolver)
    requires
        r.wf(),
        r.stage == Stage::Resolved,
    ensures
        r.includes@.len() == 3 + r.libraries@.len(),
        forall|k: int|
            0 <= k < r.libraries@.len() ==> is_root_choice(
                r.libraries@[k]@,
                #[trigger] r.includes@[3 + k]@,
            ),
{
}

/// A library's root is `src` or `utility` under its directory, or the
/// directory itself, and only an ambiguous layout has none.
pub proof fn lemma_root_choices(base: Seq<char>, children: Seq<Seq<char>>)
    ensures
        root_of(base, children) is None <==> (children.contains("src"@) && children.contains(
            "utility"@,
        )),
        root_of(base, children) matches Some(p) ==> is_root_choice(base, p),
{
}

/// Resolution is a function of the description and of the answers read on
/// disk: two resolvers that agree, given the same answer, take the same next
/// step and agree afterwards. Run twice against an unchanged file system, it
/// asks the same probes and reaches the same plan.
pub proof fn lemma_resolution_repeats(
    r1: Resolver,
    r2: Resolver,
    reply: Reply,
    a1: Resolver,
    s1: Step,
    a2: Resolver,
    s2: Step,
)
    requires
        r1.wf(),
        r2.wf(),
        r1.agrees(r2),
        r1.awaits_spec(reply),
        r1.fed(a1, reply, s1),
        r1.keeps(a1),
        r2.fed(a2, reply, s2),
        r2.keeps(a2),
    ensures
        a1.agrees(a2),
        same_step(s1, s2),
{
    assert(names_of(r1.includes@).len() == r1.includes@.len());
    assert(names_of(r2.libraries@).len() == r2.libraries@.len());
    assert(names_of(a1.includes@).len() == a1.includes@.len());
    assert(names_of(a2.includes@).len() == a2.includes@.len());
    match r1.stage {
        Stage::Library(i) => {
            assert(r1.libraries@[i as int]@ == names_of(r1.libraries@)[i as int]);
            assert(r2.libraries@[i as int]@ == names_of(r2.libraries@)[i as int]);
            if i + 1 < r1.libraries@.len() {
                assert(r1.libraries@[i + 1]@ == names_of(r1.libraries@)[i + 1]);
                assert(r2.libraries@[i + 1]@ == names_of(r2.libraries@)[i + 1]);
            }
            match reply {
                Reply::Listing(Ok(children)) => {
                    if root_of(r1.libraries@[i as int]@, names_of(children@)) is Some {
                        lemma_search_repeats(a1, a2, s1, s2, true, 0);
                    }
                },
                _ => {},
            }
        },
        Stage::CppSources(j) => {
            lemma_search_repeats(a1, a2, s1, s2, true, j + 1);
        },
        Stage::CSources(j) => {
            lemma_search_repeats(a1, a2, s1, s2, false, j + 1);
        },
        Stage::Compiler => {
            if r1.libraries@.len() > 0 {
                assert(r1.libraries@[0]@ == names_of(r1.libraries@)[0]);
                assert(r2.libraries@[0]@ == names_of(r2.libraries@)[0]);
            }
            lemma_search_repeats(a1, a2, s1, s2, true, 0);
        },
        _ => {},
    }
}

proof fn lemma_search_repeats(a1: Resolver, a2: Resolver, s1: Step, s2: Step, cpp: bool, j: int)
    requires
        names_of(a1.includes@) == names_of(a2.includes@),
        a1.includes@.len() >= 3,
        0 <= j,
    ensures
        a1.search_from(s1, cpp, j) && a2.search_from(s2, cpp, j) ==> a1.stage == a2.stage
            && same_step(s1, s2),
{
    assert(names_of(a1.includes@).len() == a1.includes@.len());
    assert(names_of(a2.includes@).len() == a2.includes@.len());
    if 0 <= j < a1.includes@.len() {
        assert(a1.includes@[j]@ == names_of(a1.includes@)[j]);
        assert(a2.includes@[j]@ == names_of(a2.includes@)[j]);
    }
    assert(a1.includes@[0]@ == names_of(a1.includes@)[0]);
    assert(a2.includes@[0]@ == names_of(a2.includes@)[0]);
}

} // verus!
