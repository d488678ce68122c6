use crate::config::ConfigError;
use crate::layout::names_of;
use crate::path::{ends_in_entry_point, is_entry_point, join, joined};
use vstd::prelude::*;

verus! {

/// Whether `glob` accepts this text as a pattern.
pub uninterp spec fn pattern_compiles(p: Seq<char>) -> bool;

/// Relies on `glob::Pattern::new`, which decides from the text alone whether
/// it is a well-formed pattern; on refusal, the error's text.
#[verifier::external_body]
fn compile_pattern(p: &str) -> (r: Result<(), String>)
    ensures
        r is Ok == pattern_compiles(p@),
{
    match glob::Pattern::new(p) {
        Ok(_) => Ok(()),
        Err(e) => Err(e.to_string()),
    }
}

/// The pattern that matches C++ sources.
pub open spec fn cpp_pattern() -> Seq<char> {
    "*.cpp"@
}

/// The pattern that matches C sources.
pub open spec fn c_pattern() -> Seq<char> {
    "*.c"@
}

/// The pattern that finds, at any depth below `dir`, the files whose name
/// matches `file_pattern`: `<dir>/**/<file_pattern>`.
pub open spec fn search_pattern_of(dir: Seq<char>, file_pattern: Seq<char>) -> Seq<char> {
    joined(joined(dir, "**"@), file_pattern)
}

/// Builds the recursive search pattern for `dir`, or the error for a pattern
/// that `glob` refuses.
pub fn search_pattern(dir: &str, file_pattern: &str) -> (r: Result<String, ConfigError>)
    ensures
        pattern_compiles(search_pattern_of(dir@, file_pattern@)) ==> (r matches Ok(p) && p@
            == search_pattern_of(dir@, file_pattern@)),
        !pattern_compiles(search_pattern_of(dir@, file_pattern@)) ==> (r matches Err(
            ConfigError::GlobPatternError(_),
        )),
{
    let p = join(join(dir, "**").as_str(), file_pattern);
    match compile_pattern(p.as_str()) {
        Ok(()) => Ok(p),
        Err(msg) => Err(ConfigError::GlobPatternError(msg)),
    }
}

/// The paths of `s` in order, but for those that name the sketch entry point.
pub open spec fn without_entry_points(s: Seq<Seq<char>>) -> Seq<Seq<char>>
    decreases s.len(),
{
    if s.len() == 0 {
        Seq::empty()
    } else {
        let rest = without_entry_points(s.drop_last());
        if is_entry_point(s.last()) {
            rest
        } else {
            rest.push(s.last())
        }
    }
}

/// No path that is kept names the sketch entry point, whatever the input.
pub proof fn lemma_no_entry_point_kept(s: Seq<Seq<char>>)
    ensures
        forall|i: int|
            0 <= i < without_entry_points(s).len() ==> !is_entry_point(
                #[trigger] without_entry_points(s)[i],
            ),
    decreases s.len(),
{
    if s.len() > 0 {
        let rest = without_entry_points(s.drop_last());
        lemma_no_entry_point_kept(s.drop_last());
        assert forall|i: int| 0 <= i < without_entry_points(s).len() implies !is_entry_point(
            #[trigger] without_entry_points(s)[i],
        ) by {
            if i < rest.len() {
                assert(without_entry_points(s)[i] == rest[i]);
            }
        }
    }
}

/// Appends to `acc` the paths of `found`, in order, leaving out each one
/// whose last segment is `main.cpp`.
pub fn keep_sources(acc: &mut Vec<String>, found: Vec<String>)
    ensures
        names_of(final(acc)@) == names_of(old(acc)@) + without_entry_points(names_of(found@)),
{
    let ghost start = names_of(acc@);
    let mut i: usize = 0;
    while i < found.len()
        invariant
            i <= found@.len(),
            names_of(acc@) == start + without_entry_points(names_of(found@).take(i as int)),
        decreases found@.len() - i,
    {
        let p = &found[i];
        assert(names_of(found@).take(i + 1).drop_last() =~= names_of(found@).take(i as int));
        assert(names_of(found@).take(i + 1).last() == p@);
        if !ends_in_entry_point(p.as_str()) {
            let ghost before = acc@;
            acc.push(p.clone());
            assert(names_of(acc@) =~= names_of(before).push(p@));
            assert(names_of(acc@) =~= start + without_entry_points(names_of(found@).take(i + 1)));
        }
        i = i + 1;
    }
    assert(names_of(found@).take(i as int) =~= names_of(found@));
}

} // verus!
