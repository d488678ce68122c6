use vstd::prelude::*;
use vstd::string::*;

verus! {

/// `base` and `part` with one separator between them.
pub open spec fn joined(base: Seq<char>, part: Seq<char>) -> Seq<char> {
    base + seq!['/'] + part
}

/// The file name that is left out of source discovery.
pub open spec fn entry_point_name() -> Seq<char> {
    seq!['m', 'a', 'i', 'n', '.', 'c', 'p', 'p']
}

/// Whether the last segment of `p` is exactly `name`.
pub open spec fn has_final_segment(p: Seq<char>, name: Seq<char>) -> bool {
    ||| p == name
    ||| (p.len() > name.len() && p.subrange(p.len() - name.len(), p.len() as int) == name
        && p[p.len() - name.len() - 1] == '/')
}

/// Whether `p` names the sketch entry point.
pub open spec fn is_entry_point(p: Seq<char>) -> bool {
    has_final_segment(p, entry_point_name())
}

/// Appends `part` to `base` as a further path segment.
pub fn join(base: &str, part: &str) -> (r: String)
    ensures
        r@ == joined(base@, part@),
{
    let mut r = String::from_str(base);
    let sep = "/";
    proof {
        reveal_strlit("/");
    }
    r.append(sep);
    r.append(part);
    assert(r@ =~= joined(base@, part@));
    r
}

/// Whether the last segment of `p` is `main.cpp`.
pub fn ends_in_entry_point(p: &str) -> (r: bool)
    ensures
        r == is_entry_point(p@),
{
    let name = "main.cpp";
    proof {
        reveal_strlit("main.cpp");
    }
    assert(name@ =~= entry_point_name());
    assert(entry_point_name().len() == 8);
    let n = p.unicode_len();
    let k: usize = 8;
    if n < k {
        return false;
    }
    let start: usize = n - k;
    let mut i: usize = 0;
    while i < k
        invariant
            n == p@.len(),
            k == name@.len(),
            name@ == entry_point_name(),
            start + k == n,
            i <= k,
            p@.subrange(start as int, start + i) =~= name@.subrange(0, i as int),
        decreases k - i,
    {
        if p.get_char(start + i) != name.get_char(i) {
            assert(p@.subrange(start as int, n as int)[i as int] != name@[i as int]);
            assert(p@.subrange(start as int, n as int) != name@);
            assert(start == 0 ==> p@ =~= p@.subrange(start as int, n as int));
            return false;
        }
        i = i + 1;
        assert(p@.subrange(start as int, start + i) =~= name@.subrange(0, i as int));
    }
    assert(p@.subrange(start as int, n as int) =~= name@);
    if start == 0 {
        assert(p@ =~= name@);
        true
    } else {
        p.get_char(start - 1) == '/'
    }
}

} // verus!
