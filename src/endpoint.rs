//! Request paths relative to the registry's API root.
use vstd::prelude::*;
use vstd::string::*;

verus! {

/// The name with every `::` (scanned left to right, without overlap)
/// replaced by `-`, as the registry names distributions.
pub open spec fn dashed(s: Seq<char>) -> Seq<char>
    decreases s.len(),
{
    if s.len() == 0 {
        Seq::empty()
    } else if s.len() >= 2 && s[0] == ':' && s[1] == ':' {
        seq!['-'] + dashed(s.subrange(2, s.len() as int))
    } else {
        seq![s[0]] + dashed(s.subrange(1, s.len() as int))
    }
}

/// A name without any `:`, such as a distribution name that a module lookup
/// returned, is looked up as it is.
pub proof fn dashed_keeps_plain_names(s: Seq<char>)
    requires
        forall|i: int| 0 <= i < s.len() ==> s[i] != ':',
    ensures
        dashed(s) == s,
        release_path_of(s) == "release/"@ + s,
    decreases s.len(),
{
    if s.len() > 0 {
        let rest = s.subrange(1, s.len() as int);
        assert forall|i: int| 0 <= i < rest.len() implies rest[i] != ':' by {
            assert(rest[i] == s[i + 1]);
        }
        dashed_keeps_plain_names(rest);
        assert(seq![s[0]] + rest =~= s);
    }
}

/// Path of the release endpoint for a distribution or module name.
pub open spec fn release_path_of(name: Seq<char>) -> Seq<char> {
    "release/"@ + dashed(name)
}

/// Path of the module endpoint for a module name.
pub open spec fn module_path_of(name: Seq<char>) -> Seq<char> {
    "module/"@ + name
}

/// Turns a module-style name (`JSON::PP`) into the registry's distribution
/// form (`JSON-PP`).
pub fn normalize_name(name: &str) -> (r: String)
    ensures
        r@ == dashed(name@),
{
    let n = name.unicode_len();
    let mut out = String::new();
    let mut i: usize = 0;
    assert(name@.subrange(0, n as int) =~= name@);
    while i < n
        invariant
            n == name@.len(),
            i <= n,
            dashed(name@) == out@ + dashed(name@.subrange(i as int, n as int)),
        decreases n - i,
    {
        let rest = Ghost(name@.subrange(i as int, n as int));
        if i + 1 < n && name.get_char(i) == ':' && name.get_char(i + 1) == ':' {
            assert(rest@.subrange(2, rest@.len() as int) =~= name@.subrange(
                i + 2,
                n as int,
            ));
            let ghost before = out@;
            out.append("-");
            proof {
                reveal_strlit("-");
            }
            assert(out@ =~= before + seq!['-']);
            assert(dashed(rest@) == seq!['-'] + dashed(rest@.subrange(2, rest@.len() as int)));
            assert(out@ + dashed(name@.subrange(i + 2, n as int)) =~= before + dashed(rest@));
            i = i + 2;
        } else {
            assert(rest@.subrange(1, rest@.len() as int) =~= name@.subrange(
                i + 1,
                n as int,
            ));
            let c = name.substring_char(i, i + 1);
            let ghost before = out@;
            out.append(c);
            assert(c@ =~= seq![rest@[0]]);
            assert(dashed(rest@) == seq![rest@[0]] + dashed(rest@.subrange(1, rest@.len() as int)));
            assert(out@ + dashed(name@.subrange(i + 1, n as int)) =~= before + dashed(rest@));
            i = i + 1;
        }
    }
    assert(name@.subrange(n as int, n as int) =~= Seq::<char>::empty());
    out
}

/// The path, relative to the API root, that looks up a release.
pub fn release_path(name: &str) -> (r: String)
    ensures
        r@ == release_path_of(name@),
{
    let mut path = "release/".to_string();
    let tail = normalize_name(name);
    path.append(tail.as_str());
    path
}

/// The path, relative to the API root, that resolves a module to its
/// distribution.
pub fn module_lookup_path(name: &str) -> (r: String)
    ensures
        r@ == module_path_of(name@),
{
    let mut path = "module/".to_string();
    path.append(name);
    path
}

} // verus!
