use vstd::prelude::*;
use vstd::string::*;

verus! {

/// The index of the last `/` in a path, or -1 if the path holds none.
pub open spec fn last_slash(path: Seq<char>) -> int
    decreases path.len(),
{
    if path.len() == 0 {
        -1
    } else if path[path.len() - 1] == '/' {
        path.len() - 1
    } else {
        last_slash(path.drop_last())
    }
}

/// The output path of a rendered page: the source path with its final
/// component (everything after the last `/`, or the whole path if it has
/// none) replaced by the fixed index filename.
pub open spec fn spec_output_path(path: Seq<char>) -> Seq<char> {
    path.subrange(0, last_slash(path) + 1) + "index.html"@
}

/// Derives the output path of a source document: the filename is replaced
/// by the fixed index filename within the same directory. Paths are
/// `/`-separated, as discovery yields them.
pub fn output_path(source_path: &str) -> (r: String)
    ensures
        r@ == spec_output_path(source_path@),
{
    let n = source_path.unicode_len();
    let mut cut: usize = 0;
    let mut i: usize = 0;
    proof {
        assert(source_path@.take(0) =~= Seq::<char>::empty());
    }
    while i < n
        invariant
            i <= n,
            n == source_path@.len(),
            cut == last_slash(source_path@.take(i as int)) + 1,
            cut <= i,
        decreases n - i,
    {
        proof {
            assert(source_path@.take(i as int + 1).drop_last() =~= source_path@.take(i as int));
            assert(source_path@.take(i as int + 1).last() == source_path@[i as int]);
        }
        if source_path.get_char(i) == '/' {
            cut = i + 1;
        }
        i = i + 1;
    }
    proof {
        assert(source_path@.take(n as int) =~= source_path@);
    }
    let mut r = source_path.substring_char(0, cut).to_owned();
    r.append("index.html");
    r
}

} // verus!
