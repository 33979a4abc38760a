//! The name under which the functions of a source file are dumped: the
//! package's directory, then the file's place below `src`.

use vstd::prelude::*;

verus! {

/// The first place at or after `from` where `stems` holds `src`, or the
/// length of `stems` where none does.
pub open spec fn first_src(stems: Seq<String>, from: int) -> int
    decreases stems.len() - from,
{
    if from < 0 || from >= stems.len() {
        stems.len() as int
    } else if stems[from]@ == "src"@ {
        from
    } else {
        first_src(stems, from + 1)
    }
}

/// The components of the dump name, where `stems[at]` is `src`: the stem
/// above `src`, then the stems below it from the outermost to the file.
pub open spec fn dump_components(stems: Seq<String>, at: int) -> Seq<Seq<char>> {
    seq![stems[at + 1]@] + Seq::new(at as nat, |i: int| stems[at - 1 - i]@)
}

/// The characters of each string of a list.
pub open spec fn texts(strings: Seq<String>) -> Seq<Seq<char>> {
    Seq::new(strings.len(), |i: int| strings[i]@)
}

/// The components of a file's dump name, from the stems of the file's path
/// and of its ancestors, innermost first; `None` where no stem is `src`.
/// The stem `src` must have one above it and one below it.
pub fn get_filename(stems: &Vec<String>) -> (name: Option<Vec<String>>)
    requires
        first_src(stems@, 0) < stems@.len() ==> 0 < first_src(stems@, 0) && first_src(stems@, 0)
            + 1 < stems@.len(),
    ensures
        first_src(stems@, 0) >= stems@.len() ==> name.is_none(),
        first_src(stems@, 0) < stems@.len() ==> name.is_some() && texts(name.unwrap()@)
            == dump_components(stems@, first_src(stems@, 0)),
{
    let src = String::from_str("src");
    let mut at: usize = 0;
    let mut found = false;
    while !found && at < stems.len()
        invariant
            at <= stems.len(),
            src@ == "src"@,
            first_src(stems@, 0) == first_src(stems@, at as int),
            found ==> at < stems.len() && stems@[at as int]@ == "src"@,
        decreases stems.len() - at + (if found { 0int } else { 1int }),
    {
        if stems[at] == src {
            found = true;
        } else {
            at += 1;
        }
    }
    if !found {
        return None;
    }
    let mut parts: Vec<String> = Vec::new();
    parts.push(stems[at + 1].clone());
    let mut i: usize = at;
    while i > 0
        invariant
            i <= at,
            at + 1 < stems.len(),
            parts@.len() == 1 + at - i,
            forall|k: int|
                0 <= k < parts@.len() ==> (#[trigger] parts@[k])@ == dump_components(
                    stems@,
                    at as int,
                )[k],
        decreases i,
    {
        i -= 1;
        parts.push(stems[i].clone());
    }
    assert(texts(parts@) =~= dump_components(stems@, at as int));
    Some(parts)
}

} // verus!
