use vstd::prelude::*;
use vstd::string::*;

verus! {

/// The extension that marks a directory entry as a project descriptor,
/// dot included.
pub open spec fn descriptor_suffix() -> Seq<char> {
    ".xcodeproj"@
}

/// An entry name is a project descriptor when its extension (what follows the
/// last dot) is `xcodeproj` and something precedes that dot: a name made of
/// the suffix alone is a hidden entry without extension.
pub open spec fn is_descriptor_name(name: Seq<char>) -> bool {
    &&& name.len() > descriptor_suffix().len()
    &&& name.subrange(name.len() - descriptor_suffix().len(), name.len() as int)
        == descriptor_suffix()
}

/// The characters of `s`, in order.
fn chars_of(s: &str) -> (r: Vec<char>)
    ensures
        r@ == s@,
{
    let mut out: Vec<char> = Vec::new();
    for c in it: s.chars()
        invariant
            out@ == it.seq().take(it.index() as int),
    {
        out.push(c);
    }
    out
}

/// The name that the locator picks from a listing: the first descriptor in
/// listing order, if there is one.
pub open spec fn located(names: Seq<Seq<char>>) -> Option<Seq<char>>
    decreases names.len(),
{
    if names.len() == 0 {
        None
    } else if is_descriptor_name(names[0]) {
        Some(names[0])
    } else {
        located(names.drop_first())
    }
}

/// Tells whether a directory entry name marks a project descriptor.
pub fn is_project_descriptor(name: &str) -> (r: bool)
    ensures
        r == is_descriptor_name(name@),
{
    proof {
        reveal_strlit(".xcodeproj");
    }
    let chars = chars_of(name);
    let suffix = chars_of(".xcodeproj");
    if chars.len() <= suffix.len() {
        return false;
    }
    let start = chars.len() - suffix.len();
    let mut i: usize = 0;
    while i < suffix.len()
        invariant
            chars@ == name@,
            suffix@ == descriptor_suffix(),
            start == chars.len() - suffix.len(),
            i <= suffix.len(),
            forall|k: int| 0 <= k < i ==> chars@[start + k] == suffix@[k],
        decreases suffix.len() - i,
    {
        if chars[start + i] != suffix[i] {
            assert(name@.subrange(start as int, name@.len() as int)[i as int] != suffix@[i as int]);
            return false;
        }
        i = i + 1;
    }
    assert(name@.subrange(start as int, name@.len() as int) =~= descriptor_suffix());
    true
}

/// Finds the project descriptor among the names of a directory's entries,
/// given in the order the directory listed them: the first one that
/// qualifies, or `None` when none does.
pub fn find_project_name(entries: &Vec<String>) -> (r: Option<String>)
    ensures
        match r {
            None => located(entries.deep_view()) is None,
            Some(name) => located(entries.deep_view()) == Some(name@),
        },
{
    let ghost names = entries.deep_view();
    let mut i: usize = 0;
    assert(names.skip(0) =~= names);
    while i < entries.len()
        invariant
            names == entries.deep_view(),
            i <= entries.len(),
            located(names) == located(names.skip(i as int)),
        decreases entries.len() - i,
    {
        let qualifies = is_project_descriptor(entries[i].as_str());
        assert(names.skip(i as int)[0] == entries[i as int]@);
        if qualifies {
            return Some(entries[i].clone());
        }
        assert(names.skip(i as int).drop_first() =~= names.skip(i + 1));
        i = i + 1;
    }
    None
}

} // verus!
