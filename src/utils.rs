use vstd::prelude::*;
use vstd::string::StringExecFns;
use crate::felt::Felt;

verus! {

/// The part of a path after its last dot; the whole path where it has none.
pub open spec fn last_path_segment(s: Seq<char>) -> Seq<char>
    decreases s.len(),
{
    if s.len() == 0 {
        s
    } else if s.last() == '.' {
        Seq::empty()
    } else {
        last_path_segment(s.drop_last()).push(s.last())
    }
}

pub proof fn lemma_last_path_segment_skip(s: Seq<char>, j: int)
    requires
        0 <= j <= s.len(),
        forall|i: int| j <= i < s.len() ==> s[i] != '.',
        j == 0 || s[j - 1] == '.',
    ensures
        last_path_segment(s) == s.skip(j),
    decreases s.len(),
{
    if s.len() > j {
        lemma_last_path_segment_skip(s.drop_last(), j);
        assert(s.drop_last().skip(j).push(s.last()) =~= s.skip(j));
    } else if j > 0 {
        assert(s.skip(j) =~= Seq::<char>::empty());
    } else {
        assert(s =~= Seq::<char>::empty());
    }
}

/// The name of a constant: its fully qualified path stripped to the last
/// identifier.
pub fn const_name(path: &String) -> (r: String)
    ensures
        r@ == last_path_segment(path@),
{
    let s = path.as_str();
    let n = s.unicode_len();
    let mut j: usize = n;
    let mut found = false;
    while j > 0 && !found
        invariant
            j <= n,
            n == s@.len(),
            s@ == path@,
            forall|i: int| j <= i < n ==> s@[i] != '.',
            found ==> j > 0 && s@[j - 1] == '.',
        decreases j + if found { 0int } else { 1int },
    {
        if s.get_char(j - 1) == '.' {
            found = true;
        } else {
            j = j - 1;
        }
    }
    proof {
        lemma_last_path_segment_skip(s@, j as int);
        assert(s@.subrange(j as int, n as int) =~= s@.skip(j as int));
    }
    s.substring_char(j, n).to_owned()
}

/// The named constants of a program with their paths stripped to the last
/// identifier.
pub fn const_path_to_const_name(constants: &Vec<(String, Felt)>) -> (r: Vec<(String, Felt)>)
    ensures
        r@.len() == constants@.len(),
        forall|i: int| 0 <= i < r@.len() ==> (#[trigger] r@[i]).0@ == last_path_segment(constants@[i].0@)
            && r@[i].1 == constants@[i].1,
{
    let mut r: Vec<(String, Felt)> = Vec::new();
    let mut i: usize = 0;
    while i < constants.len()
        invariant
            i <= constants@.len(),
            r@.len() == i,
            forall|j: int| 0 <= j < i ==> (#[trigger] r@[j]).0@ == last_path_segment(constants@[j].0@)
                && r@[j].1 == constants@[j].1,
        decreases constants.len() - i,
    {
        let name = const_name(&constants[i].0);
        r.push((name, constants[i].1));
        i = i + 1;
    }
    r
}

/// A name with `_builtin` appended.
pub fn builtin_key(name: &str) -> (r: String)
    ensures
        r@ == name@ + "_builtin"@,
{
    let mut s = name.to_owned();
    s.append("_builtin");
    s
}

} // verus!
