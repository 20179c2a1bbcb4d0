//! Text helpers over the characters of strings: comparison, substring search,
//! prefix trimming and joining.

use vstd::prelude::*;

verus! {

/// Whether `needle` occurs in `hay` at position `i`.
pub open spec fn occurs_at(hay: Seq<char>, needle: Seq<char>, i: int) -> bool {
    0 <= i && i + needle.len() <= hay.len() && hay.subrange(i, i + needle.len()) == needle
}

/// Whether `needle` occurs anywhere in `hay`.
pub open spec fn contains_spec(hay: Seq<char>, needle: Seq<char>) -> bool {
    exists|i: int| occurs_at(hay, needle, i)
}

/// `s` with every leading repetition of a non-empty `prefix` removed.
pub open spec fn trim_prefix_spec(s: Seq<char>, prefix: Seq<char>) -> Seq<char>
    decreases s.len(),
{
    if prefix.len() > 0 && occurs_at(s, prefix, 0) {
        trim_prefix_spec(s.skip(prefix.len() as int), prefix)
    } else {
        s
    }
}

/// Trimming a prefix leaves a suffix of the string that no longer starts
/// with the prefix; a string that does not start with it is left as it is.
pub proof fn lemma_trim_prefix(s: Seq<char>, prefix: Seq<char>)
    ensures
        trim_prefix_spec(s, prefix).len() <= s.len(),
        s.skip(s.len() - trim_prefix_spec(s, prefix).len()) == trim_prefix_spec(s, prefix),
        prefix.len() > 0 ==> !occurs_at(trim_prefix_spec(s, prefix), prefix, 0),
        (prefix.len() == 0 || !occurs_at(s, prefix, 0)) ==> trim_prefix_spec(s, prefix) == s,
    decreases s.len(),
{
    if prefix.len() > 0 && occurs_at(s, prefix, 0) {
        let t = s.skip(prefix.len() as int);
        lemma_trim_prefix(t, prefix);
        let r = trim_prefix_spec(t, prefix);
        assert(s.skip(s.len() - r.len()) =~= t.skip(t.len() - r.len()));
    } else {
        assert(s.skip(0) =~= s);
    }
}

/// The items joined with `sep` between consecutive ones.
pub open spec fn join_spec(items: Seq<Seq<char>>, sep: Seq<char>) -> Seq<char>
    decreases items.len(),
{
    if items.len() == 0 {
        Seq::empty()
    } else if items.len() == 1 {
        items[0]
    } else {
        join_spec(items.drop_last(), sep) + sep + items.last()
    }
}

/// Whether two strings hold the same characters.
pub fn str_equal(a: &str, b: &str) -> (res: bool)
    ensures
        res == (a@ == b@),
{
    let x = a.to_owned();
    let y = b.to_owned();
    x == y
}

/// The characters of `s`.
fn chars_of(s: &str) -> (res: Vec<char>)
    ensures
        res@ == s@,
{
    let n = s.unicode_len();
    let mut res: Vec<char> = Vec::new();
    let mut i: usize = 0;
    while i < n
        invariant
            n == s@.len(),
            i <= n,
            res@ == s@.take(i as int),
        decreases n - i,
    {
        res.push(s.get_char(i));
        proof {
            assert(res@ =~= s@.take(i + 1));
        }
        i = i + 1;
    }
    proof {
        assert(res@ =~= s@);
    }
    res
}

/// Whether `needle` occurs in `hay` at position `i`.
fn occurs_at_exec(hay: &Vec<char>, needle: &Vec<char>, i: usize) -> (res: bool)
    ensures
        res == occurs_at(hay@, needle@, i as int),
{
    if i > hay.len() || needle.len() > hay.len() - i {
        return false;
    }
    let mut j: usize = 0;
    while j < needle.len()
        invariant
            i + needle@.len() <= hay@.len(),
            hay@.len() == hay.len(),
            j <= needle@.len(),
            forall|k: int| 0 <= k < j ==> hay@[i + k] == needle@[k],
        decreases needle@.len() - j,
    {
        if hay[i + j] != needle[j] {
            proof {
                assert(hay@.subrange(i as int, i + needle@.len())[j as int] != needle@[j as int]);
            }
            return false;
        }
        j = j + 1;
    }
    proof {
        assert(hay@.subrange(i as int, i + needle@.len()) =~= needle@);
    }
    true
}

/// Whether `needle` occurs anywhere in `hay`; the empty string occurs in every string.
pub fn str_contains(hay: &str, needle: &str) -> (res: bool)
    ensures
        res == contains_spec(hay@, needle@),
{
    let h = chars_of(hay);
    let n = chars_of(needle);
    if n.len() > h.len() {
        proof {
            assert forall|i: int| !occurs_at(hay@, needle@, i) by {}
        }
        return false;
    }
    let last = h.len() - n.len();
    let mut i: usize = 0;
    loop
        invariant
            h@ == hay@,
            n@ == needle@,
            last == h@.len() - n@.len(),
            i <= last,
            forall|k: int| 0 <= k < i ==> !occurs_at(hay@, needle@, k),
        decreases last - i,
    {
        if occurs_at_exec(&h, &n, i) {
            return true;
        }
        if i == last {
            proof {
                assert forall|k: int| !occurs_at(hay@, needle@, k) by {
                    if 0 <= k < i {
                    }
                }
            }
            return false;
        }
        i = i + 1;
    }
}

/// `s` with every leading repetition of `prefix` removed; an empty prefix
/// removes nothing.
pub fn trim_start_matches<'a>(s: &'a str, prefix: &str) -> (res: &'a str)
    ensures
        res@ == trim_prefix_spec(s@, prefix@),
{
    let c = chars_of(s);
    let p = chars_of(prefix);
    let len = c.len();
    let mut pos: usize = 0;
    proof {
        assert(s@.skip(0) =~= s@);
    }
    if p.len() > 0 {
        loop
            invariant_except_break
                c@ == s@,
                p@ == prefix@,
                p@.len() > 0,
                len == c@.len(),
                pos <= len,
                trim_prefix_spec(s@, prefix@) == trim_prefix_spec(s@.skip(pos as int), prefix@),
            ensures
                pos <= len,
                len == s@.len(),
                trim_prefix_spec(s@, prefix@) == s@.skip(pos as int),
            decreases len - pos,
        {
            let found = occurs_at_exec(&c, &p, pos);
            let ghost rest = s@.skip(pos as int);
            proof {
                if found {
                    assert(rest.subrange(0, prefix@.len() as int) =~= s@.subrange(pos as int, pos + prefix@.len()));
                    assert(rest.skip(prefix@.len() as int) =~= s@.skip(pos + prefix@.len()));
                } else {
                    if occurs_at(rest, prefix@, 0) {
                        assert(rest.subrange(0, prefix@.len() as int) =~= s@.subrange(pos as int, pos + prefix@.len()));
                    }
                    assert(trim_prefix_spec(rest, prefix@) == rest);
                }
            }
            if !found {
                proof {
                    assert(trim_prefix_spec(s@, prefix@) == s@.skip(pos as int));
                }
                break;
            }
            pos = pos + p.len();
        }
    }
    proof {
        assert(pos == 0 ==> s@.skip(0) =~= s@);
        assert(s@.subrange(pos as int, len as int) =~= s@.skip(pos as int));
    }
    s.substring_char(pos, len)
}

/// The strings joined with `sep` between consecutive ones.
pub fn join(items: &Vec<String>, sep: &str) -> (res: String)
    ensures
        res@ == join_spec(items@.map_values(|s: String| s@), sep@),
{
    let ghost views = items@.map_values(|s: String| s@);
    let mut res = String::new();
    let mut i: usize = 0;
    while i < items.len()
        invariant
            i <= items@.len(),
            views == items@.map_values(|s: String| s@),
            res@ == join_spec(views.take(i as int), sep@),
        decreases items@.len() - i,
    {
        proof {
            assert(views.take(i + 1).drop_last() =~= views.take(i as int));
        }
        if i > 0 {
            res.append(sep);
        }
        res.append(items[i].as_str());
        proof {
            if i == 0 {
                assert(res@ =~= views.take(1)[0]);
            }
        }
        i = i + 1;
    }
    proof {
        assert(views.take(items@.len() as int) =~= views);
    }
    res
}

} // verus!
