use vstd::prelude::*;

verus! {

/// The path separator.
pub const SEP: char = '/';

/// The characters after the last occurrence of `c` in `s`, or `None` when `c`
/// does not occur in `s`.
pub open spec fn after_last(s: Seq<char>, c: char) -> Option<Seq<char>>
    decreases s.len(),
{
    if s.len() == 0 {
        None
    } else if s.last() == c {
        Some(Seq::empty())
    } else {
        match after_last(s.drop_last(), c) {
            Some(t) => Some(t.push(s.last())),
            None => None,
        }
    }
}

/// `s` without its trailing separators.
pub open spec fn trim_trailing_seps(s: Seq<char>) -> Seq<char>
    decreases s.len(),
{
    if s.len() > 0 && s.last() == SEP {
        trim_trailing_seps(s.drop_last())
    } else {
        s
    }
}

/// The extension of a path: what follows its last `.`, empty when there is none.
pub open spec fn extension_of(p: Seq<char>) -> Seq<char> {
    match after_last(p, '.') {
        Some(e) => e,
        None => Seq::empty(),
    }
}

/// The last component of a path, trailing separators ignored.
pub open spec fn last_component(p: Seq<char>) -> Seq<char> {
    let t = trim_trailing_seps(p);
    match after_last(t, SEP) {
        Some(c) => c,
        None => t,
    }
}

/// The file name of a path: its last component, unless that is empty, `.` or `..`.
pub open spec fn file_name_of(p: Seq<char>) -> Option<Seq<char>> {
    let c = last_component(p);
    if c.len() == 0 || c == seq!['.'] || c == seq!['.', '.'] {
        None
    } else {
        Some(c)
    }
}

/// `name` placed inside the directory `dir`.
pub open spec fn join_of(dir: Seq<char>, name: Seq<char>) -> Seq<char> {
    if dir.len() == 0 {
        name
    } else if dir.last() == SEP {
        dir + name
    } else {
        dir.push(SEP) + name
    }
}

proof fn lemma_after_last_extend(s: Seq<char>, c: char, k: int)
    requires
        0 <= k < s.len(),
        s[k] != c,
    ensures
        after_last(s.subrange(0, k + 1), c) == match after_last(s.subrange(0, k), c) {
            Some(t) => Some(t.push(s[k])),
            None => None,
        },
{
    let u = s.subrange(0, k + 1);
    assert(u.drop_last() =~= s.subrange(0, k));
}

/// Index at which the part of `s` after the last `c` begins, if `c` occurs.
fn find_after_last(s: &str, c: char) -> (r: Option<usize>)
    ensures
        match r {
            Some(i) => i <= s@.len() && after_last(s@, c) == Some(s@.subrange(i as int, s@.len() as int)),
            None => after_last(s@, c) is None,
        },
{
    let n = s.unicode_len();
    let mut i: usize = n;
    proof {
        assert(s@.subrange(0, n as int) =~= s@);
        match after_last(s@, c) {
            Some(t) => assert(t + s@.subrange(n as int, n as int) =~= t),
            None => {},
        }
    }
    while i > 0 && s.get_char(i - 1) != c
        invariant
            n == s@.len(),
            i <= n,
            after_last(s@, c) == match after_last(s@.subrange(0, i as int), c) {
                Some(t) => Some(t + s@.subrange(i as int, n as int)),
                None => None,
            },
        decreases i,
    {
        proof {
            lemma_after_last_extend(s@, c, i - 1);
            assert(s@.subrange(i - 1, n as int) =~= seq![s@[i - 1]] + s@.subrange(i as int, n as int));
            match after_last(s@.subrange(0, i - 1), c) {
                Some(t) => {
                    assert(t.push(s@[i - 1]) + s@.subrange(i as int, n as int) =~= t + s@.subrange(i - 1, n as int));
                },
                None => {},
            }
        }
        i = i - 1;
    }
    proof {
        assert(s@.subrange(0, n as int) =~= s@);
    }
    if i == 0 {
        assert(s@.subrange(0, 0) =~= Seq::<char>::empty());
        None
    } else {
        let ghost u = s@.subrange(0, i as int);
        assert(u.last() == c);
        assert(Seq::<char>::empty() + s@.subrange(i as int, n as int) =~= s@.subrange(i as int, n as int));
        Some(i)
    }
}

/// The extension of `path`: what follows its last `.`, empty when it has none.
pub fn extension(path: &str) -> (r: String)
    ensures
        r@ == extension_of(path@),
{
    match find_after_last(path, '.') {
        Some(i) => {
            let n = path.unicode_len();
            String::from_str(path.substring_char(i, n))
        },
        None => String::new(),
    }
}

/// The file name of `path`, or `None` when the path has no file name component.
pub fn file_name(path: &str) -> (r: Option<String>)
    ensures
        match r {
            Some(name) => file_name_of(path@) == Some(name@),
            None => file_name_of(path@) is None,
        },
{
    let n = path.unicode_len();
    let mut end: usize = n;
    assert(path@.subrange(0, n as int) =~= path@);
    while end > 0 && path.get_char(end - 1) == SEP
        invariant
            n == path@.len(),
            end <= n,
            trim_trailing_seps(path@) == trim_trailing_seps(path@.subrange(0, end as int)),
        decreases end,
    {
        assert(path@.subrange(0, end - 1) =~= path@.subrange(0, end as int).drop_last());
        end = end - 1;
    }
    let trimmed = path.substring_char(0, end);
    assert(trim_trailing_seps(path@) == trimmed@) by {
        assert(path@.subrange(0, n as int) =~= path@);
    }
    let last: &str = match find_after_last(trimmed, SEP) {
        Some(i) => trimmed.substring_char(i, end),
        None => trimmed,
    };
    assert(last@ == last_component(path@));
    let k = last.unicode_len();
    if k == 0 || (k == 1 && last.get_char(0) == '.') || (k == 2 && last.get_char(0) == '.'
        && last.get_char(1) == '.') {
        proof {
            if k == 1 {
                assert(last@ =~= seq!['.']);
            } else if k == 2 {
                assert(last@ =~= seq!['.', '.']);
            }
        }
        None
    } else {
        assert(last@ != seq!['.']) by {
            if k == 1 { assert(last@[0] != '.'); }
        }
        assert(last@ != seq!['.', '.']) by {
            if k == 2 { assert(last@[0] != '.' || last@[1] != '.'); }
        }
        Some(String::from_str(last))
    }
}

/// The path of `name` inside the directory `dir`.
pub fn join(dir: &str, name: &str) -> (r: String)
    ensures
        r@ == join_of(dir@, name@),
{
    let n = dir.unicode_len();
    if n == 0 {
        String::from_str(name)
    } else if dir.get_char(n - 1) == SEP {
        String::from_str(dir).concat(name)
    } else {
        let mut r = String::from_str(dir);
        r.append("/");
        proof { reveal_strlit("/"); }
        assert(r@ == dir@.push(SEP));
        r.concat(name)
    }
}

/// What follows the last `c` holds no `c`; when there is no `c`, `s` holds none.
proof fn lemma_after_last_free(s: Seq<char>, c: char)
    ensures
        match after_last(s, c) {
            Some(t) => forall|i: int| 0 <= i < t.len() ==> t[i] != c,
            None => forall|i: int| 0 <= i < s.len() ==> s[i] != c,
        },
    decreases s.len(),
{
    if s.len() > 0 && s.last() != c {
        lemma_after_last_free(s.drop_last(), c);
        match after_last(s.drop_last(), c) {
            Some(t) => {
                assert forall|i: int| 0 <= i < t.push(s.last()).len() implies t.push(s.last())[i] != c by {
                    if i < t.len() {
                        assert(t.push(s.last())[i] == t[i]);
                    }
                }
            },
            None => {
                assert forall|i: int| 0 <= i < s.len() implies s[i] != c by {
                    if i < s.len() - 1 {
                        assert(s[i] == s.drop_last()[i]);
                    }
                }
            },
        }
    }
}

/// After a `c`, a text free of `c` is what follows the last `c`.
proof fn lemma_after_last_append(x: Seq<char>, t: Seq<char>, c: char)
    requires
        x.len() > 0,
        x.last() == c,
        forall|i: int| 0 <= i < t.len() ==> t[i] != c,
    ensures
        after_last(x + t, c) == Some(t),
    decreases t.len(),
{
    if t.len() == 0 {
        assert(x + t =~= x);
    } else {
        assert((x + t).drop_last() =~= x + t.drop_last());
        lemma_after_last_append(x, t.drop_last(), c);
        assert(t.drop_last().push(t.last()) =~= t);
    }
}

/// A text free of `c` has nothing after a last `c`.
proof fn lemma_after_last_absent(t: Seq<char>, c: char)
    requires
        forall|i: int| 0 <= i < t.len() ==> t[i] != c,
    ensures
        after_last(t, c) is None,
    decreases t.len(),
{
    if t.len() > 0 {
        lemma_after_last_absent(t.drop_last(), c);
    }
}

/// A file name holds no separator.
pub proof fn lemma_file_name_has_no_separator(p: Seq<char>)
    requires
        file_name_of(p) is Some,
    ensures
        forall|i: int| 0 <= i < file_name_of(p)->Some_0.len() ==> file_name_of(p)->Some_0[i] != SEP,
{
    lemma_after_last_free(trim_trailing_seps(p), SEP);
}

/// A file name placed inside a directory keeps its name.
pub proof fn lemma_file_name_of_join(dir: Seq<char>, p: Seq<char>)
    requires
        file_name_of(p) is Some,
    ensures
        file_name_of(join_of(dir, file_name_of(p)->Some_0)) == file_name_of(p),
{
    let name = file_name_of(p)->Some_0;
    lemma_file_name_has_no_separator(p);
    let j = join_of(dir, name);
    assert(j.last() == name.last()) by {
        if dir.len() == 0 {
        } else if dir.last() == SEP {
            assert((dir + name).last() == name.last());
        } else {
            assert((dir.push(SEP) + name).last() == name.last());
        }
    }
    assert(name.last() != SEP);
    assert(trim_trailing_seps(j) == j);
    if dir.len() == 0 {
        lemma_after_last_absent(name, SEP);
    } else if dir.last() == SEP {
        lemma_after_last_append(dir, name, SEP);
    } else {
        lemma_after_last_append(dir.push(SEP), name, SEP);
    }
}

} // verus!
