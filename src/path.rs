use vstd::prelude::*;
use vstd::string::{StrSliceExecFns, StringExecFns};

verus! {

/// Is `c` one of the components that never name a file: empty (from `//` or a
/// trailing `/`) or the current directory `.`?
pub open spec fn is_skipped_component(c: Seq<char>) -> bool {
    c == Seq::<char>::empty() || c == seq!['.']
}

/// The file name of a path, scanned from the right: `rest` is the text not yet
/// scanned and `cur` the part of the component under the scan that lies after
/// `rest`. Components that are empty or `.` are passed over; a last component
/// `..` means there is no file name.
pub open spec fn name_scan(rest: Seq<char>, cur: Seq<char>) -> Option<Seq<char>>
    decreases rest.len(),
{
    if rest.len() == 0 {
        if is_skipped_component(cur) || cur == seq!['.', '.'] {
            None
        } else {
            Some(cur)
        }
    } else if rest.last() == '/' {
        if is_skipped_component(cur) {
            name_scan(rest.drop_last(), Seq::<char>::empty())
        } else if cur == seq!['.', '.'] {
            None
        } else {
            Some(cur)
        }
    } else {
        name_scan(rest.drop_last(), seq![rest.last()] + cur)
    }
}

/// The final component of path `p`, if it names a file or directory.
pub open spec fn file_name_of(p: Seq<char>) -> Option<Seq<char>> {
    name_scan(p, Seq::<char>::empty())
}

/// Index of the last `.` in `name`, or -1 when there is none.
pub open spec fn last_dot(name: Seq<char>) -> int
    decreases name.len(),
{
    if name.len() == 0 {
        -1
    } else if name.last() == '.' {
        name.len() - 1
    } else {
        last_dot(name.drop_last())
    }
}

/// The extension of a file name: what follows its last `.`, where that `.`
/// is not the name's first character.
pub open spec fn extension_of_name(name: Seq<char>) -> Option<Seq<char>> {
    let k = last_dot(name);
    if k <= 0 {
        None
    } else {
        Some(name.subrange(k + 1, name.len() as int))
    }
}

/// The extension of path `p`.
pub open spec fn extension_of(p: Seq<char>) -> Option<Seq<char>> {
    match file_name_of(p) {
        Some(name) => extension_of_name(name),
        None => None,
    }
}

/// The two serialization formats.
#[derive(Clone, Copy, Debug, PartialEq, Eq, Structural)]
pub enum Format {
    Json,
    Yaml,
}

/// The format that a path's extension announces: `json` for JSON, `yml` or
/// `yaml` for YAML, nothing for any other extension or none.
pub open spec fn format_of(p: Seq<char>) -> Option<Format> {
    match extension_of(p) {
        Some(e) => if e == seq!['j', 's', 'o', 'n'] {
            Some(Format::Json)
        } else if e == seq!['y', 'm', 'l'] || e == seq!['y', 'a', 'm', 'l'] {
            Some(Format::Yaml)
        } else {
            None
        },
        None => None,
    }
}

proof fn lemma_last_dot_bounds(name: Seq<char>)
    ensures
        -1 <= last_dot(name) < name.len(),
        last_dot(name) >= 0 ==> name[last_dot(name)] == '.',
    decreases name.len(),
{
    if name.len() > 0 && name.last() != '.' {
        lemma_last_dot_bounds(name.drop_last());
        let k = last_dot(name.drop_last());
        if k >= 0 {
            assert(name.drop_last()[k] == name[k]);
        }
    }
}

/// With no `.` at index `j` or after, the last `.` lies before `j`.
proof fn lemma_last_dot_prefix(name: Seq<char>, j: int)
    requires
        0 <= j <= name.len(),
        forall|m: int| j <= m < name.len() ==> name[m] != '.',
    ensures
        last_dot(name) == last_dot(name.subrange(0, j)),
    decreases name.len() - j,
{
    if j < name.len() {
        assert(name.drop_last() =~= name.subrange(0, name.len() - 1));
        lemma_last_dot_prefix(name.drop_last(), j);
        assert(name.drop_last().subrange(0, j) =~= name.subrange(0, j));
    } else {
        assert(name.subrange(0, j) =~= name);
    }
}

/// The final component of `path` that names a file or directory, skipping
/// trailing `/` and `.` components; `None` for a path that ends in `..` or
/// has no such component.
pub fn file_name(path: &str) -> (r: Option<String>)
    ensures
        r matches Some(s) ==> file_name_of(path@) == Some(s@),
        r is None ==> file_name_of(path@) is None,
{
    let n = path.unicode_len();
    let mut i: usize = n;
    let mut end: usize = n;
    assert(path@.subrange(0, n as int) =~= path@);
    assert(path@.subrange(n as int, n as int) =~= Seq::<char>::empty());
    while i > 0
        invariant
            n == path@.len(),
            i <= end <= n,
            name_scan(path@.subrange(0, i as int), path@.subrange(i as int, end as int))
                == file_name_of(path@),
        decreases i,
    {
        let c = path.get_char(i - 1);
        let ghost rest = path@.subrange(0, i as int);
        let ghost cur = path@.subrange(i as int, end as int);
        assert(rest.last() == c);
        assert(rest.drop_last() =~= path@.subrange(0, i - 1));
        if c == '/' {
            let comp = path.substring_char(i, end);
            if is_skipped(&comp) {
                end = i - 1;
                assert(path@.subrange(end as int, end as int) =~= Seq::<char>::empty());
            } else if is_parent(&comp) {
                return None;
            } else {
                return Some(String::from_str(comp));
            }
        } else {
            assert(seq![c] + cur =~= path@.subrange(i - 1, end as int));
        }
        i = i - 1;
    }
    let comp = path.substring_char(0, end);
    if is_skipped(&comp) || is_parent(&comp) {
        None
    } else {
        Some(String::from_str(comp))
    }
}

fn is_skipped(c: &str) -> (r: bool)
    ensures
        r == is_skipped_component(c@),
{
    let n = c.unicode_len();
    if n == 0 {
        assert(c@ =~= Seq::<char>::empty());
        true
    } else if n == 1 && c.get_char(0) == '.' {
        assert(c@ =~= seq!['.']);
        true
    } else {
        false
    }
}

fn is_parent(c: &str) -> (r: bool)
    ensures
        r == (c@ == seq!['.', '.']),
{
    let n = c.unicode_len();
    if n == 2 && c.get_char(0) == '.' && c.get_char(1) == '.' {
        assert(c@ =~= seq!['.', '.']);
        true
    } else {
        false
    }
}

/// The extension of `path`: the text after the last `.` of its file name,
/// unless that `.` begins the name.
pub fn extension(path: &str) -> (r: Option<String>)
    ensures
        r matches Some(s) ==> extension_of(path@) == Some(s@),
        r is None ==> extension_of(path@) is None,
{
    let name = match file_name(path) {
        Some(name) => name,
        None => return None,
    };
    let ghost nm = name@;
    let n = name.as_str().unicode_len();
    let mut j: usize = n;
    while j > 0
        invariant
            n == nm.len(),
            nm == name@,
            j <= n,
            forall|m: int| j <= m < n ==> nm[m] != '.',
        ensures
            j <= n,
            forall|m: int| j <= m < n ==> nm[m] != '.',
            j == 0 || nm[j - 1] == '.',
        decreases j,
    {
        if name.as_str().get_char(j - 1) == '.' {
            break;
        }
        j = j - 1;
    }
    proof {
        lemma_last_dot_bounds(nm);
    }
    if j == 0 {
        proof {
            lemma_last_dot_prefix(nm, 0);
            assert(nm.subrange(0, 0) =~= Seq::<char>::empty());
        }
        None
    } else {
        proof {
            lemma_last_dot_prefix(nm, j as int);
            assert(nm.subrange(0, j as int).last() == '.');
        }
        if j == 1 {
            None
        } else {
            let ext = name.as_str().substring_char(j, n);
            Some(String::from_str(ext))
        }
    }
}

/// The format that the extension of `path` announces.
pub fn detect_format(path: &str) -> (r: Option<Format>)
    ensures
        r == format_of(path@),
{
    match extension(path) {
        Some(e) => {
            let json = String::from_str("json");
            let yml = String::from_str("yml");
            let yaml = String::from_str("yaml");
            proof {
                reveal_strlit("json");
                reveal_strlit("yml");
                reveal_strlit("yaml");
                assert("json"@ =~= seq!['j', 's', 'o', 'n']);
                assert("yml"@ =~= seq!['y', 'm', 'l']);
                assert("yaml"@ =~= seq!['y', 'a', 'm', 'l']);
            }
            if e == json {
                Some(Format::Json)
            } else if e == yml || e == yaml {
                Some(Format::Yaml)
            } else {
                None
            }
        },
        None => None,
    }
}

} // verus!
