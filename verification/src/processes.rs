//! Process identity: file names of executable paths, Microsoft Store package
//! families, and process names looked up by process id.
use vstd::prelude::*;

use crate::text::{
    before_char, chars_of, drop_chars, is_ws, lower, lower_chars, occurs_at, push_char,
    seq_occurs_at, string_from, take_chars,
};

verus! {

/// A running process: its id and executable file name.
#[derive(Debug, Clone, PartialEq, Eq)]
pub struct ProcessInfo {
    pub pid: u32,
    pub name: String,
}

pub open spec fn is_separator(c: char) -> bool {
    c == '\\' || c == '/'
}

/// The text after the last path separator.
pub open spec fn last_component(s: Seq<char>) -> Seq<char>
    decreases s.len(),
{
    if s.len() == 0 {
        s
    } else if is_separator(s.last()) {
        Seq::empty()
    } else {
        last_component(s.drop_last()).push(s.last())
    }
}

/// The path without trailing separators.
pub open spec fn strip_trailing_separators(s: Seq<char>) -> Seq<char>
    decreases s.len(),
{
    if s.len() > 0 && is_separator(s.last()) {
        strip_trailing_separators(s.drop_last())
    } else {
        s
    }
}

/// The final component of a Windows path (`Path::file_name`): the text after
/// the last `\\` or `/`, trailing separators ignored; none when that is
/// empty, "." or "..".
pub open spec fn file_name(path: Seq<char>) -> Option<Seq<char>> {
    let name = last_component(strip_trailing_separators(path));
    if name.len() == 0 || name == seq!['.'] || name == seq!['.', '.'] {
        None
    } else {
        Some(name)
    }
}

/// The executable's file name of a Windows path, such as `obs64.exe` for
/// `C:\\Program Files\\obs-studio\\bin\\64bit\\obs64.exe`.
pub fn file_name_from_path(path: &str) -> (r: Option<String>)
    ensures
        r matches Some(n) ==> file_name(path@) == Some(n@),
        r is None ==> file_name(path@) is None,
{
    let v = chars_of(path);
    let mut end: usize = v.len();
    assert(v@.subrange(0, end as int) =~= v@);
    while end > 0 && (v[end - 1] == '\\' || v[end - 1] == '/')
        invariant
            end <= v.len(),
            strip_trailing_separators(v@) == strip_trailing_separators(v@.subrange(0, end as int)),
        decreases end,
    {
        assert(v@.subrange(0, end as int).drop_last() =~= v@.subrange(0, end - 1));
        end = end - 1;
    }
    let ghost stripped = v@.subrange(0, end as int);
    assert(strip_trailing_separators(stripped) == stripped);
    let mut start: usize = end;
    while start > 0 && !(v[start - 1] == '\\' || v[start - 1] == '/')
        invariant
            start <= end <= v.len(),
            stripped == v@.subrange(0, end as int),
            last_component(stripped) == last_component(v@.subrange(0, start as int))
                + v@.subrange(start as int, end as int),
        decreases start,
    {
        let ghost pre = v@.subrange(0, start as int);
        assert(pre.drop_last() =~= v@.subrange(0, start - 1));
        assert(last_component(pre) == last_component(pre.drop_last()).push(pre.last()));
        assert(v@.subrange(start - 1, end as int) =~= seq![v@[start - 1]] + v@.subrange(
            start as int,
            end as int,
        ));
        assert(last_component(pre.drop_last()).push(pre.last()) + v@.subrange(start as int, end as int)
            =~= last_component(pre.drop_last()) + v@.subrange(start - 1, end as int));
        start = start - 1;
    }
    proof {
        let pre = v@.subrange(0, start as int);
        if start > 0 {
            assert(is_separator(pre.last()));
        }
        assert(last_component(pre) =~= Seq::<char>::empty());
        assert(last_component(stripped) =~= v@.subrange(start as int, end as int));
    }
    let mut name: Vec<char> = Vec::new();
    let mut i: usize = start;
    while i < end
        invariant
            start <= i <= end <= v.len(),
            name@ == v@.subrange(start as int, i as int),
        decreases end - i,
    {
        name.push(v[i]);
        i = i + 1;
        assert(name@ =~= v@.subrange(start as int, i as int));
    }
    let n = name.len();
    if n == 0 || (n == 1 && name[0] == '.') || (n == 2 && name[0] == '.' && name[1] == '.') {
        proof {
            if n == 1 {
                assert(name@ =~= seq!['.']);
            }
            if n == 2 {
                assert(name@ =~= seq!['.', '.']);
            }
        }
        return None;
    }
    proof {
        if name@ == seq!['.'] {
            assert(name@[0] == '.');
        }
        if name@ == seq!['.', '.'] {
            assert(name@[0] == '.' && name@[1] == '.');
        }
    }
    Some(string_from(&name))
}

/// Index of the first occurrence of `p` in `s` at or after `i`.
pub open spec fn first_occurrence_from(s: Seq<char>, p: Seq<char>, i: int) -> Option<int>
    decreases s.len() + 1 - i,
{
    if i < 0 || i > s.len() {
        None
    } else if occurs_at(s, p, i) {
        Some(i)
    } else {
        first_occurrence_from(s, p, i + 1)
    }
}

/// Index of the last occurrence of `p` in `s` at or before `i`.
pub open spec fn last_occurrence_to(s: Seq<char>, p: Seq<char>, i: int) -> Option<int>
    decreases i + 1,
{
    if i < 0 {
        None
    } else if occurs_at(s, p, i) {
        Some(i)
    } else {
        last_occurrence_to(s, p, i - 1)
    }
}

pub open spec fn replace_slashes(s: Seq<char>) -> Seq<char> {
    Seq::new(s.len(), |k: int| if s[k] == '/' { '\\' } else { s[k] })
}

/// The package family of an executable under `\\WindowsApps\\`:
/// `<package name>_<publisher id>` out of the versioned package folder
/// `<name>_<version>_<arch>__<publisher id>`.
pub open spec fn package_family(path: Seq<char>) -> Option<Seq<char>> {
    let normalized = replace_slashes(path);
    let marker = "\\windowsapps\\"@;
    match first_occurrence_from(lower(normalized), marker, 0) {
        None => None,
        Some(at) => {
            let rest = normalized.subrange(at + marker.len(), normalized.len() as int);
            let full = before_char(rest, '\\');
            match last_occurrence_to(full, "__"@, full.len() - 2) {
                None => None,
                Some(split) => {
                    let name_and_version = full.subrange(0, split);
                    let publisher = full.subrange(split + 2, full.len() as int);
                    let package_name = before_char(name_and_version, '_');
                    if package_name.len() == 0 || publisher.len() == 0 {
                        None
                    } else {
                        Some(package_name + seq!['_'] + publisher)
                    }
                },
            }
        },
    }
}

pub fn first_occurrence(s: &Vec<char>, p: &Vec<char>) -> (r: Option<usize>)
    ensures
        r matches Some(k) ==> first_occurrence_from(s@, p@, 0) == Some(k as int) && k <= s@.len()
            && occurs_at(s@, p@, k as int),
        r is None ==> first_occurrence_from(s@, p@, 0) is None,
{
    let mut i: usize = 0;
    while i <= s.len()
        invariant
            i <= s.len() + 1,
            first_occurrence_from(s@, p@, 0) == first_occurrence_from(s@, p@, i as int),
        decreases s.len() + 1 - i,
    {
        if seq_occurs_at(s, p, i) {
            return Some(i);
        }
        if i == s.len() {
            assert(first_occurrence_from(s@, p@, i + 1) is None);
            return None;
        }
        i = i + 1;
    }
    None
}

fn last_occurrence(s: &Vec<char>, p: &Vec<char>) -> (r: Option<usize>)
    requires
        p@.len() == 2,
    ensures
        r matches Some(k) ==> last_occurrence_to(s@, p@, s@.len() - 2) == Some(k as int) && k + 2
            <= s@.len(),
        r is None ==> last_occurrence_to(s@, p@, s@.len() - 2) is None,
{
    if s.len() < 2 {
        assert(!occurs_at(s@, p@, s@.len() - 2));
        return None;
    }
    let mut i: usize = s.len() - 2;
    loop
        invariant
            i + 2 <= s.len(),
            last_occurrence_to(s@, p@, s@.len() - 2) == last_occurrence_to(s@, p@, i as int),
        decreases i,
    {
        if seq_occurs_at(s, p, i) {
            return Some(i);
        }
        if i == 0 {
            assert(last_occurrence_to(s@, p@, -1) is None);
            return None;
        }
        i = i - 1;
    }
}

fn before_char_chars(v: &Vec<char>, c: char) -> (r: Vec<char>)
    ensures
        r@ == before_char(v@, c),
{
    let s = string_from(v);
    let b = crate::text::str_before_char(s.as_str(), c);
    chars_of(b.as_str())
}

/// The package family of a Microsoft Store executable path (see
/// `package_family`).
pub fn windows_app_package_family(path: &str) -> (r: Option<String>)
    ensures
        r matches Some(f) ==> package_family(path@) == Some(f@),
        r is None ==> package_family(path@) is None,
{
    let raw = chars_of(path);
    let mut normalized: Vec<char> = Vec::new();
    let mut i: usize = 0;
    while i < raw.len()
        invariant
            i <= raw.len(),
            normalized@ == replace_slashes(raw@).take(i as int),
        decreases raw.len() - i,
    {
        let c = raw[i];
        normalized.push(if c == '/' {
            '\\'
        } else {
            c
        });
        i = i + 1;
        assert(normalized@ =~= replace_slashes(raw@).take(i as int));
    }
    assert(replace_slashes(raw@).take(raw@.len() as int) =~= replace_slashes(raw@));
    let lowered = lower_chars(&normalized);
    let marker = chars_of("\\windowsapps\\");
    let at = match first_occurrence(&lowered, &marker) {
        None => {
            return None;
        },
        Some(at) => at,
    };
    let start = at + marker.len();
    let rest = drop_chars(&normalized, start);
    let full = before_char_chars(&rest, '\\');
    let separator = chars_of("__");
    proof {
        reveal_strlit("__");
    }
    let split = match last_occurrence(&full, &separator) {
        None => {
            return None;
        },
        Some(split) => split,
    };
    assert(split + 2 <= full@.len());
    let name_and_version = take_chars(&full, split);
    let publisher = drop_chars(&full, split + 2);
    let package_name = before_char_chars(&name_and_version, '_');
    if package_name.len() == 0 || publisher.len() == 0 {
        return None;
    }
    let mut family = package_name;
    family.push('_');
    let mut k: usize = 0;
    let ghost head = family@;
    while k < publisher.len()
        invariant
            k <= publisher.len(),
            family@ == head + publisher@.take(k as int),
        decreases publisher.len() - k,
    {
        family.push(publisher[k]);
        k = k + 1;
        assert(family@ =~= head + publisher@.take(k as int));
    }
    assert(publisher@.take(publisher@.len() as int) =~= publisher@);
    assert(head =~= package_name@ + seq!['_']);
    Some(string_from(&family))
}

/// Two executables come from the same Microsoft Store package family
/// (compared ignoring ASCII case), whatever their versioned folders.
pub fn same_windows_app_package(left: &str, right: &str) -> (r: bool)
    ensures
        r == (package_family(left@) is Some && package_family(right@) is Some && lower(
            package_family(left@)->0,
        ) == lower(package_family(right@)->0)),
{
    match (windows_app_package_family(left), windows_app_package_family(right)) {
        (Some(l), Some(r)) => crate::text::eq_ignore_case(l.as_str(), r.as_str()),
        _ => false,
    }
}

/// The process name shown for a window: the file name of its executable
/// path when known, else the name the process list gives for `pid`, else
/// empty.
pub open spec fn process_name_for(path: Option<String>, processes: Seq<ProcessInfo>, pid: u32) -> Seq<char> {
    let from_path = match path {
        Some(p) => file_name(p@),
        None => None,
    };
    match from_path {
        Some(n) => n,
        None => match first_process_with_pid(processes, pid, 0) {
            Some(k) => processes[k].name@,
            None => Seq::empty(),
        },
    }
}

pub open spec fn first_process_with_pid(ps: Seq<ProcessInfo>, pid: u32, i: int) -> Option<int>
    decreases ps.len() - i,
{
    if i < 0 || i >= ps.len() {
        None
    } else if ps[i].pid == pid {
        Some(i)
    } else {
        first_process_with_pid(ps, pid, i + 1)
    }
}

/// The process name of `pid` from its executable path (when Windows gave
/// one) and the process list (see `process_name_for`).
pub fn query_process_name(path: Option<String>, processes: &Vec<ProcessInfo>, pid: u32) -> (r: String)
    ensures
        r@ == process_name_for(path, processes@, pid),
{
    if let Some(p) = &path {
        if let Some(n) = file_name_from_path(p.as_str()) {
            return n;
        }
    }
    let mut i: usize = 0;
    while i < processes.len()
        invariant
            i <= processes.len(),
            (match path {
                Some(p) => file_name(p@),
                None => None,
            }) is None,
            first_process_with_pid(processes@, pid, 0) == first_process_with_pid(
                processes@,
                pid,
                i as int,
            ),
        decreases processes.len() - i,
    {
        if processes[i].pid == pid {
            return processes[i].name.clone();
        }
        i = i + 1;
    }
    String::new()
}

} // verus!
