//! Finding how to start an app: the paths tried, in order, from the entry,
//! the registry, the usual install folders and the Start menu.
use vstd::prelude::*;

use crate::config_file::{join_path, path_join};
use crate::matching::alnum_only;
use crate::models::AppConfig;
use crate::processes::{file_name, file_name_from_path, first_occurrence, first_occurrence_from};
use crate::selection::stable_rearrangement;
use crate::text::{
    views, before_char, blank, chars_of, contains, copy_str, ends_with, eq_ignore_case, is_blank, join2,
    lower, lower_chars, str_before_char, str_contains, str_ends_with, str_trim_char, string_from,
    to_lower, trim, trim_char, trim_str,
};

verus! {

/// A way to start an app: an executable (or, through the shell, a
/// shortcut) with arguments.
#[derive(Debug, Clone, PartialEq, Eq)]
pub struct LaunchTarget {
    pub path: String,
    pub arguments: Vec<String>,
    pub use_shell: bool,
}

/// A step of the search for a launch target: a candidate path, or a folder
/// whose "app-*" version folders (newest first) are to be searched for the
/// executable.
#[derive(Debug, Clone, PartialEq, Eq)]
pub enum CandidateSource {
    Target(LaunchTarget),
    SquirrelScan { root: String, process_name: String },
}

/// The environment the paths are expanded in, as (name, value) pairs.
#[derive(Debug, Clone, PartialEq, Eq)]
pub struct LaunchEnvironment {
    pub vars: Vec<(String, String)>,
}

/// ASCII letters and digits of a name, lowercased.
pub open spec fn normal_name(s: Seq<char>) -> Seq<char> {
    lower(alnum_only(s))
}

pub fn normalize_name(name: &str) -> (r: String)
    ensures
        r@ == normal_name(name@),
{
    let v = chars_of(name);
    let mut kept: Vec<char> = Vec::new();
    let mut i: usize = 0;
    while i < v.len()
        invariant
            i <= v.len(),
            kept@ == alnum_only(v@.take(i as int)),
        decreases v.len() - i,
    {
        assert(v@.take(i + 1).drop_last() =~= v@.take(i as int));
        if crate::text::char_is_ascii_alnum(v[i]) {
            kept.push(v[i]);
        }
        i = i + 1;
    }
    assert(v@.take(v.len() as int) =~= v@);
    string_from(&lower_chars(&kept))
}

/// Index of the last '.' in `s`, if any.
pub open spec fn last_dot(s: Seq<char>) -> Option<int>
    decreases s.len(),
{
    if s.len() == 0 {
        None
    } else if s.last() == '.' {
        Some(s.len() - 1)
    } else {
        last_dot(s.drop_last())
    }
}

proof fn lemma_last_dot(s: Seq<char>)
    ensures
        last_dot(s) matches Some(i) ==> 0 <= i < s.len() && s[i] == '.',
    decreases s.len(),
{
    if s.len() > 0 && s.last() != '.' {
        lemma_last_dot(s.drop_last());
    }
}

fn last_dot_index(v: &Vec<char>) -> (r: Option<usize>)
    ensures
        r matches Some(i) ==> last_dot(v@) == Some(i as int) && i < v@.len(),
        r is None ==> last_dot(v@) is None,
{
    proof {
        lemma_last_dot(v@);
    }
    let mut n: usize = v.len();
    assert(v@.take(n as int) =~= v@);
    while n > 0 && v[n - 1] != '.'
        invariant
            n <= v.len(),
            last_dot(v@) == last_dot(v@.take(n as int)),
        decreases n,
    {
        assert(v@.take(n as int).drop_last() =~= v@.take(n - 1));
        n = n - 1;
    }
    if n == 0 {
        None
    } else {
        Some(n - 1)
    }
}

/// A file name without its extension (`Path::file_stem`): before the last
/// dot, unless the only dot starts the name.
pub open spec fn stem_of(name: Seq<char>) -> Seq<char> {
    match last_dot(name) {
        Some(i) => if i > 0 {
            name.subrange(0, i)
        } else {
            name
        },
        None => name,
    }
}

/// The extension of a file name (`Path::extension`).
pub open spec fn extension_of(name: Seq<char>) -> Option<Seq<char>> {
    match last_dot(name) {
        Some(i) => if i > 0 {
            Some(name.subrange(i + 1, name.len() as int))
        } else {
            None
        },
        None => None,
    }
}

pub open spec fn file_stem_spec(path: Seq<char>) -> Option<Seq<char>> {
    match file_name(path) {
        Some(n) => Some(stem_of(n)),
        None => None,
    }
}

pub fn file_stem(path: &str) -> (r: Option<String>)
    ensures
        match file_stem_spec(path@) {
            Some(s) => r matches Some(v) && v@ == s,
            None => r is None,
        },
{
    let name = match file_name_from_path(path) {
        Some(n) => n,
        None => {
            return None;
        },
    };
    let v = chars_of(name.as_str());
    match last_dot_index(&v) {
        Some(i) => if i > 0 {
            Some(string_from(&crate::text::take_chars(&v, i)))
        } else {
            Some(name)
        },
        None => Some(name),
    }
}

/// A shortcut or internet link, opened through the shell.
pub open spec fn is_shell_spec(path: Seq<char>) -> bool {
    match file_name(path) {
        Some(n) => match extension_of(n) {
            Some(e) => lower(e) == "lnk"@ || lower(e) == "url"@,
            None => false,
        },
        None => false,
    }
}

pub fn is_shell_item(path: &str) -> (r: bool)
    ensures
        r == is_shell_spec(path@),
{
    let name = match file_name_from_path(path) {
        Some(n) => n,
        None => {
            return false;
        },
    };
    let v = chars_of(name.as_str());
    let vl = v.len();
    match last_dot_index(&v) {
        Some(i) => if i > 0 {
            let e = crate::text::drop_chars(&v, i + 1);
            let le = string_from(&lower_chars(&e));
            crate::text::str_eq(le.as_str(), "lnk") || crate::text::str_eq(le.as_str(), "url")
        } else {
            false
        },
        None => false,
    }
}

/// The names an executable is registered under in "App Paths": the name,
/// and the name with ".exe" when it lacks it.
pub open spec fn app_path_names_spec(p: Seq<char>) -> Seq<Seq<char>> {
    if ends_with(lower(p), ".exe"@) {
        seq![p]
    } else {
        seq![p, p + ".exe"@]
    }
}

pub fn app_path_names(process_name: &str) -> (r: Vec<String>)
    ensures
        views(r@) == app_path_names_spec(process_name@),
{
    let mut names: Vec<String> = Vec::new();
    names.push(copy_str(process_name));
    if !str_ends_with(to_lower(process_name).as_str(), ".exe") {
        names.push(join2(process_name, ".exe"));
    }
    assert(views(names@) =~= app_path_names_spec(process_name@));
    names
}

/// An installed program's display name names the app: it equals the app's
/// display name, or contains the executable's stem (letters and digits,
/// ASCII case ignored).
pub open spec fn installed_name_matches_spec(display: Seq<char>, app: AppConfig, pn: Seq<char>) -> bool {
    let stem = match file_stem_spec(pn) {
        Some(s) => s,
        None => pn,
    };
    normal_name(display) == normal_name(app.display_name@) || (normal_name(stem).len() > 0
        && contains(normal_name(display), normal_name(stem)))
}

pub fn installed_name_matches(display_name: &str, app: &AppConfig, process_name: &str) -> (r: bool)
    ensures
        r == installed_name_matches_spec(display_name@, *app, process_name@),
{
    let display = normalize_name(display_name);
    let app_name = normalize_name(app.display_name.as_str());
    let stem = match file_stem(process_name) {
        Some(s) => s,
        None => copy_str(process_name),
    };
    let process_stem = normalize_name(stem.as_str());
    crate::text::str_eq(display.as_str(), app_name.as_str()) || (crate::text::char_len(
        process_stem.as_str(),
    ) > 0 && str_contains(display.as_str(), process_stem.as_str()))
}

/// GitHub Desktop goes by several process names.
pub open spec fn github_alias(n: Seq<char>) -> bool {
    n == "github"@ || n == "githubexe"@ || n == "githubdesktop"@ || n == "githubdesktopexe"@
}

pub fn is_github_desktop_alias(normalized_process_name: &str) -> (r: bool)
    ensures
        r == github_alias(normalized_process_name@),
{
    let n = normalized_process_name;
    crate::text::str_eq(n, "github") || crate::text::str_eq(n, "githubexe")
        || crate::text::str_eq(n, "githubdesktop") || crate::text::str_eq(n, "githubdesktopexe")
}

/// A registry path cleaned of an icon index and quotes.
pub open spec fn clean_registry_path_spec(p: Seq<char>) -> Seq<char> {
    trim_char(trim(before_char(p, ',')), '"')
}

pub fn clean_registry_path(path: &str) -> (r: String)
    ensures
        r@ == clean_registry_path_spec(path@),
{
    let first = str_before_char(path, ',');
    let t = trim_str(first.as_str());
    str_trim_char(t.as_str(), '"')
}

/// Every "%NAME%" in `s` (ASCII case ignored) replaced by `value`.
pub open spec fn replace_token(s: Seq<char>, token: Seq<char>, value: Seq<char>) -> Seq<char>
    decreases s.len(),
{
    if token.len() == 0 {
        s
    } else {
        match first_occurrence_from(lower(s), lower(token), 0) {
            Some(i) => if 0 <= i && i + token.len() <= s.len() {
                s.subrange(0, i) + value + replace_token(
                    s.subrange(i + token.len(), s.len() as int),
                    token,
                    value,
                )
            } else {
                s
            },
            None => s,
        }
    }
}

pub open spec fn env_token(name: Seq<char>) -> Seq<char> {
    seq!['%'] + name + seq!['%']
}

pub fn replace_env_token(input: &str, name: &str, value: &str) -> (r: String)
    ensures
        r@ == replace_token(input@, env_token(name@), value@),
{
    let token = join2(join2("%", name).as_str(), "%");
    proof {
        reveal_strlit("%");
        assert(token@ =~= env_token(name@));
    }
    let t = chars_of(token.as_str());
    let lt = lower_chars(&t);
    let val = chars_of(value);
    let mut rest = chars_of(input);
    let mut out: Vec<char> = Vec::new();
    let ghost s = input@;
    assert(out@ + replace_token(rest@, t@, val@) =~= replace_token(s, t@, val@));
    loop
        invariant
            t@ == env_token(name@),
            lt@ == lower(t@),
            val@ == value@,
            out@ + replace_token(rest@, t@, val@) == replace_token(s, t@, val@),
        ensures
            out@ + rest@ == replace_token(s, t@, val@),
        decreases rest@.len(),
    {
        let lrest = lower_chars(&rest);
        let rl = rest.len();
        let tl = t.len();
        let found = first_occurrence(&lrest, &lt);
        match found {
            Some(i) => {
                proof {
                    assert(lower(rest@).len() == rest@.len());
                    assert(lt@.len() == t@.len());
                    assert(crate::text::occurs_at(lrest@, lt@, i as int));
                    assert(i + lt@.len() <= lrest@.len());
                }
                if i + tl > rl {
                    proof {
                        assert(false);
                    }
                    break;
                }
                let head = crate::text::take_chars(&rest, i);
                let tail = crate::text::drop_chars(&rest, i + t.len());
                let ghost old_rest = rest@;
                let ghost old_out = out@;
                let mut k: usize = 0;
                while k < head.len()
                    invariant
                        k <= head.len(),
                        out@ == old_out + head@.take(k as int),
                    decreases head.len() - k,
                {
                    out.push(head[k]);
                    k = k + 1;
                    assert(out@ =~= old_out + head@.take(k as int));
                }
                let mut m: usize = 0;
                while m < val.len()
                    invariant
                        m <= val.len(),
                        out@ == old_out + head@ + val@.take(m as int),
                    decreases val.len() - m,
                {
                    out.push(val[m]);
                    m = m + 1;
                    assert(out@ =~= old_out + head@ + val@.take(m as int));
                }
                assert(head@.take(head.len() as int) =~= head@);
                assert(val@.take(val.len() as int) =~= val@);
                proof {
                    assert(tail@ == old_rest.subrange(i + t@.len(), old_rest.len() as int));
                    assert(replace_token(old_rest, t@, val@) == old_rest.subrange(0, i as int)
                        + val@ + replace_token(tail@, t@, val@));
                    assert(out@ + replace_token(tail@, t@, val@) =~= old_out + replace_token(
                        old_rest,
                        t@,
                        val@,
                    ));
                }
                rest = tail;
            },
            None => {
                proof {
                    assert(replace_token(rest@, t@, val@) == rest@);
                }
                break;
            },
        }
    }
    let mut k: usize = 0;
    let ghost before = out@;
    while k < rest.len()
        invariant
            k <= rest.len(),
            out@ == before + rest@.take(k as int),
        decreases rest.len() - k,
    {
        out.push(rest[k]);
        k = k + 1;
        assert(out@ =~= before + rest@.take(k as int));
    }
    assert(rest@.take(rest.len() as int) =~= rest@);
    string_from(&out)
}

/// `path` with every "%NAME%" of the first `n` variables replaced, in order.
pub open spec fn expand_spec(p: Seq<char>, vars: Seq<(String, String)>, n: int) -> Seq<char>
    decreases n,
{
    if n <= 0 {
        p
    } else {
        replace_token(expand_spec(p, vars, n - 1), env_token(vars[n - 1].0@), vars[n - 1].1@)
    }
}

pub fn expand_environment(path: &str, env: &LaunchEnvironment) -> (r: String)
    ensures
        r@ == expand_spec(path@, env.vars@, env.vars@.len() as int),
{
    let mut output = copy_str(path);
    let mut i: usize = 0;
    while i < env.vars.len()
        invariant
            i <= env.vars.len(),
            output@ == expand_spec(path@, env.vars@, i as int),
        decreases env.vars.len() - i,
    {
        output = replace_env_token(output.as_str(), env.vars[i].0.as_str(), env.vars[i].1.as_str());
        i = i + 1;
    }
    output
}

/// The value of an environment variable (names compared ignoring ASCII
/// case, the first one found wins), none when it is unset or empty.
pub open spec fn env_index(vars: Seq<(String, String)>, name: Seq<char>, i: int) -> Option<int>
    decreases vars.len() - i,
{
    if i < 0 || i >= vars.len() {
        None
    } else if lower(vars[i].0@) == lower(name) {
        Some(i)
    } else {
        env_index(vars, name, i + 1)
    }
}

pub open spec fn env_value(vars: Seq<(String, String)>, name: Seq<char>) -> Option<Seq<char>> {
    match env_index(vars, name, 0) {
        Some(k) => if vars[k].1@.len() == 0 {
            None
        } else {
            Some(vars[k].1@)
        },
        None => None,
    }
}

proof fn lemma_env_index(vars: Seq<(String, String)>, name: Seq<char>, i: int)
    ensures
        env_index(vars, name, i) matches Some(k) ==> i <= k < vars.len(),
    decreases vars.len() - i,
{
    if 0 <= i < vars.len() && lower(vars[i].0@) != lower(name) {
        lemma_env_index(vars, name, i + 1);
    }
}

impl LaunchEnvironment {
    /// A variable's value when it is set and not empty.
    pub fn path_var(&self, name: &str) -> (r: Option<String>)
        ensures
            match env_value(self.vars@, name@) {
                Some(v) => r matches Some(x) && x@ == v,
                None => r is None,
            },
    {
        proof {
            lemma_env_index(self.vars@, name@, 0);
        }
        let mut i: usize = 0;
        while i < self.vars.len()
            invariant
                i <= self.vars.len(),
                env_index(self.vars@, name@, 0) == env_index(self.vars@, name@, i as int),
            decreases self.vars.len() - i,
        {
            if eq_ignore_case(self.vars[i].0.as_str(), name) {
                if crate::text::char_len(self.vars[i].1.as_str()) == 0 {
                    return None;
                }
                return Some(self.vars[i].1.clone());
            }
            i = i + 1;
        }
        None
    }
}

/// The path a candidate is tried under: trimmed, its variables expanded,
/// trimmed again and unquoted; none when nothing is left.
pub open spec fn path_candidate(p: Seq<char>, vars: Seq<(String, String)>) -> Option<Seq<char>> {
    if blank(p) {
        None
    } else {
        let e = trim_char(trim(expand_spec(trim(p), vars, vars.len() as int)), '"');
        if e.len() == 0 {
            None
        } else {
            Some(e)
        }
    }
}

/// What a candidate source stands for: (is a folder scan, path or folder,
/// executable name of a scan, opened through the shell).
pub open spec fn source_view(c: CandidateSource) -> (bool, Seq<char>, Seq<char>, bool) {
    match c {
        CandidateSource::Target(t) => (false, t.path@, Seq::empty(), t.use_shell),
        CandidateSource::SquirrelScan { root, process_name } => (true, root@, process_name@, false),
    }
}

pub open spec fn no_arguments(c: CandidateSource) -> bool {
    c matches CandidateSource::Target(t) ==> t.arguments@.len() == 0
}

pub open spec fn sources_view(v: Seq<CandidateSource>) -> Seq<(bool, Seq<char>, Seq<char>, bool)> {
    Seq::new(v.len(), |k: int| source_view(v[k]))
}

pub open spec fn target_step(p: Seq<char>, vars: Seq<(String, String)>) -> Seq<(bool, Seq<char>, Seq<char>, bool)> {
    match path_candidate(p, vars) {
        Some(e) => seq![(false, e, Seq::<char>::empty(), is_shell_spec(e))],
        None => Seq::empty(),
    }
}

pub open spec fn scan_step(root: Seq<char>, name: Seq<char>) -> Seq<(bool, Seq<char>, Seq<char>, bool)> {
    seq![(true, root, name, false)]
}

fn push_path_candidate(candidates: &mut Vec<CandidateSource>, path: &str, env: &LaunchEnvironment)
    ensures
        final(candidates)@.len() <= old(candidates)@.len() + 1,
        sources_view(final(candidates)@) == sources_view(old(candidates)@) + target_step(
            path@,
            env.vars@,
        ),
        forall|k: int| 0 <= k < old(candidates)@.len() ==> final(candidates)@[k] == old(candidates)@[k],
        forall|k: int|
            old(candidates)@.len() <= k < final(candidates)@.len() ==> no_arguments(
                #[trigger] final(candidates)@[k],
            ),
{
    if is_blank(path) {
        assert(sources_view(candidates@) =~= sources_view(old(candidates)@) + target_step(
            path@,
            env.vars@,
        ));
        return;
    }
    let expanded = expand_environment(trim_str(path).as_str(), env);
    let cleaned = str_trim_char(trim_str(expanded.as_str()).as_str(), '"');
    if crate::text::char_len(cleaned.as_str()) == 0 {
        assert(sources_view(candidates@) =~= sources_view(old(candidates)@) + target_step(
            path@,
            env.vars@,
        ));
        return;
    }
    let shell = is_shell_item(cleaned.as_str());
    candidates.push(
        CandidateSource::Target(LaunchTarget { path: cleaned, arguments: Vec::new(), use_shell: shell }),
    );
    assert(sources_view(candidates@) =~= sources_view(old(candidates)@) + target_step(
        path@,
        env.vars@,
    ));
}

fn push_scan(candidates: &mut Vec<CandidateSource>, root: String, process_name: &str)
    ensures
        sources_view(final(candidates)@) == sources_view(old(candidates)@) + scan_step(
            root@,
            process_name@,
        ),
        forall|k: int| 0 <= k < old(candidates)@.len() ==> final(candidates)@[k] == old(candidates)@[k],
        forall|k: int|
            old(candidates)@.len() <= k < final(candidates)@.len() ==> no_arguments(
                #[trigger] final(candidates)@[k],
            ),
{
    let ghost r = root@;
    candidates.push(CandidateSource::SquirrelScan { root, process_name: copy_str(process_name) });
    assert(sources_view(candidates@) =~= sources_view(old(candidates)@) + scan_step(
        r,
        process_name@,
    ));
}

/// The non-blank values among `vs`, each once, in order.
pub open spec fn unique_spec(vs: Seq<Seq<char>>) -> Seq<Seq<char>>
    decreases vs.len(),
{
    if vs.len() == 0 {
        Seq::empty()
    } else {
        let prev = unique_spec(vs.drop_last());
        if blank(vs.last()) || prev.contains(vs.last()) {
            prev
        } else {
            prev.push(vs.last())
        }
    }
}

pub fn unique_strings(values: Vec<String>) -> (r: Vec<String>)
    ensures
        views(r@) == unique_spec(views(values@)),
{
    let mut unique: Vec<String> = Vec::new();
    let mut i: usize = 0;
    while i < values.len()
        invariant
            i <= values.len(),
            views(unique@) == unique_spec(views(values@).take(i as int)),
        decreases values.len() - i,
    {
        assert(views(values@).take(i + 1).drop_last() =~= views(values@).take(i as int));
        assert(views(values@).take(i + 1).last() == values@[i as int]@);
        let v = &values[i];
        let mut present = false;
        let mut j: usize = 0;
        while j < unique.len()
            invariant
                j <= unique.len(),
                present == exists|t: int| 0 <= t < j && unique@[t]@ == v@,
            decreases unique.len() - j,
        {
            if crate::text::str_eq(unique[j].as_str(), v.as_str()) {
                present = true;
            }
            j = j + 1;
        }
        proof {
            if present {
                let t = choose|t: int| 0 <= t < unique@.len() && unique@[t]@ == v@;
                assert(views(unique@)[t] == v@);
            } else {
                assert forall|t: int| 0 <= t < views(unique@).len() implies views(unique@)[t] != v@ by {
                    assert(views(unique@)[t] == unique@[t]@);
                }
            }
        }
        let ghost prev = unique@;
        if !(is_blank(v.as_str()) || present) {
            unique.push(v.clone());
            assert(views(unique@) =~= views(prev).push(v@));
        }
        i = i + 1;
    }
    assert(views(values@).take(values.len() as int) =~= views(values@));
    unique
}

pub open spec fn remove_spaces(s: Seq<char>) -> Seq<char>
    decreases s.len(),
{
    if s.len() == 0 {
        s
    } else if s.last() == ' ' {
        remove_spaces(s.drop_last())
    } else {
        remove_spaces(s.drop_last()).push(s.last())
    }
}

fn without_spaces(s: &str) -> (r: String)
    ensures
        r@ == remove_spaces(s@),
{
    let v = chars_of(s);
    let mut out: Vec<char> = Vec::new();
    let mut i: usize = 0;
    while i < v.len()
        invariant
            i <= v.len(),
            out@ == remove_spaces(v@.take(i as int)),
        decreases v.len() - i,
    {
        assert(v@.take(i + 1).drop_last() =~= v@.take(i as int));
        if v[i] != ' ' {
            out.push(v[i]);
        }
        i = i + 1;
    }
    assert(v@.take(v.len() as int) =~= v@);
    string_from(&out)
}

/// The folder names an app is looked for under: its display name, the
/// display name without spaces, and the executable's stem (each once).
pub open spec fn folder_names_spec(app: AppConfig, pn: Seq<char>) -> Seq<Seq<char>> {
    let d = trim(app.display_name@);
    let stem = match file_stem_spec(pn) {
        Some(s) => s,
        None => pn,
    };
    unique_spec(seq![d, remove_spaces(d), stem])
}

pub open spec fn some_list(o: Option<Seq<char>>) -> Seq<Seq<char>> {
    match o {
        Some(v) => seq![v],
        None => Seq::empty(),
    }
}

/// The folders programs are installed under: the user's local and roaming
/// application data and the program files folders that are set.
pub open spec fn install_roots_spec(vars: Seq<(String, String)>) -> Seq<Seq<char>> {
    some_list(env_value(vars, "LOCALAPPDATA"@)) + some_list(env_value(vars, "APPDATA"@))
        + some_list(env_value(vars, "ProgramFiles"@)) + some_list(
        env_value(vars, "ProgramFiles(x86)"@),
    )
}

fn push_some(v: &mut Vec<String>, o: Option<String>)
    ensures
        views(final(v)@) == views(old(v)@) + some_list(
            match o {
                Some(x) => Some(x@),
                None => None,
            },
        ),
{
    match o {
        Some(x) => {
            let ghost xv = x@;
            v.push(x);
            assert(views(v@) =~= views(old(v)@) + seq![xv]);
        },
        None => {
            assert(views(v@) =~= views(old(v)@) + Seq::<Seq<char>>::empty());
        },
    }
}

pub fn common_install_roots(env: &LaunchEnvironment) -> (r: Vec<String>)
    ensures
        views(r@) == install_roots_spec(env.vars@),
{
    let mut roots: Vec<String> = Vec::new();
    push_some(&mut roots, env.path_var("LOCALAPPDATA"));
    push_some(&mut roots, env.path_var("APPDATA"));
    push_some(&mut roots, env.path_var("ProgramFiles"));
    push_some(&mut roots, env.path_var("ProgramFiles(x86)"));
    assert(views(roots@) =~= install_roots_spec(env.vars@));
    roots
}

pub open spec fn folder_steps(
    root: Seq<char>,
    folders: Seq<Seq<char>>,
    n: int,
    pn: Seq<char>,
    vars: Seq<(String, String)>,
) -> Seq<(bool, Seq<char>, Seq<char>, bool)>
    decreases n,
{
    if n <= 0 {
        Seq::empty()
    } else {
        let f = folders[n - 1];
        folder_steps(root, folders, n - 1, pn, vars) + target_step(
            join_path(join_path(root, f), pn),
            vars,
        ) + target_step(join_path(join_path(join_path(root, "Programs"@), f), pn), vars)
            + scan_step(join_path(root, f), pn)
    }
}

pub open spec fn root_steps(
    roots: Seq<Seq<char>>,
    folders: Seq<Seq<char>>,
    n: int,
    pn: Seq<char>,
    vars: Seq<(String, String)>,
) -> Seq<(bool, Seq<char>, Seq<char>, bool)>
    decreases n,
{
    if n <= 0 {
        Seq::empty()
    } else {
        root_steps(roots, folders, n - 1, pn, vars) + folder_steps(
            roots[n - 1],
            folders,
            folders.len() as int,
            pn,
            vars,
        )
    }
}

pub open spec fn github_steps(pn: Seq<char>, vars: Seq<(String, String)>) -> Seq<(bool, Seq<char>, Seq<char>, bool)> {
    if github_alias(normal_name(pn)) {
        match env_value(vars, "LOCALAPPDATA"@) {
            Some(l) => target_step(join_path(join_path(l, "GitHubDesktop"@), "GitHubDesktop.exe"@), vars)
                + scan_step(join_path(l, "GitHubDesktop"@), "GitHubDesktop.exe"@) + target_step(
                join_path(join_path(join_path(l, "Programs"@), "GitHub Desktop"@), "GitHubDesktop.exe"@),
                vars,
            ),
            None => Seq::empty(),
        }
    } else {
        Seq::empty()
    }
}

pub open spec fn discord_steps(pn: Seq<char>, vars: Seq<(String, String)>) -> Seq<(bool, Seq<char>, Seq<char>, bool)> {
    if normal_name(pn) == "discord"@ || normal_name(pn) == "discordexe"@ {
        match env_value(vars, "LOCALAPPDATA"@) {
            Some(l) => scan_step(join_path(l, "Discord"@), "Discord.exe"@),
            None => Seq::empty(),
        }
    } else {
        Seq::empty()
    }
}

pub open spec fn obs_steps(pn: Seq<char>, vars: Seq<(String, String)>) -> Seq<(bool, Seq<char>, Seq<char>, bool)> {
    if normal_name(pn) == "obs64"@ || normal_name(pn) == "obs64exe"@ {
        match env_value(vars, "ProgramFiles"@) {
            Some(p) => target_step(
                join_path(
                    join_path(join_path(join_path(p, "obs-studio"@), "bin"@), "64bit"@),
                    "obs64.exe"@,
                ),
                vars,
            ),
            None => Seq::empty(),
        }
    } else {
        Seq::empty()
    }
}

/// Where an app is looked for in the usual install folders: for every
/// install root and folder name (see `folder_names_spec`), the executable in
/// the folder, in "Programs" under the root, and the folder's version
/// folders; then the known homes of GitHub Desktop, Discord and OBS.
pub open spec fn known_install_spec(app: AppConfig, pn: Seq<char>, vars: Seq<(String, String)>) -> Seq<(bool, Seq<char>, Seq<char>, bool)> {
    let roots = install_roots_spec(vars);
    root_steps(roots, folder_names_spec(app, pn), roots.len() as int, pn, vars) + github_steps(
        pn,
        vars,
    ) + discord_steps(pn, vars) + obs_steps(pn, vars)
}

pub fn known_install_candidates(app: &AppConfig, process_name: &str, env: &LaunchEnvironment) -> (r:
    Vec<CandidateSource>)
    ensures
        sources_view(r@) == known_install_spec(*app, process_name@, env.vars@),
        forall|k: int| 0 <= k < r@.len() ==> no_arguments(#[trigger] r@[k]),
{
    let mut candidates: Vec<CandidateSource> = Vec::new();
    let stem = match file_stem(process_name) {
        Some(s) => s,
        None => copy_str(process_name),
    };
    let display = trim_str(app.display_name.as_str());
    let compact = without_spaces(display.as_str());
    let mut names: Vec<String> = Vec::new();
    names.push(display);
    names.push(compact);
    names.push(stem);
    proof {
        assert(views(names@) =~= seq![
            trim(app.display_name@),
            remove_spaces(trim(app.display_name@)),
            match file_stem_spec(process_name@) {
                Some(s) => s,
                None => process_name@,
            },
        ]);
    }
    let ghost nv = views(names@);
    let folders = unique_strings(names);
    assert(views(folders@) == unique_spec(nv));
    assert(nv == seq![
        trim(app.display_name@),
        remove_spaces(trim(app.display_name@)),
        match file_stem_spec(process_name@) {
            Some(s) => s,
            None => process_name@,
        },
    ]);
    proof {
        let d = trim(app.display_name@);
        let st = match file_stem_spec(process_name@) {
            Some(x) => x,
            None => process_name@,
        };
        let l = seq![d, remove_spaces(d), st];
        assert(nv == l);
        assert(folder_names_spec(*app, process_name@) == unique_spec(l));
    }
    assert(views(folders@) == folder_names_spec(*app, process_name@));
    let roots = common_install_roots(env);
    let mut i: usize = 0;
    while i < roots.len()
        invariant
            i <= roots.len(),
            views(folders@) == folder_names_spec(*app, process_name@),
            views(roots@) == install_roots_spec(env.vars@),
            sources_view(candidates@) == root_steps(
                views(roots@),
                views(folders@),
                i as int,
                process_name@,
                env.vars@,
            ),
            forall|k: int| 0 <= k < candidates@.len() ==> no_arguments(#[trigger] candidates@[k]),
        decreases roots.len() - i,
    {
        let ghost base = sources_view(candidates@);
        let mut j: usize = 0;
        while j < folders.len()
            invariant
                i < roots.len(),
                j <= folders.len(),
                views(folders@) == folder_names_spec(*app, process_name@),
                views(roots@) == install_roots_spec(env.vars@),
                sources_view(candidates@) == base + folder_steps(
                    views(roots@)[i as int],
                    views(folders@),
                    j as int,
                    process_name@,
                    env.vars@,
                ),
                forall|k: int| 0 <= k < candidates@.len() ==> no_arguments(#[trigger] candidates@[k]),
            decreases folders.len() - j,
        {
            let root = &roots[i];
            let folder = &folders[j];
            let ghost before = sources_view(candidates@);
            let in_root = path_join(root.as_str(), folder.as_str());
            push_path_candidate(&mut candidates, path_join(in_root.as_str(), process_name).as_str(), env);
            let programs = path_join(path_join(root.as_str(), "Programs").as_str(), folder.as_str());
            push_path_candidate(&mut candidates, path_join(programs.as_str(), process_name).as_str(), env);
            push_scan(&mut candidates, in_root, process_name);
            proof {
                assert(views(roots@)[i as int] == roots@[i as int]@);
                assert(views(folders@)[j as int] == folders@[j as int]@);
                assert(sources_view(candidates@) =~= base + folder_steps(
                    views(roots@)[i as int],
                    views(folders@),
                    j + 1,
                    process_name@,
                    env.vars@,
                ));
            }
            j = j + 1;
        }
        proof {
            assert(sources_view(candidates@) =~= root_steps(
                views(roots@),
                views(folders@),
                i + 1,
                process_name@,
                env.vars@,
            ));
        }
        i = i + 1;
    }
    let ghost after_roots = sources_view(candidates@);
    let normalized = normalize_name(process_name);
    if is_github_desktop_alias(normalized.as_str()) {
        if let Some(local) = env.path_var("LOCALAPPDATA") {
            let gh = path_join(local.as_str(), "GitHubDesktop");
            push_path_candidate(&mut candidates, path_join(gh.as_str(), "GitHubDesktop.exe").as_str(), env);
            push_scan(&mut candidates, gh, "GitHubDesktop.exe");
            let programs = path_join(path_join(local.as_str(), "Programs").as_str(), "GitHub Desktop");
            push_path_candidate(
                &mut candidates,
                path_join(programs.as_str(), "GitHubDesktop.exe").as_str(),
                env,
            );
        }
    }
    assert(sources_view(candidates@) =~= after_roots + github_steps(process_name@, env.vars@));
    let ghost after_github = sources_view(candidates@);
    if crate::text::str_eq(normalized.as_str(), "discord") || crate::text::str_eq(
        normalized.as_str(),
        "discordexe",
    ) {
        if let Some(local) = env.path_var("LOCALAPPDATA") {
            push_scan(&mut candidates, path_join(local.as_str(), "Discord"), "Discord.exe");
        }
    }
    assert(sources_view(candidates@) =~= after_github + discord_steps(process_name@, env.vars@));
    let ghost after_discord = sources_view(candidates@);
    if crate::text::str_eq(normalized.as_str(), "obs64") || crate::text::str_eq(
        normalized.as_str(),
        "obs64exe",
    ) {
        if let Some(program_files) = env.path_var("ProgramFiles") {
            let a = path_join(program_files.as_str(), "obs-studio");
            let b = path_join(a.as_str(), "bin");
            let c = path_join(b.as_str(), "64bit");
            push_path_candidate(&mut candidates, path_join(c.as_str(), "obs64.exe").as_str(), env);
        }
    }
    assert(sources_view(candidates@) =~= after_discord + obs_steps(process_name@, env.vars@));
    candidates
}

/// Two targets are the same when their paths agree ignoring ASCII case and
/// their arguments and shell use agree.
pub open spec fn same_target(a: LaunchTarget, b: LaunchTarget) -> bool {
    lower(a.path@) == lower(b.path@) && views(a.arguments@) == views(b.arguments@) && a.use_shell
        == b.use_shell
}

pub open spec fn has_same(v: Seq<LaunchTarget>, t: LaunchTarget) -> bool {
    exists|k: int| 0 <= k < v.len() && same_target(#[trigger] v[k], t)
}

/// The targets with later repeats dropped.
pub open spec fn dedupe_spec(v: Seq<LaunchTarget>) -> Seq<LaunchTarget>
    decreases v.len(),
{
    if v.len() == 0 {
        v
    } else {
        let prev = dedupe_spec(v.drop_last());
        if has_same(prev, v.last()) {
            prev
        } else {
            prev.push(v.last())
        }
    }
}

fn same_strings(a: &Vec<String>, b: &Vec<String>) -> (r: bool)
    ensures
        r == (views(a@) == views(b@)),
{
    if a.len() != b.len() {
        assert(views(a@).len() != views(b@).len());
        return false;
    }
    let mut i: usize = 0;
    while i < a.len()
        invariant
            i <= a.len(),
            a.len() == b.len(),
            forall|k: int| 0 <= k < i ==> a@[k]@ == b@[k]@,
        decreases a.len() - i,
    {
        if !crate::text::str_eq(a[i].as_str(), b[i].as_str()) {
            assert(views(a@)[i as int] != views(b@)[i as int]);
            return false;
        }
        i = i + 1;
    }
    assert(views(a@) =~= views(b@));
    true
}

fn is_same_target(a: &LaunchTarget, b: &LaunchTarget) -> (r: bool)
    ensures
        r == same_target(*a, *b),
{
    crate::text::str_eq(to_lower(a.path.as_str()).as_str(), to_lower(b.path.as_str()).as_str())
        && same_strings(&a.arguments, &b.arguments) && a.use_shell == b.use_shell
}

pub fn dedupe_candidates(candidates: Vec<LaunchTarget>) -> (r: Vec<LaunchTarget>)
    ensures
        r@ == dedupe_spec(candidates@),
{
    let ghost orig = candidates@;
    let mut rest = candidates;
    let mut unique: Vec<LaunchTarget> = Vec::new();
    let ghost mut i: int = 0;
    assert(orig.skip(0) =~= orig);
    while rest.len() > 0
        invariant
            0 <= i <= orig.len(),
            rest@ == orig.skip(i),
            unique@ == dedupe_spec(orig.take(i)),
        decreases rest@.len(),
    {
        assert(orig.take(i + 1).drop_last() =~= orig.take(i));
        let c = rest.remove(0);
        assert(c == orig[i]);
        assert(rest@ =~= orig.skip(i + 1));
        let mut found = false;
        let mut j: usize = 0;
        while j < unique.len()
            invariant
                j <= unique.len(),
                found == exists|k: int| 0 <= k < j && same_target(#[trigger] unique@[k], c),
            decreases unique.len() - j,
        {
            if is_same_target(&unique[j], &c) {
                found = true;
            }
            j = j + 1;
        }
        if !found {
            unique.push(c);
        }
        proof {
            i = i + 1;
        }
    }
    assert(orig.take(i) =~= orig);
    unique
}

/// The process name an app is launched as: its trimmed process name, else
/// its executable's file name.
pub open spec fn launch_process_name(app: AppConfig) -> Option<Seq<char>> {
    match app.process_name {
        Some(n) if !blank(n@) => Some(trim(n@)),
        _ => match app.executable_path {
            Some(p) => file_name(p@),
            None => None,
        },
    }
}

pub fn configured_process_name(app: &AppConfig) -> (r: Option<String>)
    ensures
        match launch_process_name(*app) {
            Some(n) => r matches Some(v) && v@ == n,
            None => r is None,
        },
{
    if let Some(n) = &app.process_name {
        if !is_blank(n.as_str()) {
            return Some(trim_str(n.as_str()));
        }
    }
    match &app.executable_path {
        Some(p) => file_name_from_path(p.as_str()),
        None => None,
    }
}

/// The error when no way to start an app was found.
pub fn no_launch_target_message(display_name: &str) -> (r: String)
    ensures
        r@ == "Could not find a launch target for "@ + display_name@,
{
    join2("Could not find a launch target for ", display_name)
}

/// The registry key an executable is registered under in "App Paths".
pub fn app_paths_key(name: &str) -> (r: String)
    ensures
        r@ == "Software\\Microsoft\\Windows\\CurrentVersion\\App Paths\\"@ + name@,
{
    join2("Software\\Microsoft\\Windows\\CurrentVersion\\App Paths\\", name)
}

/// A path registered in "App Paths", as a launch target.
pub fn app_path_target(value: &str, env: &LaunchEnvironment) -> (r: LaunchTarget)
    ensures
        r.path@ == expand_spec(value@, env.vars@, env.vars@.len() as int),
        r.arguments@.len() == 0,
        !r.use_shell,
{
    LaunchTarget { path: expand_environment(value, env), arguments: Vec::new(), use_shell: false }
}

/// An installed program as the uninstall registry lists it.
#[derive(Debug, Clone, PartialEq, Eq)]
pub struct UninstallEntry {
    pub display_name: String,
    pub display_icon: Option<String>,
    pub install_location: Option<String>,
}

pub open spec fn entry_steps(e: UninstallEntry, app: AppConfig, pn: Seq<char>, vars: Seq<(String, String)>) -> Seq<(bool, Seq<char>, Seq<char>, bool)> {
    if !installed_name_matches_spec(e.display_name@, app, pn) {
        Seq::empty()
    } else {
        (match e.display_icon {
            Some(i) => target_step(clean_registry_path_spec(i@), vars),
            None => Seq::empty(),
        }) + (match e.install_location {
            Some(l) => target_step(join_path(clean_registry_path_spec(l@), pn), vars),
            None => Seq::empty(),
        })
    }
}

pub open spec fn entries_steps(es: Seq<UninstallEntry>, n: int, app: AppConfig, pn: Seq<char>, vars: Seq<(String, String)>) -> Seq<(bool, Seq<char>, Seq<char>, bool)>
    decreases n,
{
    if n <= 0 {
        Seq::empty()
    } else {
        entries_steps(es, n - 1, app, pn, vars) + entry_steps(es[n - 1], app, pn, vars)
    }
}

/// The candidates an app's entries in the uninstall registry give: for every
/// entry naming the app (see `installed_name_matches_spec`), its icon's
/// program and the executable in its install folder.
pub fn uninstall_candidates(
    app: &AppConfig,
    process_name: &str,
    entries: &Vec<UninstallEntry>,
    env: &LaunchEnvironment,
) -> (r: Vec<CandidateSource>)
    ensures
        sources_view(r@) == entries_steps(entries@, entries@.len() as int, *app, process_name@, env.vars@),
        forall|k: int| 0 <= k < r@.len() ==> no_arguments(#[trigger] r@[k]),
{
    let mut candidates: Vec<CandidateSource> = Vec::new();
    let mut i: usize = 0;
    while i < entries.len()
        invariant
            i <= entries.len(),
            sources_view(candidates@) == entries_steps(entries@, i as int, *app, process_name@, env.vars@),
            forall|k: int| 0 <= k < candidates@.len() ==> no_arguments(#[trigger] candidates@[k]),
        decreases entries.len() - i,
    {
        let e = &entries[i];
        let ghost before = sources_view(candidates@);
        if installed_name_matches(e.display_name.as_str(), app, process_name) {
            if let Some(icon) = &e.display_icon {
                push_path_candidate(&mut candidates, clean_registry_path(icon.as_str()).as_str(), env);
            }
            let ghost mid = sources_view(candidates@);
            if let Some(location) = &e.install_location {
                let l = clean_registry_path(location.as_str());
                push_path_candidate(&mut candidates, path_join(l.as_str(), process_name).as_str(), env);
            }
            proof {
                assert(sources_view(candidates@) =~= before + entry_steps(*e, *app, process_name@, env.vars@));
            }
        } else {
            assert(sources_view(candidates@) =~= before + entry_steps(*e, *app, process_name@, env.vars@));
        }
        i = i + 1;
    }
    candidates
}

/// The names a Start menu shortcut is matched against: the app's display
/// name and its executable's stem, normalized (each once).
pub open spec fn shortcut_targets_spec(app: AppConfig, pn: Seq<char>) -> Seq<Seq<char>> {
    let stem = match file_stem_spec(pn) {
        Some(s) => s,
        None => pn,
    };
    unique_spec(seq![normal_name(app.display_name@), normal_name(stem)])
}

pub fn shortcut_targets(app: &AppConfig, process_name: &str) -> (r: Vec<String>)
    ensures
        views(r@) == shortcut_targets_spec(*app, process_name@),
{
    let stem = match file_stem(process_name) {
        Some(s) => s,
        None => copy_str(process_name),
    };
    let mut names: Vec<String> = Vec::new();
    names.push(normalize_name(app.display_name.as_str()));
    names.push(normalize_name(stem.as_str()));
    let ghost nv = views(names@);
    let r = unique_strings(names);
    proof {
        let st = match file_stem_spec(process_name@) {
            Some(x) => x,
            None => process_name@,
        };
        let l = seq![normal_name(app.display_name@), normal_name(st)];
        assert(nv == l);
        assert(shortcut_targets_spec(*app, process_name@) == unique_spec(l));
    }
    r
}

/// A Start menu entry that starts the app: a shortcut or link whose name
/// (normalized) equals a target or contains a non-empty one.
pub open spec fn shortcut_matches_spec(path: Seq<char>, targets: Seq<Seq<char>>) -> bool {
    match file_name(path) {
        Some(n) => {
            let ext = extension_of(n);
            (ext matches Some(e) && (lower(e) == "lnk"@ || lower(e) == "url"@)) && exists|k: int|
                0 <= k < targets.len() && (normal_name(stem_of(n)) == #[trigger] targets[k] || (
                targets[k].len() > 0 && contains(normal_name(stem_of(n)), targets[k])))
        },
        None => false,
    }
}

pub fn shortcut_matches(path: &str, targets: &Vec<String>) -> (r: bool)
    ensures
        r == shortcut_matches_spec(path@, views(targets@)),
{
    if !is_shell_item(path) {
        return false;
    }
    let stem = match file_stem(path) {
        Some(s) => normalize_name(s.as_str()),
        None => {
            return false;
        },
    };
    let ghost n0 = file_name(path@)->0;
    assert(file_name(path@) is Some);
    assert(stem@ == normal_name(stem_of(n0)));
    let mut i: usize = 0;
    while i < targets.len()
        invariant
            i <= targets.len(),
            file_name(path@) == Some(n0),
            is_shell_spec(path@),
            stem@ == normal_name(stem_of(n0)),
            forall|k: int|
                0 <= k < i ==> !(stem@ == #[trigger] views(targets@)[k] || (views(targets@)[k].len()
                    > 0 && contains(stem@, views(targets@)[k]))),
        decreases targets.len() - i,
    {
        let t = &targets[i];
        assert(views(targets@)[i as int] == t@);
        if crate::text::str_eq(stem.as_str(), t.as_str()) || (crate::text::char_len(t.as_str()) > 0
            && str_contains(stem.as_str(), t.as_str())) {
            proof {
                let n = file_name(path@)->0;
                assert(stem@ == normal_name(stem_of(n)));
                assert(0 <= i < views(targets@).len() && (normal_name(stem_of(n)) == views(
                    targets@,
                )[i as int] || (views(targets@)[i as int].len() > 0 && contains(
                    normal_name(stem_of(n)),
                    views(targets@)[i as int],
                ))));
            }
            return true;
        }
        i = i + 1;
    }
    false
}

/// The Start menu folders searched for shortcuts: the user's and all users'.
pub open spec fn start_menu_roots_spec(vars: Seq<(String, String)>) -> Seq<Seq<char>> {
    let tail = |b: Seq<char>|
        join_path(
            join_path(join_path(join_path(b, "Microsoft"@), "Windows"@), "Start Menu"@),
            "Programs"@,
        );
    (match env_value(vars, "APPDATA"@) {
        Some(a) => seq![tail(a)],
        None => Seq::empty(),
    }) + (match env_value(vars, "ProgramData"@) {
        Some(p) => seq![tail(p)],
        None => Seq::empty(),
    })
}

fn start_menu_folder(base: &str) -> (r: String)
    ensures
        r@ == join_path(
            join_path(join_path(join_path(base@, "Microsoft"@), "Windows"@), "Start Menu"@),
            "Programs"@,
        ),
{
    let a = path_join(base, "Microsoft");
    let b = path_join(a.as_str(), "Windows");
    let c = path_join(b.as_str(), "Start Menu");
    path_join(c.as_str(), "Programs")
}

pub fn start_menu_roots(env: &LaunchEnvironment) -> (r: Vec<String>)
    ensures
        views(r@) == start_menu_roots_spec(env.vars@),
{
    let mut roots: Vec<String> = Vec::new();
    if let Some(app_data) = env.path_var("APPDATA") {
        roots.push(start_menu_folder(app_data.as_str()));
    }
    if let Some(program_data) = env.path_var("ProgramData") {
        roots.push(start_menu_folder(program_data.as_str()));
    }
    assert(views(roots@) =~= start_menu_roots_spec(env.vars@));
    roots
}

/// A path names a folder as well as a file (`Path::components` yields more
/// than one part): a separator inside it, or a drive letter before a name.
pub open spec fn has_path_separator_spec(p: Seq<char>) -> bool {
    let s = crate::processes::strip_trailing_separators(p);
    (exists|k: int| 0 <= k < s.len() && crate::processes::is_separator(#[trigger] s[k])) || (s.len()
        > 2 && s[1] == ':')
}

pub fn has_path_separator(path: &str) -> (r: bool)
    ensures
        r == has_path_separator_spec(path@),
{
    let v = chars_of(path);
    let mut end: usize = v.len();
    assert(v@.subrange(0, end as int) =~= v@);
    while end > 0 && (v[end - 1] == '\\' || v[end - 1] == '/')
        invariant
            end <= v.len(),
            crate::processes::strip_trailing_separators(v@)
                == crate::processes::strip_trailing_separators(v@.subrange(0, end as int)),
        decreases end,
    {
        assert(v@.subrange(0, end as int).drop_last() =~= v@.subrange(0, end - 1));
        end = end - 1;
    }
    let ghost s = v@.subrange(0, end as int);
    assert(crate::processes::strip_trailing_separators(s) == s);
    let mut i: usize = 0;
    while i < end
        invariant
            i <= end <= v.len(),
            s == v@.subrange(0, end as int),
            v@ == path@,
            crate::processes::strip_trailing_separators(v@) == s,
            forall|k: int| 0 <= k < i ==> !crate::processes::is_separator(#[trigger] s[k]),
        decreases end - i,
    {
        if v[i] == '\\' || v[i] == '/' {
            proof {
                assert(crate::processes::is_separator(s[i as int]));
                assert(crate::processes::strip_trailing_separators(path@) == s);
                assert(has_path_separator_spec(path@));
            }
            return true;
        }
        i = i + 1;
    }
    end > 2 && v[1] == ':'
}

/// The pieces of a `;`-separated list, trimmed, blanks dropped.
pub open spec fn split_state(s: Seq<char>) -> (Seq<Seq<char>>, Seq<char>)
    decreases s.len(),
{
    if s.len() == 0 {
        (Seq::empty(), Seq::empty())
    } else {
        let (done, cur) = split_state(s.drop_last());
        if s.last() == ';' {
            (done.push(cur), Seq::empty())
        } else {
            (done, cur.push(s.last()))
        }
    }
}

pub open spec fn keep_entries(parts: Seq<Seq<char>>) -> Seq<Seq<char>>
    decreases parts.len(),
{
    if parts.len() == 0 {
        parts
    } else if blank(parts.last()) {
        keep_entries(parts.drop_last())
    } else {
        keep_entries(parts.drop_last()).push(trim(parts.last()))
    }
}

pub open spec fn path_entries_spec(s: Seq<char>) -> Seq<Seq<char>> {
    keep_entries(split_state(s).0.push(split_state(s).1))
}

/// The folders of a `PATH` value, in order.
pub fn path_entries(path_var: &str) -> (r: Vec<String>)
    ensures
        views(r@) == path_entries_spec(path_var@),
{
    let v = chars_of(path_var);
    let mut parts: Vec<String> = Vec::new();
    let mut cur: Vec<char> = Vec::new();
    let mut i: usize = 0;
    while i < v.len()
        invariant
            i <= v.len(),
            (views(parts@), cur@) == split_state(v@.take(i as int)),
        decreases v.len() - i,
    {
        assert(v@.take(i + 1).drop_last() =~= v@.take(i as int));
        if v[i] == ';' {
            let ghost before = views(parts@);
            parts.push(string_from(&cur));
            assert(views(parts@) =~= before.push(cur@));
            cur = Vec::new();
            assert(cur@ =~= Seq::<char>::empty());
        } else {
            cur.push(v[i]);
        }
        i = i + 1;
    }
    assert(v@.take(v.len() as int) =~= v@);
    let ghost before = views(parts@);
    parts.push(string_from(&cur));
    assert(views(parts@) =~= before.push(cur@));
    let mut entries: Vec<String> = Vec::new();
    let mut j: usize = 0;
    while j < parts.len()
        invariant
            j <= parts.len(),
            views(entries@) == keep_entries(views(parts@).take(j as int)),
        decreases parts.len() - j,
    {
        assert(views(parts@).take(j + 1).drop_last() =~= views(parts@).take(j as int));
        assert(views(parts@).take(j + 1).last() == parts@[j as int]@);
        if !is_blank(parts[j].as_str()) {
            let ghost b = views(entries@);
            entries.push(trim_str(parts[j].as_str()));
            assert(views(entries@) =~= b.push(trim(parts@[j as int]@)));
        }
        j = j + 1;
    }
    assert(views(parts@).take(parts.len() as int) =~= views(parts@));
    entries
}

/// Where a bare executable name is looked for: in every folder of `PATH`.
pub open spec fn path_search_spec(path_var: Seq<char>, candidate: Seq<char>) -> Seq<Seq<char>> {
    match file_name(candidate) {
        Some(n) => {
            let dirs = path_entries_spec(path_var);
            Seq::new(dirs.len(), |k: int| join_path(dirs[k], n))
        },
        None => Seq::empty(),
    }
}

pub fn path_search_candidates(path_var: &str, candidate: &str) -> (r: Vec<String>)
    ensures
        views(r@) == path_search_spec(path_var@, candidate@),
{
    let name = match file_name_from_path(candidate) {
        Some(n) => n,
        None => {
            let r: Vec<String> = Vec::new();
            assert(views(r@) =~= path_search_spec(path_var@, candidate@));
            return r;
        },
    };
    let dirs = path_entries(path_var);
    let mut out: Vec<String> = Vec::new();
    let mut i: usize = 0;
    while i < dirs.len()
        invariant
            i <= dirs.len(),
            views(out@) == Seq::new(i as nat, |k: int| join_path(views(dirs@)[k], name@)),
        decreases dirs.len() - i,
    {
        let ghost b = views(out@);
        let joined = path_join(dirs[i].as_str(), name.as_str());
        let ghost jv = joined@;
        out.push(joined);
        assert(views(out@) =~= b.push(jv));
        assert(views(dirs@)[i as int] == dirs@[i as int]@);
        assert(views(out@) =~= Seq::new((i + 1) as nat, |k: int| join_path(views(dirs@)[k], name@)));
        i = i + 1;
    }
    assert(views(out@) =~= path_search_spec(path_var@, candidate@));
    out
}

/// One step of looking for an app's launch target, in the order they are
/// tried.
#[derive(Debug, Clone, PartialEq, Eq)]
pub enum LaunchStep {
    /// A candidate (or a folder of version folders to search).
    Candidate(CandidateSource),
    /// Paths registered in "App Paths" under these names (current user,
    /// then the machine).
    AppPaths(Vec<String>),
    /// The uninstall registry's entries, through `uninstall_candidates`.
    Uninstall { process_name: String },
    /// Shortcuts in these Start menu folders (and below) that
    /// `shortcut_matches` these targets.
    StartMenu { roots: Vec<String>, targets: Vec<String> },
}

/// A step of the search, as plain values.
pub enum StepView {
    Candidate((bool, Seq<char>, Seq<char>, bool)),
    AppPaths(Seq<Seq<char>>),
    Uninstall(Seq<char>),
    StartMenu(Seq<Seq<char>>, Seq<Seq<char>>),
}

pub open spec fn step_view(s: LaunchStep) -> StepView {
    match s {
        LaunchStep::Candidate(c) => StepView::Candidate(source_view(c)),
        LaunchStep::AppPaths(names) => StepView::AppPaths(views(names@)),
        LaunchStep::Uninstall { process_name } => StepView::Uninstall(process_name@),
        LaunchStep::StartMenu { roots, targets } => StepView::StartMenu(views(roots@), views(targets@)),
    }
}

pub open spec fn steps_view(v: Seq<LaunchStep>) -> Seq<StepView> {
    Seq::new(v.len(), |k: int| step_view(v[k]))
}

pub open spec fn as_candidates(v: Seq<(bool, Seq<char>, Seq<char>, bool)>) -> Seq<StepView> {
    Seq::new(v.len(), |k: int| StepView::Candidate(v[k]))
}

/// The search for an app's launch target: the preferred path and the
/// entry's executable (each when it gives a path); then, for an app with a
/// process name, its "App Paths" names, the uninstall registry, the usual
/// install folders and the Start menu.
pub open spec fn plan_spec(app: AppConfig, preferred: Option<Seq<char>>, vars: Seq<(String, String)>) -> Seq<
    StepView,
> {
    let first = match preferred {
        Some(p) => target_step(p, vars),
        None => Seq::empty(),
    } + match app.executable_path {
        Some(p) => target_step(p@, vars),
        None => Seq::empty(),
    };
    as_candidates(first) + match launch_process_name(app) {
        Some(pn) => seq![StepView::AppPaths(app_path_names_spec(pn)), StepView::Uninstall(pn)]
            + as_candidates(known_install_spec(app, pn, vars)) + seq![
            StepView::StartMenu(start_menu_roots_spec(vars), shortcut_targets_spec(app, pn)),
        ],
        None => Seq::empty(),
    }
}

/// Moves `sources` onto the end of `steps`, each as a candidate step.
fn push_candidates(steps: &mut Vec<LaunchStep>, sources: Vec<CandidateSource>)
    requires
        forall|k: int| 0 <= k < sources@.len() ==> no_arguments(#[trigger] sources@[k]),
    ensures
        steps_view(final(steps)@) == steps_view(old(steps)@) + as_candidates(sources_view(sources@)),
        forall|k: int|
            old(steps)@.len() <= k < final(steps)@.len() ==> (#[trigger] final(steps)@[k]
                matches LaunchStep::Candidate(c) && no_arguments(c)),
        forall|k: int| 0 <= k < old(steps)@.len() ==> final(steps)@[k] == old(steps)@[k],
{
    let mut rest = sources;
    let ghost all = rest@;
    let ghost start = steps@;
    let n = rest.len();
    let mut taken: usize = 0;
    while rest.len() > 0
        invariant
            all.len() == n,
            taken + rest@.len() == all.len(),
            rest@ == all.subrange(taken as int, all.len() as int),
            forall|k: int| 0 <= k < all.len() ==> no_arguments(#[trigger] all[k]),
            steps_view(steps@) == steps_view(start) + as_candidates(
                sources_view(all.subrange(0, taken as int)),
            ),
            steps@.len() == start.len() + taken,
            forall|k: int| 0 <= k < start.len() ==> steps@[k] == start[k],
            forall|k: int|
                start.len() <= k < steps@.len() ==> (#[trigger] steps@[k] matches LaunchStep::Candidate(
                    c,
                ) && no_arguments(c)),
        decreases rest@.len(),
    {
        let c = rest.remove(0);
        assert(c == all[taken as int]);
        let ghost prev = steps@;
        let ghost cv = source_view(c);
        steps.push(LaunchStep::Candidate(c));
        assert(steps_view(steps@) =~= steps_view(prev).push(StepView::Candidate(cv)));
        assert(sources_view(all.subrange(0, taken + 1)) =~= sources_view(
            all.subrange(0, taken as int),
        ).push(cv));
        assert(as_candidates(sources_view(all.subrange(0, taken + 1))) =~= as_candidates(
            sources_view(all.subrange(0, taken as int)),
        ).push(StepView::Candidate(cv)));
        taken = taken + 1;
        assert(rest@ =~= all.subrange(taken as int, all.len() as int));
    }
    assert(all.subrange(0, all.len() as int) =~= all);
}

/// The search for an app's launch target (see `plan_spec`); every candidate
/// path is tried without arguments of its own.
#[verifier::rlimit(50)]
pub fn launch_plan(app: &AppConfig, preferred_path: Option<&str>, env: &LaunchEnvironment) -> (r: Vec<
    LaunchStep,
>)
    ensures
        steps_view(r@) == plan_spec(
            *app,
            match preferred_path {
                Some(p) => Some(p@),
                None => None,
            },
            env.vars@,
        ),
        forall|k: int| 0 <= k < r@.len() ==> (#[trigger] r@[k] matches LaunchStep::Candidate(c)
            ==> no_arguments(c)),
{
    let mut steps: Vec<LaunchStep> = Vec::new();
    let mut first: Vec<CandidateSource> = Vec::new();
    if let Some(p) = preferred_path {
        push_path_candidate(&mut first, p, env);
    }
    if let Some(p) = &app.executable_path {
        push_path_candidate(&mut first, p.as_str(), env);
    }
    assert(sources_view(first@) =~= match preferred_path {
        Some(p) => target_step(p@, env.vars@),
        None => Seq::empty(),
    } + match app.executable_path {
        Some(p) => target_step(p@, env.vars@),
        None => Seq::empty(),
    });
    push_candidates(&mut steps, first);
    if let Some(process_name) = configured_process_name(app) {
        let ghost before = steps@;
        steps.push(LaunchStep::AppPaths(app_path_names(process_name.as_str())));
        steps.push(LaunchStep::Uninstall { process_name: process_name.clone() });
        let ghost mid = steps@;
        assert(steps_view(mid) =~= steps_view(before) + seq![
            StepView::AppPaths(app_path_names_spec(process_name@)),
            StepView::Uninstall(process_name@),
        ]);
        let known = known_install_candidates(app, process_name.as_str(), env);
        push_candidates(&mut steps, known);
        let ghost later = steps@;
        steps.push(
            LaunchStep::StartMenu {
                roots: start_menu_roots(env),
                targets: shortcut_targets(app, process_name.as_str()),
            },
        );
        assert(steps_view(steps@) =~= steps_view(later) + seq![
            StepView::StartMenu(
                start_menu_roots_spec(env.vars@),
                shortcut_targets_spec(*app, process_name@),
            ),
        ]);
    } else {
        assert(steps_view(steps@) =~= steps_view(steps@) + Seq::<StepView>::empty());
    }
    steps
}

/// A version folder of an app installed in "app-<version>" folders (as
/// Squirrel installs them): its name starts with "app-", case aside.
pub open spec fn version_folder(name: Seq<char>) -> bool {
    crate::text::starts_with(lower(name), "app-"@)
}

/// Where the executable of a version folder would be, for a folder that is
/// a version folder.
pub fn version_folder_executable(root: &str, folder: &str, process_name: &str) -> (r: Option<
    String,
>)
    ensures
        !version_folder(folder@) ==> r is None,
        version_folder(folder@) ==> (r matches Some(p) && p@ == join_path(
            join_path(root@, folder@),
            process_name@,
        )),
{
    let lowered = to_lower(folder);
    if !crate::text::str_starts_with(lowered.as_str(), "app-") {
        return None;
    }
    let dir = path_join(root, folder);
    Some(path_join(dir.as_str(), process_name))
}

/// A version folder's executable that exists, with the folder's
/// modification time when it could be read.
#[derive(Debug, Clone, PartialEq, Eq)]
pub struct FoundVersion {
    pub modified: Option<u64>,
    pub path: String,
}

/// `a` was modified after `b` (a time that could not be read counts as
/// older than any other).
pub open spec fn newer(a: Option<u64>, b: Option<u64>) -> bool {
    match (a, b) {
        (Some(x), Some(y)) => x > y,
        (Some(_), None) => true,
        _ => false,
    }
}

pub open spec fn newest_first_order(vs: Seq<FoundVersion>) -> bool {
    forall|k: int| 0 <= k < vs.len() - 1 ==> !newer(#[trigger] vs[k + 1].modified, vs[k].modified)
}

/// Two versions modified at the same time (or both at an unknown time).
pub open spec fn same_age_fn() -> spec_fn(FoundVersion, FoundVersion) -> bool {
    |a: FoundVersion, b: FoundVersion| a.modified == b.modified
}

fn is_newer(a: Option<u64>, b: Option<u64>) -> (r: bool)
    ensures
        r == newer(a, b),
{
    match (a, b) {
        (Some(x), Some(y)) => x > y,
        (Some(_), None) => true,
        _ => false,
    }
}

proof fn lemma_found_insert_multiset(s: Seq<FoundVersion>, p: int, x: FoundVersion)
    requires
        0 <= p <= s.len(),
    ensures
        s.insert(p, x).to_multiset() =~= s.to_multiset().insert(x),
{
    broadcast use vstd::seq_lib::group_to_multiset_ensures;

    let t = s.insert(p, x);
    assert(t.remove(p) =~= s);
    assert(t[p] == x);
    assert(t.to_multiset().count(x) > 0);
}

/// Orders found versions newest first, keeping every one.
pub fn newest_first(found: Vec<FoundVersion>) -> (r: Vec<FoundVersion>)
    ensures
        r@.to_multiset() == found@.to_multiset(),
        newest_first_order(r@),
        exists|perm: Seq<int>| #[trigger] stable_rearrangement(found@, r@, perm, same_age_fn()),
{
    broadcast use vstd::seq_lib::group_to_multiset_ensures;

    let mut out: Vec<FoundVersion> = Vec::new();
    let mut rest = found;
    let ghost initial = rest@;
    let ghost mut perm: Seq<int> = Seq::empty();
    let mut i: usize = 0;
    while i < rest.len()
        invariant
            i <= rest.len(),
            rest@ == initial,
            out@.to_multiset() == initial.take(i as int).to_multiset(),
            newest_first_order(out@),
            out@.len() == i,
            perm.len() == i,
            forall|k: int| 0 <= k < i ==> 0 <= #[trigger] perm[k] < i,
            forall|k: int| 0 <= k < i ==> #[trigger] out@[k] == initial[perm[k]],
            forall|k: int, l: int| 0 <= k < l < i ==> perm[k] != perm[l],
            forall|k: int, l: int|
                0 <= k < l < i && (#[trigger] out@[k]).modified == (#[trigger] out@[l]).modified
                    ==> perm[k] < perm[l],
        decreases rest.len() - i,
    {
        let x = FoundVersion { modified: rest[i].modified, path: rest[i].path.clone() };
        assert(x == initial[i as int]);
        let mut p: usize = out.len();
        while p > 0 && is_newer(x.modified, out[p - 1].modified)
            invariant
                p <= out.len(),
                p < out.len() ==> newer(x.modified, out@[p as int].modified),
                forall|q: int| p <= q < out@.len() ==> newer(x.modified, #[trigger] out@[q].modified),
            decreases p,
        {
            p = p - 1;
        }
        let ghost before = out@;
        let ghost old_perm = perm;
        proof {
            lemma_found_insert_multiset(before, p as int, x);
            assert(initial.take(i + 1) =~= initial.take(i as int).push(initial[i as int]));
            vstd::seq_lib::to_multiset_build(initial.take(i as int), initial[i as int]);
        }
        let ghost xv = x;
        out.insert(p, x);
        proof {
            assert(out@ == before.insert(p as int, xv));
            perm = old_perm.insert(p as int, i as int);
            assert forall|k: int| 0 <= k < i + 1 implies 0 <= #[trigger] perm[k] < i + 1
                && out@[k] == initial[perm[k]] by {
                if k < p {
                    assert(perm[k] == old_perm[k]);
                } else if k > p {
                    assert(perm[k] == old_perm[k - 1]);
                }
            }
            assert forall|k: int, l: int| 0 <= k < l < i + 1 implies perm[k] != perm[l] by {
                if k < p && l > p {
                    assert(perm[l] == old_perm[l - 1]);
                } else if k > p {
                    assert(perm[k] == old_perm[k - 1]);
                    assert(perm[l] == old_perm[l - 1]);
                } else if l == p {
                    assert(old_perm[k] < i);
                } else if k == p {
                    assert(old_perm[l - 1] < i);
                }
            }
            assert forall|k: int, l: int|
                0 <= k < l < i + 1 && (#[trigger] out@[k]).modified == (#[trigger] out@[l]).modified
                implies perm[k] < perm[l] by {
                if k == p {
                    assert(out@[l] == before[l - 1]);
                    assert(newer(xv.modified, before[l - 1].modified));
                } else if l == p {
                    assert(old_perm[k] < i);
                } else if k < p && l < p {
                    assert(out@[k] == before[k] && out@[l] == before[l]);
                } else if k < p {
                    assert(out@[k] == before[k] && out@[l] == before[l - 1]);
                    assert(perm[l] == old_perm[l - 1]);
                } else {
                    assert(out@[k] == before[k - 1] && out@[l] == before[l - 1]);
                    assert(perm[k] == old_perm[k - 1]);
                    assert(perm[l] == old_perm[l - 1]);
                }
            }
            assert forall|k: int| 0 <= k < out@.len() - 1 implies !newer(
                #[trigger] out@[k + 1].modified,
                out@[k].modified,
            ) by {
                if k + 1 < p {
                    assert(out@[k] == before[k]);
                    assert(out@[k + 1] == before[k + 1]);
                    assert(!newer(before[k + 1].modified, before[k].modified));
                } else if k + 1 == p {
                    assert(out@[k] == before[k]);
                    assert(out@[k + 1] == xv);
                } else if k == p {
                    assert(out@[k] == xv);
                    assert(out@[k + 1] == before[k]);
                } else {
                    assert(out@[k] == before[k - 1]);
                    assert(out@[k + 1] == before[k]);
                    assert(!newer(before[(k - 1) + 1].modified, before[k - 1].modified));
                }
            }
        }
        i = i + 1;
    }
    assert(initial.take(initial.len() as int) =~= initial);
    assert(stable_rearrangement(initial, out@, perm, same_age_fn()));
    out
}

} // verus!
