//! The configuration file: where it and its companions live, how a loaded
//! file is brought up to date, and what a configuration is warned about.
use vstd::prelude::*;

use crate::config::{
    app_ids, app_is_normal, apps_are_normal, config_same, is_normalized, normalize_config,
    normalized_result, profile_ids, profile_same, profiles_are_normal,
};
use crate::models::{
    default_config, is_default_config, AppConfig, MonitorMissingBehavior, Profile, TitleMatchMode,
    WindowAutoLayoutConfig, APP_VERSION, CONFIG_SCHEMA_VERSION,
};
use crate::monitors::{signed_decimal, signed_decimal_string};
use crate::outside::{regex_compiles, regex_match};
use crate::text::{
    views, blank, chars_of, copy_str, is_blank, join2, string_from, trim_start_char,
    trim_start_char_chars,
};

verus! {

pub const CONFIG_FILE_NAME: &'static str = "config.json";

pub const LOG_DIR_NAME: &'static str = "logs";

pub const LOG_FILE_NAME: &'static str = "windowautolayout.log";

/// A directory and a name joined the way Windows paths are: with a
/// backslash unless the directory is empty or already ends with a separator.
pub open spec fn join_path(dir: Seq<char>, name: Seq<char>) -> Seq<char> {
    if dir.len() == 0 {
        name
    } else if dir.last() == '\\' || dir.last() == '/' {
        dir + name
    } else {
        dir + seq!['\\'] + name
    }
}

pub fn path_join(dir: &str, name: &str) -> (r: String)
    ensures
        r@ == join_path(dir@, name@),
{
    let v = chars_of(dir);
    if v.len() == 0 {
        return copy_str(name);
    }
    if v[v.len() - 1] == '\\' || v[v.len() - 1] == '/' {
        return join2(dir, name);
    }
    let with_separator = join2(dir, "\\");
    proof {
        reveal_strlit("\\");
        assert("\\"@ =~= seq!['\\']);
    }
    let r = join2(with_separator.as_str(), name);
    assert(r@ =~= dir@ + seq!['\\'] + name@);
    r
}

pub fn config_file_path(config_dir: &str) -> (r: String)
    ensures
        r@ == join_path(config_dir@, "config.json"@),
{
    path_join(config_dir, CONFIG_FILE_NAME)
}

/// Where a configuration is written before it replaces the file.
pub fn temp_config_path(config_dir: &str) -> (r: String)
    ensures
        r@ == join_path(config_dir@, "config.json.tmp"@),
{
    path_join(config_dir, "config.json.tmp")
}

pub fn log_file_path(config_dir: &str) -> (r: String)
    ensures
        r@ == join_path(join_path(config_dir@, "logs"@), "windowautolayout.log"@),
{
    let dir = path_join(config_dir, LOG_DIR_NAME);
    path_join(dir.as_str(), LOG_FILE_NAME)
}

/// Where a copy of the file is kept before it is migrated or replaced:
/// "config.<reason>.<timestamp>.bak.json" beside it.
pub fn backup_config_path(config_dir: &str, reason: &str, timestamp: &str) -> (r: String)
    ensures
        r@ == join_path(config_dir@, "config."@ + reason@ + "."@ + timestamp@ + ".bak.json"@),
{
    let a = join2("config.", reason);
    let b = join2(a.as_str(), ".");
    let c = join2(b.as_str(), timestamp);
    let name = join2(c.as_str(), ".bak.json");
    path_join(config_dir, name.as_str())
}

/// The file's text without any leading byte-order marks.
pub fn strip_bom(raw: &str) -> (r: String)
    ensures
        r@ == trim_start_char(raw@, '\u{feff}'),
{
    string_from(&trim_start_char_chars(&chars_of(raw), '\u{feff}'))
}

/// A file written by an older (or newer) schema is migrated, after a backup.
pub fn needs_migration(config: &WindowAutoLayoutConfig) -> (r: bool)
    ensures
        r == (config.schema_version != CONFIG_SCHEMA_VERSION),
{
    config.schema_version != CONFIG_SCHEMA_VERSION
}

/// Before schema 3 "do nothing" was the default for a missing monitor;
/// those files now use the nearest match.
pub open spec fn migrated(c: WindowAutoLayoutConfig) -> WindowAutoLayoutConfig {
    if c.schema_version < 3 && c.global.monitor_missing_behavior == MonitorMissingBehavior::DoNothing {
        WindowAutoLayoutConfig {
            global: crate::models::GlobalSettings {
                monitor_missing_behavior: MonitorMissingBehavior::NearestMatch,
                ..c.global
            },
            ..c
        }
    } else {
        c
    }
}

pub fn migrate_config(config: &mut WindowAutoLayoutConfig)
    ensures
        *final(config) == migrated(*old(config)),
{
    if config.schema_version < 3 && config.global.monitor_missing_behavior
        == MonitorMissingBehavior::DoNothing {
        config.global.monitor_missing_behavior = MonitorMissingBehavior::NearestMatch;
    }
}

/// A loaded configuration, migrated when its schema is not the current one.
pub open spec fn migrated_if_old(c: WindowAutoLayoutConfig) -> WindowAutoLayoutConfig {
    if c.schema_version != CONFIG_SCHEMA_VERSION {
        migrated(c)
    } else {
        c
    }
}

/// Brings a loaded configuration up to date: migrated when its schema is
/// not the current one, stamped with the current schema and app version, and
/// normalized. Returns whether it changed (and must be saved).
pub fn upgrade_loaded_config(config: &mut WindowAutoLayoutConfig) -> (should_save: bool)
    ensures
        normalized_result(*final(config), migrated_if_old(*old(config))),
        should_save == !config_same(*final(config), *old(config)),
        is_normalized(*old(config)) ==> !should_save,
{
    let ghost initial = *config;
    let mut should_save = false;
    if config.schema_version != CONFIG_SCHEMA_VERSION {
        migrate_config(config);
        config.schema_version = CONFIG_SCHEMA_VERSION;
        should_save = true;
    }
    if !crate::text::str_eq(config.app_version.as_str(), APP_VERSION) {
        config.app_version = copy_str(APP_VERSION);
        should_save = true;
    }
    let ghost mid = *config;
    let normalized = normalize_config(config);
    proof {
        let m = migrated_if_old(initial);
        assert(mid.global == m.global && mid.startup == m.startup && mid.tray == m.tray
            && mid.hotkey == m.hotkey && mid.enforcement == m.enforcement && mid.profiles
            == m.profiles);
        if !should_save {
            assert(mid == initial);
        } else {
            assert(!config_same(*config, initial)) by {
                if initial.schema_version != CONFIG_SCHEMA_VERSION {
                } else {
                    assert(initial.app_version@ != APP_VERSION@);
                }
            }
        }
    }
    should_save || normalized
}

/// A fresh configuration, as written when there is no usable file: the
/// default configuration, which normalization leaves as it is.
pub fn fresh_config() -> (c: WindowAutoLayoutConfig)
    ensures
        is_default_config(c),
        is_normalized(c),
{
    let mut config = default_config();
    let ghost d = config;
    proof {
        default_config_is_normal_and_valid(d);
    }
    normalize_config(&mut config);
    proof {
        assert(config_same(config, d));
        assert(profile_same(config.profiles@[0], d.profiles@[0]));
        assert(config.profiles@[0].apps@[0].same_as(d.profiles@[0].apps@[0]));
        assert(config.profiles@[0].apps@[1].same_as(d.profiles@[0].apps@[1]));
    }
    config
}

/// The error reported after an unreadable file was backed up and replaced.
pub fn unreadable_config_message(error: &str) -> (r: String)
    ensures
        r@ == "Config was unreadable and was backed up before creating a fresh file: "@ + error@,
{
    join2("Config was unreadable and was backed up before creating a fresh file: ", error)
}

/// Whether `id` is among the ids of `ps[..n]`.
pub open spec fn profile_id_seen(ps: Seq<Profile>, n: int, id: Seq<char>) -> bool {
    exists|q: int| 0 <= q < n && (#[trigger] ps[q]).id@ == id
}

pub open spec fn app_id_seen(apps: Seq<AppConfig>, n: int, id: Seq<char>) -> bool {
    exists|q: int| 0 <= q < n && (#[trigger] apps[q]).id@ == id
}

pub open spec fn has_identity(a: AppConfig) -> bool {
    (a.process_name matches Some(n) && !blank(n@)) || (a.executable_path matches Some(p) && !blank(
        p@,
    ))
}

pub open spec fn opt_issue(b: bool, text: Seq<char>) -> Seq<Seq<char>> {
    if b {
        seq![text]
    } else {
        Seq::empty()
    }
}

pub open spec fn small_size_text(a: AppConfig) -> Seq<char> {
    a.display_name@ + " has a very small saved size ("@ + signed_decimal(a.layout.width as int)
        + "x"@ + signed_decimal(a.layout.height as int) + ")"@
}

pub open spec fn bad_regex(a: AppConfig) -> bool {
    a.title_rule matches Some(rule) && rule.mode == TitleMatchMode::Regex && !regex_compiles(
        rule.value@,
        !rule.case_sensitive,
    )
}

/// What is wrong with app `k` of a profile named `profile_name`: a blank or
/// repeated id, a blank display name, a saved size under 80 pixels, a retry
/// interval under 250 ms, no process name or executable, an invalid title
/// regex.
pub open spec fn app_issues(apps: Seq<AppConfig>, k: int, profile_name: Seq<char>) -> Seq<Seq<char>> {
    let a = apps[k];
    let name = a.display_name@;
    opt_issue(
        blank(a.id@) || app_id_seen(apps, k, a.id@),
        profile_name + " contains duplicate or empty app IDs"@,
    ) + opt_issue(
        blank(name),
        "Profile "@ + profile_name + " contains an app with an empty display name"@,
    ) + opt_issue(a.layout.width < 80 || a.layout.height < 80, small_size_text(a)) + opt_issue(
        a.retry_interval_ms < 250,
        name + " has a retry interval below 250 ms"@,
    ) + opt_issue(!has_identity(a), name + " needs a process name or executable path"@) + opt_issue(
        bad_regex(a),
        name + " has an invalid title regex"@,
    )
}

pub open spec fn apps_issues(apps: Seq<AppConfig>, n: int, profile_name: Seq<char>) -> Seq<Seq<char>>
    decreases n,
{
    if n <= 0 {
        Seq::empty()
    } else {
        apps_issues(apps, n - 1, profile_name) + app_issues(apps, n - 1, profile_name)
    }
}

/// What is wrong with profile `k`.
pub open spec fn profile_issues(ps: Seq<Profile>, k: int) -> Seq<Seq<char>> {
    let p = ps[k];
    let s1 = if blank(p.id@) || profile_id_seen(ps, k, p.id@) {
        seq!["Profile IDs must be present and unique"@]
    } else {
        Seq::empty()
    };
    let s2 = if blank(p.name@) {
        seq!["Profile "@ + p.id@ + " has an empty name"@]
    } else {
        Seq::empty()
    };
    s1 + s2 + apps_issues(p.apps@, p.apps@.len() as int, p.name@)
}

pub open spec fn profiles_issues(ps: Seq<Profile>, n: int) -> Seq<Seq<char>>
    decreases n,
{
    if n <= 0 {
        Seq::empty()
    } else {
        profiles_issues(ps, n - 1) + profile_issues(ps, n - 1)
    }
}

/// The warnings a configuration gets, in order.
pub open spec fn config_issues(c: WindowAutoLayoutConfig) -> Seq<Seq<char>> {
    let first = if c.profiles@.len() == 0 {
        seq!["At least one profile is required"@]
    } else {
        Seq::empty()
    };
    first + profiles_issues(c.profiles@, c.profiles@.len() as int)
}

/// The two warnings on an app entry that normalization cannot repair: no
/// process name or executable path, and a title regex that does not compile.
pub open spec fn lasting_app_issues(a: AppConfig) -> Seq<Seq<char>> {
    opt_issue(!has_identity(a), a.display_name@ + " needs a process name or executable path"@)
        + opt_issue(bad_regex(a), a.display_name@ + " has an invalid title regex"@)
}

pub open spec fn lasting_apps_issues(apps: Seq<AppConfig>, n: int) -> Seq<Seq<char>>
    decreases n,
{
    if n <= 0 {
        Seq::empty()
    } else {
        lasting_apps_issues(apps, n - 1) + lasting_app_issues(apps[n - 1])
    }
}

/// The unrepairable warnings of the first `n` profiles, in validation order.
pub open spec fn lasting_issues(ps: Seq<Profile>, n: int) -> Seq<Seq<char>>
    decreases n,
{
    if n <= 0 {
        Seq::empty()
    } else {
        lasting_issues(ps, n - 1) + lasting_apps_issues(ps[n - 1].apps@, ps[n - 1].apps@.len() as int)
    }
}

proof fn lemma_normal_apps_issues(apps: Seq<AppConfig>, n: int, profile_name: Seq<char>)
    requires
        apps_are_normal(apps),
        0 <= n <= apps.len(),
    ensures
        apps_issues(apps, n, profile_name) == lasting_apps_issues(apps, n),
    decreases n,
{
    if n > 0 {
        lemma_normal_apps_issues(apps, n - 1, profile_name);
        let k = n - 1;
        let a = apps[k];
        assert(app_is_normal(a));
        assert(!app_id_seen(apps, k, a.id@)) by {
            if app_id_seen(apps, k, a.id@) {
                let q = choose|q: int| 0 <= q < k && (#[trigger] apps[q]).id@ == a.id@;
                assert(app_ids(apps)[q] == app_ids(apps)[k]);
            }
        }
        assert(a.layout.width >= 80 && a.layout.height >= 80);
        assert(app_issues(apps, k, profile_name) =~= lasting_app_issues(a));
    }
}

/// Validation of a normalized configuration reports nothing but, app by app
/// in order, a missing process name or executable path and a title regex
/// that does not compile: no profile count, identifier, name, size or retry
/// interval warning is left.
pub proof fn normalized_config_keeps_only_lasting_issues(c: WindowAutoLayoutConfig)
    requires
        is_normalized(c),
    ensures
        config_issues(c) == lasting_issues(c.profiles@, c.profiles@.len() as int),
{
    let ps = c.profiles@;
    assert forall|n: int| 0 <= n <= ps.len() implies profiles_issues(ps, n) == lasting_issues(
        ps,
        n,
    ) by {
        lemma_normal_profiles_issues(ps, n);
    }
    assert(config_issues(c) =~= profiles_issues(ps, ps.len() as int));
}

/// The configuration a first start writes needs no repair by normalization
/// and draws no warning from validation.
pub proof fn default_config_is_normal_and_valid(c: WindowAutoLayoutConfig)
    requires
        is_default_config(c),
    ensures
        is_normalized(c),
        config_issues(c) == Seq::<Seq<char>>::empty(),
{
    reveal_strlit("profile-streaming");
    reveal_strlit("Streaming");
    reveal_strlit("preset-obs");
    reveal_strlit("preset-discord");
    reveal_strlit("OBS Studio");
    reveal_strlit("Discord");
    reveal_strlit("obs64.exe");
    reveal_strlit("Discord.exe");
    let ps = c.profiles@;
    let p = ps[0];
    let apps = p.apps@;
    assert(!blank(p.id@)) by {
        assert(!crate::text::is_ws(p.id@[0]));
    }
    assert(!blank(p.name@)) by {
        assert(!crate::text::is_ws(p.name@[0]));
    }
    assert(!blank(apps[0].id@)) by {
        assert(!crate::text::is_ws(apps[0].id@[0]));
    }
    assert(!blank(apps[1].id@)) by {
        assert(!crate::text::is_ws(apps[1].id@[0]));
    }
    assert(!blank(apps[0].display_name@)) by {
        assert(!crate::text::is_ws(apps[0].display_name@[0]));
    }
    assert(!blank(apps[1].display_name@)) by {
        assert(!crate::text::is_ws(apps[1].display_name@[0]));
    }
    assert(!blank(apps[0].process_name->0@)) by {
        assert(!crate::text::is_ws(apps[0].process_name->0@[0]));
    }
    assert(!blank(apps[1].process_name->0@)) by {
        assert(!crate::text::is_ws(apps[1].process_name->0@[0]));
    }
    assert(apps[0].id@ != apps[1].id@) by {
        assert(apps[0].id@.len() != apps[1].id@.len());
    }
    assert(app_ids(apps)[0] == apps[0].id@);
    assert(app_ids(apps)[1] == apps[1].id@);
    assert(profile_ids(ps)[0] == p.id@);
    assert(profile_ids(ps).contains(p.id@));
    assert(app_is_normal(apps[0]));
    assert(app_is_normal(apps[1]));
    assert(apps_are_normal(apps));
    assert(profiles_are_normal(ps));
    assert(is_normalized(c));
    normalized_config_keeps_only_lasting_issues(c);
    assert(has_identity(apps[0]) && has_identity(apps[1]));
    assert(!bad_regex(apps[0]) && !bad_regex(apps[1]));
    assert(lasting_app_issues(apps[0]) =~= Seq::<Seq<char>>::empty());
    assert(lasting_app_issues(apps[1]) =~= Seq::<Seq<char>>::empty());
    assert(lasting_apps_issues(apps, 0) =~= Seq::<Seq<char>>::empty());
    assert(lasting_apps_issues(apps, 1) =~= Seq::<Seq<char>>::empty());
    assert(lasting_apps_issues(apps, 2) =~= Seq::<Seq<char>>::empty());
    assert(lasting_issues(ps, 0) =~= Seq::<Seq<char>>::empty());
    assert(lasting_issues(ps, 1) =~= Seq::<Seq<char>>::empty());
}

proof fn lemma_normal_profiles_issues(ps: Seq<Profile>, n: int)
    requires
        profiles_are_normal(ps),
        0 <= n <= ps.len(),
    ensures
        profiles_issues(ps, n) == lasting_issues(ps, n),
    decreases n,
{
    if n > 0 {
        lemma_normal_profiles_issues(ps, n - 1);
        let k = n - 1;
        let p = ps[k];
        assert(crate::config::profile_is_normal(p));
        assert(!profile_id_seen(ps, k, p.id@)) by {
            if profile_id_seen(ps, k, p.id@) {
                let q = choose|q: int| 0 <= q < k && (#[trigger] ps[q]).id@ == p.id@;
                assert(profile_ids(ps)[q] == profile_ids(ps)[k]);
            }
        }
        lemma_normal_apps_issues(p.apps@, p.apps@.len() as int, p.name@);
        assert(profile_issues(ps, k) =~= apps_issues(p.apps@, p.apps@.len() as int, p.name@));
    }
}

fn push_issue(issues: &mut Vec<String>, issue: String)
    ensures
        views(final(issues)@) == views(old(issues)@).push(issue@),
{
    issues.push(issue);
    assert(views(issues@) =~= views(old(issues)@).push(issue@));
}

fn app_id_taken(apps: &Vec<AppConfig>, n: usize, id: &String) -> (r: bool)
    requires
        n <= apps@.len(),
    ensures
        r == app_id_seen(apps@, n as int, id@),
{
    let mut q: usize = 0;
    while q < n
        invariant
            q <= n,
            n <= apps@.len(),
            forall|t: int| 0 <= t < q ==> (#[trigger] apps@[t]).id@ != id@,
        decreases n - q,
    {
        if crate::text::str_eq(apps[q].id.as_str(), id.as_str()) {
            assert(apps@[q as int].id@ == id@);
            return true;
        }
        q = q + 1;
    }
    false
}

fn profile_id_taken(ps: &Vec<Profile>, n: usize, id: &String) -> (r: bool)
    requires
        n <= ps@.len(),
    ensures
        r == profile_id_seen(ps@, n as int, id@),
{
    let mut q: usize = 0;
    while q < n
        invariant
            q <= n,
            n <= ps@.len(),
            forall|t: int| 0 <= t < q ==> (#[trigger] ps@[t]).id@ != id@,
        decreases n - q,
    {
        if crate::text::str_eq(ps[q].id.as_str(), id.as_str()) {
            assert(ps@[q as int].id@ == id@);
            return true;
        }
        q = q + 1;
    }
    false
}

fn push_opt(issues: &mut Vec<String>, b: bool, text: String)
    ensures
        views(final(issues)@) == views(old(issues)@) + opt_issue(b, text@),
{
    if b {
        push_issue(issues, text);
    } else {
        assert(views(issues@) =~= views(issues@) + Seq::<Seq<char>>::empty());
    }
}

fn small_size_message(a: &AppConfig) -> (r: String)
    ensures
        r@ == small_size_text(*a),
{
    let t1 = join2(a.display_name.as_str(), " has a very small saved size (");
    let t2 = join2(t1.as_str(), signed_decimal_string(a.layout.width).as_str());
    let t3 = join2(t2.as_str(), "x");
    let t4 = join2(t3.as_str(), signed_decimal_string(a.layout.height).as_str());
    join2(t4.as_str(), ")")
}

fn has_bad_regex(a: &AppConfig) -> (r: bool)
    ensures
        r == bad_regex(*a),
{
    match &a.title_rule {
        Some(rule) => rule.mode == TitleMatchMode::Regex && regex_match(
            rule.value.as_str(),
            !rule.case_sensitive,
            "",
        ).is_none(),
        None => false,
    }
}

fn identity_present(a: &AppConfig) -> (r: bool)
    ensures
        r == has_identity(*a),
{
    let named = match &a.process_name {
        Some(n) => !is_blank(n.as_str()),
        None => false,
    };
    let located = match &a.executable_path {
        Some(p) => !is_blank(p.as_str()),
        None => false,
    };
    named || located
}

#[verifier::rlimit(40)]
fn check_app(apps: &Vec<AppConfig>, k: usize, profile_name: &String) -> (r: Vec<String>)
    requires
        k < apps@.len(),
    ensures
        views(r@) == app_issues(apps@, k as int, profile_name@),
{
    let mut issues: Vec<String> = Vec::new();
    let a = &apps[k];
    let ghost name = a.display_name@;
    let b1 = is_blank(a.id.as_str()) || app_id_taken(apps, k, &a.id);
    let ghost o1 = opt_issue(b1, profile_name@ + " contains duplicate or empty app IDs"@);
    push_opt(&mut issues, b1, join2(profile_name.as_str(), " contains duplicate or empty app IDs"));
    assert(views(issues@) =~= o1);
    let b2 = is_blank(a.display_name.as_str());
    let ghost o2 = opt_issue(
        b2,
        "Profile "@ + profile_name@ + " contains an app with an empty display name"@,
    );
    let t = join2("Profile ", profile_name.as_str());
    push_opt(&mut issues, b2, join2(t.as_str(), " contains an app with an empty display name"));
    assert(views(issues@) == o1 + o2);
    let b3 = a.layout.width < 80 || a.layout.height < 80;
    let ghost o3 = opt_issue(b3, small_size_text(*a));
    push_opt(&mut issues, b3, small_size_message(a));
    assert(views(issues@) == o1 + o2 + o3);
    let b4 = a.retry_interval_ms < 250;
    let ghost o4 = opt_issue(b4, name + " has a retry interval below 250 ms"@);
    push_opt(&mut issues, b4, join2(a.display_name.as_str(), " has a retry interval below 250 ms"));
    assert(views(issues@) == o1 + o2 + o3 + o4);
    let b5 = !identity_present(a);
    let ghost o5 = opt_issue(b5, name + " needs a process name or executable path"@);
    push_opt(
        &mut issues,
        b5,
        join2(a.display_name.as_str(), " needs a process name or executable path"),
    );
    assert(views(issues@) == o1 + o2 + o3 + o4 + o5);
    let b6 = has_bad_regex(a);
    let ghost o6 = opt_issue(b6, name + " has an invalid title regex"@);
    push_opt(&mut issues, b6, join2(a.display_name.as_str(), " has an invalid title regex"));
    assert(views(issues@) == o1 + o2 + o3 + o4 + o5 + o6);
    issues
}

fn append_issues(issues: &mut Vec<String>, more: Vec<String>)
    ensures
        views(final(issues)@) == views(old(issues)@) + views(more@),
{
    let ghost m = more@;
    let mut more = more;
    issues.append(&mut more);
    assert(issues@ == old(issues)@ + m);
    assert(views(issues@) =~= views(old(issues)@) + views(m));
}

/// The warnings shown for a configuration (see `config_issues`).
pub fn validate_config(config: &WindowAutoLayoutConfig) -> (r: Vec<String>)
    ensures
        views(r@) == config_issues(*config),
{
    let mut issues: Vec<String> = Vec::new();
    if config.profiles.len() == 0 {
        push_issue(&mut issues, copy_str("At least one profile is required"));
    }
    let ghost first = views(issues@);
    assert(first =~= if config.profiles@.len() == 0 {
        seq!["At least one profile is required"@]
    } else {
        Seq::<Seq<char>>::empty()
    }) by {
        reveal_strlit("At least one profile is required");
    }
    let mut i: usize = 0;
    while i < config.profiles.len()
        invariant
            i <= config.profiles.len(),
            views(issues@) == first + profiles_issues(config.profiles@, i as int),
        decreases config.profiles.len() - i,
    {
        let ghost before = views(issues@);
        let p = &config.profiles[i];
        if is_blank(p.id.as_str()) || profile_id_taken(&config.profiles, i, &p.id) {
            push_issue(&mut issues, copy_str("Profile IDs must be present and unique"));
        }
        if is_blank(p.name.as_str()) {
            let t = join2("Profile ", p.id.as_str());
            push_issue(&mut issues, join2(t.as_str(), " has an empty name"));
        }
        let ghost head = views(issues@);
        let mut j: usize = 0;
        while j < p.apps.len()
            invariant
                j <= p.apps.len(),
                views(issues@) == head + apps_issues(p.apps@, j as int, p.name@),
            decreases p.apps.len() - j,
        {
            let ghost before_app = views(issues@);
            append_issues(&mut issues, check_app(&p.apps, j, &p.name));
            assert(views(issues@) == before_app + app_issues(p.apps@, j as int, p.name@));
            assert(views(issues@) =~= head + apps_issues(p.apps@, (j + 1) as int, p.name@));
            j = j + 1;
        }
        proof {
            reveal_strlit("Profile IDs must be present and unique");
            assert(views(issues@) =~= before + profile_issues(config.profiles@, i as int));
        }
        assert(views(issues@) =~= first + profiles_issues(config.profiles@, (i + 1) as int));
        i = i + 1;
    }
    issues
}

/// The log is moved aside once it reaches this many bytes.
pub const MAX_LOG_BYTES: u64 = 1_048_576;

pub fn log_needs_rotation(size: u64) -> (r: bool)
    ensures
        r == (size >= MAX_LOG_BYTES),
{
    size >= MAX_LOG_BYTES
}

/// Where a full log is moved.
pub fn rotated_log_path(config_dir: &str) -> (r: String)
    ensures
        r@ == join_path(join_path(config_dir@, "logs"@), "windowautolayout.log.1"@),
{
    let dir = path_join(config_dir, LOG_DIR_NAME);
    path_join(dir.as_str(), "windowautolayout.log.1")
}

/// The text split at line feeds: (finished lines, the text after the last
/// line feed).
pub open spec fn line_state(s: Seq<char>) -> (Seq<Seq<char>>, Seq<char>)
    decreases s.len(),
{
    if s.len() == 0 {
        (Seq::empty(), Seq::empty())
    } else {
        let (done, cur) = line_state(s.drop_last());
        if s.last() == '\n' {
            (done.push(cur), Seq::empty())
        } else {
            (done, cur.push(s.last()))
        }
    }
}

pub open spec fn strip_cr(l: Seq<char>) -> Seq<char> {
    if l.len() > 0 && l.last() == '\r' {
        l.drop_last()
    } else {
        l
    }
}

/// The lines of a text as `str::lines` yields them: split at line feeds, a
/// carriage return before a feed dropped, no empty line after a final feed.
pub open spec fn lines_spec(s: Seq<char>) -> Seq<Seq<char>> {
    let (done, cur) = line_state(s);
    let all = if cur.len() == 0 {
        done
    } else {
        done.push(cur)
    };
    Seq::new(all.len(), |k: int| strip_cr(all[k]))
}

/// The last `max_lines` lines of the log, oldest first.
pub open spec fn recent_lines_spec(s: Seq<char>, max_lines: nat) -> Seq<Seq<char>> {
    let ls = lines_spec(s);
    if ls.len() <= max_lines {
        ls
    } else {
        ls.subrange(ls.len() - max_lines, ls.len() as int)
    }
}

pub fn recent_log_lines(raw: &str, max_lines: usize) -> (r: Vec<String>)
    ensures
        views(r@) == recent_lines_spec(raw@, max_lines as nat),
{
    let v = chars_of(raw);
    let mut done: Vec<String> = Vec::new();
    let mut cur: Vec<char> = Vec::new();
    let mut i: usize = 0;
    while i < v.len()
        invariant
            i <= v.len(),
            (views(done@), cur@) == line_state(v@.take(i as int)),
        decreases v.len() - i,
    {
        assert(v@.take(i + 1).drop_last() =~= v@.take(i as int));
        if v[i] == '\n' {
            let ghost before = views(done@);
            done.push(string_from(&cur));
            assert(views(done@) =~= before.push(cur@));
            cur = Vec::new();
            assert(cur@ =~= Seq::<char>::empty());
        } else {
            cur.push(v[i]);
        }
        i = i + 1;
    }
    assert(v@.take(v.len() as int) =~= v@);
    if cur.len() > 0 {
        let ghost before = views(done@);
        done.push(string_from(&cur));
        assert(views(done@) =~= before.push(cur@));
    }
    let ghost all = views(done@);
    let n = done.len();
    let start: usize = if n <= max_lines {
        0
    } else {
        n - max_lines
    };
    let mut out: Vec<String> = Vec::new();
    let mut j: usize = start;
    while j < n
        invariant
            start <= j <= n,
            n == done@.len(),
            all == views(done@),
            views(out@) == Seq::new((j - start) as nat, |k: int| strip_cr(all[start + k])),
        decreases n - j,
    {
        let line = chars_of(done[j].as_str());
        let stripped = if line.len() > 0 && line[line.len() - 1] == '\r' {
            crate::text::take_chars(&line, line.len() - 1)
        } else {
            crate::text::take_chars(&line, line.len())
        };
        proof {
            assert(all[j as int] == done@[j as int]@);
            if line@.len() > 0 && line@.last() == '\r' {
                assert(stripped@ =~= line@.drop_last());
            } else {
                assert(stripped@ =~= line@);
            }
        }
        let ghost before = views(out@);
        out.push(string_from(&stripped));
        assert(views(out@) =~= before.push(strip_cr(all[j as int])));
        assert(views(out@) =~= Seq::new((j + 1 - start) as nat, |k: int| strip_cr(all[start + k])));
        j = j + 1;
    }
    assert(views(out@) =~= recent_lines_spec(raw@, max_lines as nat));
    out
}

} // verus!
