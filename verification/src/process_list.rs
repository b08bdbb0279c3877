//! Choosing which running applications are offered for monitoring: which
//! processes are system noise and which applications match a search.  The
//! process enumeration itself is OS introspection and happens outside.

use vstd::prelude::*;
use crate::strutil::{
    eq_ignore_ascii, lower_of, lowercase, contains_str, str_contains, str_eq_ignore_ascii_case,
};

verus! {

use vstd::string::StringSliceAdditionalSpecFns;

/// One running process, as the OS reports it.
pub struct ProcessInfo {
    pub pid: u32,
    pub name: String,
    pub exe_path: Option<String>,
    pub cmd: Vec<String>,
}

/// One application: an executable and the processes running it.
pub struct ApplicationInfo {
    pub name: String,
    pub exe_path: String,
    pub pids: Vec<u32>,
    pub icon: Option<String>,
}

/// Mathematical model of an application entry.
pub ghost struct AppView {
    pub name: Seq<char>,
    pub exe_path: Seq<char>,
    pub pids: Seq<u32>,
    pub icon: Option<Seq<char>>,
}

impl View for ApplicationInfo {
    type V = AppView;

    open spec fn view(&self) -> AppView {
        AppView {
            name: self.name@,
            exe_path: self.exe_path@,
            pids: self.pids@,
            icon: match self.icon {
                Some(ref i) => Some(i@),
                None => None,
            },
        }
    }
}

impl ApplicationInfo {
    /// Copy this entry; the copy has the same model.
    pub fn duplicate(&self) -> (r: ApplicationInfo)
        ensures
            r@ == self@,
    {
        let mut pids: Vec<u32> = Vec::new();
        let n = self.pids.len();
        let mut i: usize = 0;
        while i < n
            invariant
                n == self.pids@.len(),
                i <= n,
                pids@ == self.pids@.take(i as int),
            decreases n - i,
        {
            pids.push(self.pids[i]);
            assert(pids@ =~= self.pids@.take(i + 1));
            i = i + 1;
        }
        assert(pids@ =~= self.pids@);
        let r = ApplicationInfo {
            name: self.name.clone(),
            exe_path: self.exe_path.clone(),
            pids,
            icon: match self.icon {
                Some(ref i) => Some(i.clone()),
                None => None,
            },
        };
        assert(r@ == self@);
        r
    }
}

/// A process name that is system noise, compared ignoring ASCII case.
pub open spec fn skip_by_name(name: Seq<u8>) -> bool {
    ||| eq_ignore_ascii(name, "svchost".spec_bytes())
    ||| eq_ignore_ascii(name, "csrss".spec_bytes())
    ||| eq_ignore_ascii(name, "wininit".spec_bytes())
    ||| eq_ignore_ascii(name, "services".spec_bytes())
    ||| eq_ignore_ascii(name, "lsass".spec_bytes())
    ||| eq_ignore_ascii(name, "smss".spec_bytes())
    ||| eq_ignore_ascii(name, "System".spec_bytes())
    ||| eq_ignore_ascii(name, "Registry".spec_bytes())
    ||| eq_ignore_ascii(name, "Memory Compression".spec_bytes())
    ||| eq_ignore_ascii(name, "dwm".spec_bytes())
    ||| eq_ignore_ascii(name, "fontdrvhost".spec_bytes())
    ||| eq_ignore_ascii(name, "conhost".spec_bytes())
    ||| eq_ignore_ascii(name, "dllhost".spec_bytes())
    ||| eq_ignore_ascii(name, "sihost".spec_bytes())
    ||| eq_ignore_ascii(name, "taskhostw".spec_bytes())
    ||| eq_ignore_ascii(name, "RuntimeBroker".spec_bytes())
    ||| eq_ignore_ascii(name, "SearchHost".spec_bytes())
    ||| eq_ignore_ascii(name, "StartMenuExperienceHost".spec_bytes())
    ||| eq_ignore_ascii(name, "ShellExperienceHost".spec_bytes())
    ||| eq_ignore_ascii(name, "TextInputHost".spec_bytes())
    ||| eq_ignore_ascii(name, "SecurityHealthService".spec_bytes())
    ||| eq_ignore_ascii(name, "kernel_task".spec_bytes())
    ||| eq_ignore_ascii(name, "launchd".spec_bytes())
    ||| eq_ignore_ascii(name, "WindowServer".spec_bytes())
    ||| eq_ignore_ascii(name, "loginwindow".spec_bytes())
}

/// An executable path that lives in a system directory.
pub open spec fn skip_by_path(exe: Seq<char>) -> bool {
    ||| str_contains(exe, "\\Windows\\System32\\"@)
    ||| str_contains(exe, "\\Windows\\SysWOW64\\"@)
    ||| str_contains(exe, "/usr/libexec/"@)
    ||| str_contains(exe, "/System/Library/"@)
    ||| str_contains(exe, "/usr/sbin/"@)
}

/// Whether a process is left out of the application list: a well-known
/// system process name, or an executable in a system directory.
pub fn should_skip_process(name: &str, exe_path: &str) -> (r: bool)
    ensures
        r == (skip_by_name(name.spec_bytes()) || skip_by_path(exe_path@)),
{
    if str_eq_ignore_ascii_case(name, "svchost") || str_eq_ignore_ascii_case(name, "csrss")
        || str_eq_ignore_ascii_case(name, "wininit") || str_eq_ignore_ascii_case(name, "services")
        || str_eq_ignore_ascii_case(name, "lsass") || str_eq_ignore_ascii_case(name, "smss")
        || str_eq_ignore_ascii_case(name, "System") || str_eq_ignore_ascii_case(name, "Registry")
        || str_eq_ignore_ascii_case(name, "Memory Compression") || str_eq_ignore_ascii_case(
        name,
        "dwm",
    ) || str_eq_ignore_ascii_case(name, "fontdrvhost") || str_eq_ignore_ascii_case(name, "conhost")
        || str_eq_ignore_ascii_case(name, "dllhost") || str_eq_ignore_ascii_case(name, "sihost")
        || str_eq_ignore_ascii_case(name, "taskhostw") || str_eq_ignore_ascii_case(
        name,
        "RuntimeBroker",
    ) || str_eq_ignore_ascii_case(name, "SearchHost") || str_eq_ignore_ascii_case(
        name,
        "StartMenuExperienceHost",
    ) || str_eq_ignore_ascii_case(name, "ShellExperienceHost") || str_eq_ignore_ascii_case(
        name,
        "TextInputHost",
    ) || str_eq_ignore_ascii_case(name, "SecurityHealthService") || str_eq_ignore_ascii_case(
        name,
        "kernel_task",
    ) || str_eq_ignore_ascii_case(name, "launchd") || str_eq_ignore_ascii_case(
        name,
        "WindowServer",
    ) || str_eq_ignore_ascii_case(name, "loginwindow") {
        return true;
    }
    contains_str(exe_path, "\\Windows\\System32\\") || contains_str(
        exe_path,
        "\\Windows\\SysWOW64\\",
    ) || contains_str(exe_path, "/usr/libexec/") || contains_str(exe_path, "/System/Library/")
        || contains_str(exe_path, "/usr/sbin/")
}

/// Whether an application matches the search: the query occurs in its name
/// or executable path, case-insensitively.
pub open spec fn app_matches(a: AppView, query: Seq<char>) -> bool {
    str_contains(lower_of(a.name), lower_of(query)) || str_contains(
        lower_of(a.exe_path),
        lower_of(query),
    )
}

/// The applications matching the search, order kept.
pub open spec fn matching_apps(s: Seq<AppView>, query: Seq<char>) -> Seq<AppView>
    decreases s.len(),
{
    if s.len() == 0 {
        Seq::empty()
    } else if app_matches(s[0], query) {
        seq![s[0]] + matching_apps(s.drop_first(), query)
    } else {
        matching_apps(s.drop_first(), query)
    }
}

proof fn lemma_matching_snoc(s: Seq<AppView>, query: Seq<char>)
    requires
        s.len() > 0,
    ensures
        matching_apps(s, query) == (if app_matches(s.last(), query) {
            matching_apps(s.drop_last(), query).push(s.last())
        } else {
            matching_apps(s.drop_last(), query)
        }),
    decreases s.len(),
{
    if s.len() == 1 {
        assert(s.drop_first() =~= s.drop_last());
        assert(s.last() == s[0]);
        if app_matches(s.last(), query) {
            assert(matching_apps(s, query) =~= matching_apps(s.drop_last(), query).push(
                s.last(),
            ));
        }
    } else {
        lemma_matching_snoc(s.drop_first(), query);
        assert(s.drop_first().drop_last() =~= s.drop_last().drop_first());
        assert(s.drop_first().last() == s.last());
        assert(s.drop_last()[0] == s[0]);
        if app_matches(s[0], query) {
            if app_matches(s.last(), query) {
                assert(matching_apps(s, query) =~= matching_apps(s.drop_last(), query).push(
                    s.last(),
                ));
            } else {
                assert(matching_apps(s, query) =~= matching_apps(s.drop_last(), query));
            }
        } else {
            if app_matches(s.last(), query) {
                assert(matching_apps(s, query) =~= matching_apps(s.drop_last(), query).push(
                    s.last(),
                ));
            } else {
                assert(matching_apps(s, query) =~= matching_apps(s.drop_last(), query));
            }
        }
    }
}

/// The views of a list of application entries.
pub open spec fn app_views(v: Seq<ApplicationInfo>) -> Seq<AppView> {
    Seq::new(v.len(), |i: int| v[i]@)
}

/// Search the application list: exactly the entries whose name or
/// executable path holds the query, case-insensitively, in order.
pub fn search_applications(apps: &Vec<ApplicationInfo>, query: &str) -> (r: Vec<ApplicationInfo>)
    ensures
        app_views(r@) == matching_apps(app_views(apps@), query@),
{
    let ghost av = app_views(apps@);
    let n = apps.len();
    let mut out: Vec<ApplicationInfo> = Vec::new();
    let mut i: usize = 0;
    while i < n
        invariant
            n == apps@.len(),
            av == app_views(apps@),
            i <= n,
            app_views(out@) == matching_apps(av.take(i as int), query@),
        decreases n - i,
    {
        let ghost prefix = av.take(i as int);
        let entry = &apps[i];
        let name_l = lowercase(entry.name.as_str());
        let exe_l = lowercase(entry.exe_path.as_str());
        let query_l = lowercase(query);
        let hit = contains_str(name_l.as_str(), query_l.as_str()) || contains_str(
            exe_l.as_str(),
            query_l.as_str(),
        );
        if hit {
            out.push(entry.duplicate());
        }
        proof {
            lemma_matching_snoc(av.take(i + 1), query@);
            assert(av.take(i + 1).drop_last() =~= prefix);
            assert(av.take(i + 1).last() == av[i as int]);
            if app_matches(av[i as int], query@) {
                assert(app_views(out@) =~= matching_apps(prefix, query@).push(av[i as int]));
            }
        }
        i = i + 1;
    }
    assert(av.take(n as int) =~= av);
    out
}

} // verus!
