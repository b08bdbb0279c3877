//! Process management records: what a port occupation and a kill attempt
//! report, and which process names count as system processes.  Running the
//! OS commands that gather or act on them happens outside.

use vstd::prelude::*;
use crate::handler::dec_digits;
use crate::handler::u32_to_string;
use crate::strutil::{lower_of, lowercase, spec_starts_with, starts_with, str_eq};

verus! {

/// One occupied port, as the OS reports it.
pub struct PortInfo {
    pub port: u16,
    pub protocol: String,
    pub local_address: String,
    pub remote_address: Option<String>,
    pub pid: u32,
    pub process_name: String,
    pub state: String,
}

/// What killing a process produced.
pub struct KillResult {
    pub success: bool,
    pub message: String,
    pub pid: u32,
}

/// Build the report of a kill attempt whose command has run: the process
/// is named by its id, and the message says whether it was terminated.
pub fn kill_process(pid: u32, success: bool) -> (r: KillResult)
    ensures
        r.pid == pid,
        r.success == success,
        success ==> r.message@ == "进程 "@ + dec_digits(pid as nat) + " 已终止"@,
        !success ==> r.message@ == "终止进程 "@ + dec_digits(pid as nat) + " 失败"@,
{
    let message = if success {
        let mut m = "进程 ".to_owned();
        m.append(u32_to_string(pid).as_str());
        m.append(" 已终止");
        m
    } else {
        let mut m = "终止进程 ".to_owned();
        m.append(u32_to_string(pid).as_str());
        m.append(" 失败");
        m
    };
    KillResult { success, message, pid }
}

/// The numeric value of a decimal digit character; ten marks a non-digit.
pub open spec fn digit_value(c: char) -> int {
    if c == '0' {
        0
    } else if c == '1' {
        1
    } else if c == '2' {
        2
    } else if c == '3' {
        3
    } else if c == '4' {
        4
    } else if c == '5' {
        5
    } else if c == '6' {
        6
    } else if c == '7' {
        7
    } else if c == '8' {
        8
    } else if c == '9' {
        9
    } else {
        10
    }
}

/// Every character of the sequence is a decimal digit.
pub open spec fn all_digits(s: Seq<char>) -> bool {
    forall|i: int| 0 <= i < s.len() ==> digit_value(s[i]) < 10
}

/// The number the digit sequence denotes.
pub open spec fn digits_value(s: Seq<char>) -> int
    decreases s.len(),
{
    if s.len() == 0 {
        0
    } else {
        digits_value(s.drop_last()) * 10 + digit_value(s.last())
    }
}

/// What parsing a port number yields: the denoted value for a non-empty,
/// all-digit sequence that fits a port; nothing otherwise.
pub open spec fn spec_parse_u16(s: Seq<char>) -> Option<u16> {
    if s.len() > 0 && all_digits(s) && digits_value(s) <= 65535 {
        Some(digits_value(s) as u16)
    } else {
        None
    }
}

proof fn lemma_digits_value_nonneg(s: Seq<char>)
    ensures
        digits_value(s) >= 0,
    decreases s.len(),
{
    if s.len() > 0 {
        lemma_digits_value_nonneg(s.drop_last());
    }
}

proof fn lemma_digits_step(s: Seq<char>, j: int)
    requires
        0 <= j < s.len(),
    ensures
        digits_value(s.take(j + 1)) == digits_value(s.take(j)) * 10 + digit_value(s[j]),
{
    assert(s.take(j + 1).drop_last() =~= s.take(j));
    assert(s.take(j + 1).last() == s[j]);
}

proof fn lemma_digits_monotone(s: Seq<char>, i: int, j: int)
    requires
        0 <= i <= j <= s.len(),
    ensures
        digits_value(s.take(i)) <= digits_value(s.take(j)),
    decreases j - i,
{
    if i < j {
        lemma_digits_monotone(s, i, j - 1);
        lemma_digits_step(s, j - 1);
        lemma_digits_value_nonneg(s.take(j - 1));
    }
}

/// Parse a decimal port number: exactly the non-empty all-digit strings
/// whose value fits sixteen bits.
pub fn parse_u16(s: &str) -> (r: Option<u16>)
    ensures
        r == spec_parse_u16(s@),
{
    let n = s.unicode_len();
    if n == 0 {
        return None;
    }
    let mut acc: u32 = 0;
    let mut i: usize = 0;
    while i < n
        invariant
            n == s@.len(),
            i <= n,
            acc == digits_value(s@.take(i as int)),
            acc <= 65535,
            forall|k: int| 0 <= k < i ==> digit_value(s@[k]) < 10,
        decreases n - i,
    {
        let c = s.get_char(i);
        let v: u32 = match c {
            '0' => 0,
            '1' => 1,
            '2' => 2,
            '3' => 3,
            '4' => 4,
            '5' => 5,
            '6' => 6,
            '7' => 7,
            '8' => 8,
            '9' => 9,
            _ => {
                assert(digit_value(s@[i as int]) == 10);
                return None;
            },
        };
        assert(v as int == digit_value(s@[i as int]));
        proof {
            lemma_digits_step(s@, i as int);
        }
        let next = acc * 10 + v;
        if next > 65535 {
            proof {
                lemma_digits_monotone(s@, i + 1, n as int);
                assert(s@.take(n as int) =~= s@);
            }
            return None;
        }
        acc = next;
        i = i + 1;
    }
    assert(s@.take(n as int) =~= s@);
    Some(acc as u16)
}

/// The suffix starting at the first occurrence of `c`, if `c` occurs.
pub open spec fn from_char(s: Seq<char>, c: char) -> Option<Seq<char>>
    decreases s.len(),
{
    if s.len() == 0 {
        None
    } else if s[0] == c {
        Some(s)
    } else {
        from_char(s.drop_first(), c)
    }
}

proof fn lemma_from_char_skip(s: Seq<char>, c: char, i: int)
    requires
        0 <= i <= s.len(),
        forall|k: int| 0 <= k < i ==> s[k] != c,
    ensures
        from_char(s, c) == from_char(s.skip(i), c),
    decreases i,
{
    if i > 0 {
        assert(s[0] != c);
        assert(forall|k: int| 0 <= k < s.drop_first().len() ==> s.drop_first()[k] == s[k + 1]);
        lemma_from_char_skip(s.drop_first(), c, i - 1);
        assert(s.drop_first().skip(i - 1) =~= s.skip(i));
    } else {
        assert(s.skip(0) =~= s);
    }
}

/// An arrow ("->") stands at position `k`.
pub open spec fn arrow_at(s: Seq<char>, k: int) -> bool {
    0 <= k && k + 1 < s.len() && s[k] == '-' && s[k + 1] == '>'
}

/// The prefix before the first arrow; the whole sequence when there is
/// none.
pub open spec fn before_arrow(s: Seq<char>) -> Seq<char>
    decreases s.len(),
{
    if s.len() < 2 {
        s
    } else if s[0] == '-' && s[1] == '>' {
        Seq::empty()
    } else {
        seq![s[0]] + before_arrow(s.drop_first())
    }
}

proof fn lemma_before_arrow(s: Seq<char>, i: int)
    requires
        0 <= i <= s.len(),
        forall|k: int| 0 <= k < i ==> !arrow_at(s, k),
    ensures
        arrow_at(s, i) ==> before_arrow(s) == s.take(i),
        i + 1 >= s.len() ==> before_arrow(s) == s,
    decreases i,
{
    if s.len() > 0 {
        assert(forall|k: int|
            0 <= k < s.drop_first().len() ==> s.drop_first()[k] == s[k + 1]);
    }
    if i == 0 {
        if s.len() <= 1 {
            assert(before_arrow(s) =~= s);
        } else if arrow_at(s, 0) {
            assert(before_arrow(s) =~= s.take(0));
        }
    } else {
        assert(!arrow_at(s, 0));
        assert(forall|k: int| 0 <= k < i - 1 ==> !arrow_at(s.drop_first(), k)) by {
            assert forall|k: int| 0 <= k < i - 1 implies !arrow_at(s.drop_first(), k) by {
                assert(!arrow_at(s, k + 1));
            }
        }
        lemma_before_arrow(s.drop_first(), i - 1);
        if arrow_at(s, i) {
            assert(arrow_at(s.drop_first(), i - 1));
            assert(s.len() >= 2);
            assert(seq![s[0]] + s.drop_first().take(i - 1) =~= s.take(i));
        }
        if i + 1 >= s.len() {
            if s.len() >= 2 {
                assert(seq![s[0]] + s.drop_first() =~= s);
            } else {
                assert(before_arrow(s) =~= s);
            }
        }
    }
}

/// The tail after the last colon; the whole sequence when there is none.
pub open spec fn after_last_colon(s: Seq<char>) -> Seq<char> {
    if crate::strutil::has_char(s, ':') {
        s.skip(crate::strutil::last_index(s, ':') + 1)
    } else {
        s
    }
}

/// The address an occupied port is reported with, cut down to its local
/// part: from the opening bracket, to the first blank or parenthesis,
/// before any arrow to the remote address.
pub open spec fn spec_cut_address(s: Seq<char>) -> Seq<char> {
    if crate::strutil::has_char(s, ' ') {
        crate::media::take_until(s, ' ')
    } else if crate::strutil::has_char(s, '(') {
        crate::media::take_until(s, '(')
    } else {
        s
    }
}

/// The local port of a reported address such as "[::1]:1421 (LISTEN)" or
/// "[::1]:1421->[::1]:49224 (ESTABLISHED)": the digits after the last
/// colon of the local part, when they parse as a port; nothing without an
/// opening bracket.
pub open spec fn spec_extract_local_port(s: Seq<char>) -> Option<u16> {
    match from_char(s, '[') {
        Some(part) => spec_parse_u16(after_last_colon(before_arrow(spec_cut_address(part)))),
        None => None,
    }
}

/// Extract the local port from a reported socket address.
pub fn extract_local_port(address_str: &str) -> (r: Option<u16>)
    ensures
        r == spec_extract_local_port(address_str@),
{
    let n = address_str.unicode_len();
    // The opening bracket of the local address.
    let mut b: usize = 0;
    while b < n && address_str.get_char(b) != '['
        invariant
            n == address_str@.len(),
            b <= n,
            forall|k: int| 0 <= k < b ==> address_str@[k] != '[',
        decreases n - b,
    {
        b = b + 1;
    }
    proof {
        lemma_from_char_skip(address_str@, '[', b as int);
    }
    if b == n {
        assert(address_str@.skip(n as int) =~= Seq::<char>::empty());
        return None;
    }
    let part = address_str.substring_char(b, n);
    assert(part@ =~= address_str@.skip(b as int));
    assert(from_char(address_str@, '[') == Some(part@)) by {
        assert(address_str@.skip(b as int)[0] == address_str@[b as int]);
    }

    // Cut at the first blank, else at the first parenthesis.
    let part_len = part.unicode_len();
    let mut sp: usize = 0;
    while sp < part_len && part.get_char(sp) != ' '
        invariant
            part_len == part@.len(),
            sp <= part_len,
            forall|k: int| 0 <= k < sp ==> part@[k] != ' ',
        decreases part_len - sp,
    {
        sp = sp + 1;
    }
    let mut cut_end: usize = part_len;
    if sp < part_len {
        proof {
            crate::media::lemma_take_until_is_take(part@, ' ', sp as int);
        }
        cut_end = sp;
    } else {
        let mut pp: usize = 0;
        while pp < part_len && part.get_char(pp) != '('
            invariant
                part_len == part@.len(),
                pp <= part_len,
                forall|k: int| 0 <= k < pp ==> part@[k] != '(',
            decreases part_len - pp,
        {
            pp = pp + 1;
        }
        if pp < part_len {
            proof {
                crate::media::lemma_take_until_is_take(part@, '(', pp as int);
            }
            cut_end = pp;
        } else {
            assert(part@.take(part_len as int) =~= part@);
        }
    }
    let cut = part.substring_char(0, cut_end);
    assert(cut@ == spec_cut_address(part@));

    // Keep only what precedes an arrow to the remote address.
    let cut_len = cut.unicode_len();
    let mut a: usize = 0;
    let mut local_end: usize = cut_len;
    while cut_len - a > 1 && !(cut.get_char(a) == '-' && cut.get_char(a + 1) == '>')
        invariant
            cut_len == cut@.len(),
            a <= cut_len,
            forall|k: int| 0 <= k < a ==> !arrow_at(cut@, k),
        decreases cut_len - a,
    {
        proof {
            assert(!arrow_at(cut@, a as int));
        }
        a = a + 1;
    }
    proof {
        lemma_before_arrow(cut@, a as int);
    }
    if cut_len - a > 1 {
        local_end = a;
    }
    let local = cut.substring_char(0, local_end);
    assert(local@ == before_arrow(cut@));

    // The digits after the last colon of the local part.
    let digits = match crate::strutil::rfind_char(local, ':') {
        Some(j) => {
            let r = local.substring_char(j + 1, local_end);
            assert(r@ =~= local@.skip(j + 1));
            r
        },
        None => local,
    };
    assert(digits@ == after_last_colon(local@));
    parse_u16(digits)
}

/// A name of a system process, after lowercasing: one of the well-known
/// names, or one beginning with "svchost" or "rcu_".
pub open spec fn spec_is_system_process(lower_name: Seq<char>) -> bool {
    ||| lower_name == "system"@
    ||| lower_name == "system idle process"@
    ||| lower_name == "registry"@
    ||| lower_name == "smss.exe"@
    ||| lower_name == "csrss.exe"@
    ||| lower_name == "wininit.exe"@
    ||| lower_name == "services.exe"@
    ||| lower_name == "lsass.exe"@
    ||| lower_name == "svchost.exe"@
    ||| lower_name == "explorer.exe"@
    ||| lower_name == "systemd"@
    ||| lower_name == "kthreadd"@
    ||| lower_name == "ksoftirqd"@
    ||| lower_name == "migration"@
    ||| lower_name == "rcu_"@
    ||| lower_name == "init"@
    ||| spec_starts_with(lower_name, "svchost"@)
    ||| spec_starts_with(lower_name, "rcu_"@)
}

/// Whether this process name names a system process, compared after
/// lowercasing.
pub fn is_system_process(name: &str) -> (r: bool)
    ensures
        r == spec_is_system_process(lower_of(name@)),
{
    let l = lowercase(name);
    let ls = l.as_str();
    str_eq(ls, "system") || str_eq(ls, "system idle process") || str_eq(ls, "registry") || str_eq(
        ls,
        "smss.exe",
    ) || str_eq(ls, "csrss.exe") || str_eq(ls, "wininit.exe") || str_eq(ls, "services.exe")
        || str_eq(ls, "lsass.exe") || str_eq(ls, "svchost.exe") || str_eq(ls, "explorer.exe")
        || str_eq(ls, "systemd") || str_eq(ls, "kthreadd") || str_eq(ls, "ksoftirqd") || str_eq(
        ls,
        "migration",
    ) || str_eq(ls, "rcu_") || str_eq(ls, "init") || starts_with(ls, "svchost") || starts_with(
        ls,
        "rcu_",
    )
}

} // verus!
