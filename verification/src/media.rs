//! The pure side of the video tool: what the probe output says and how the
//! compression presets map to encoder settings.  Running the encoder and
//! reading its output happen outside.

use vstd::prelude::*;

verus! {

/// What probing the video backend found.
pub struct FfmpegInfo {
    pub available: bool,
    pub path: String,
    pub version: String,
    pub output: String,
}

/// How a video is compressed: a named preset or explicit settings.
pub struct CompressParams {
    pub preset: String,
    pub width: Option<u32>,
    pub height: Option<u32>,
    pub bitrate: Option<u32>,
    pub crf: Option<u32>,
    pub codec: Option<String>,
    pub fps: Option<u32>,
}

/// The constant-rate factor a preset stands for; outside the named
/// presets, the explicit factor, defaulting to 23.
pub open spec fn spec_crf_for_preset(preset: Seq<char>, crf: Option<u32>) -> int {
    if preset == "mobile"@ {
        26
    } else if preset == "web"@ {
        30
    } else if preset == "high_quality"@ {
        23
    } else {
        match crf {
            Some(c) => c as int,
            None => 23,
        }
    }
}

/// The constant-rate factor the compression runs with.
pub fn crf_for_preset(preset: &str, crf: Option<u32>) -> (r: u32)
    ensures
        r as int == spec_crf_for_preset(preset@, crf),
{
    if crate::strutil::str_eq(preset, "mobile") {
        26
    } else if crate::strutil::str_eq(preset, "web") {
        30
    } else if crate::strutil::str_eq(preset, "high_quality") {
        23
    } else {
        match crf {
            Some(c) => c,
            None => 23,
        }
    }
}

/// The encoder library a codec name selects; anything unknown falls back
/// to H.264.
pub open spec fn spec_codec_arg(codec: Option<Seq<char>>) -> Seq<char> {
    match codec {
        Some(c) => {
            if c == "h265"@ {
                "libx265"@
            } else if c == "vp9"@ {
                "libvpx-vp9"@
            } else {
                "libx264"@
            }
        },
        None => "libx264"@,
    }
}

/// The encoder argument for the chosen codec.
pub fn codec_arg(codec: &Option<String>) -> (r: &'static str)
    ensures
        r@ == spec_codec_arg(
            match codec {
                Some(ref c) => Some(c@),
                None => None,
            },
        ),
{
    match codec {
        Some(c) => {
            if crate::strutil::str_eq(c.as_str(), "h265") {
                "libx265"
            } else if crate::strutil::str_eq(c.as_str(), "vp9") {
                "libvpx-vp9"
            } else {
                "libx264"
            }
        },
        None => "libx264",
    }
}

/// The characters up to (not including) the first occurrence of `c`; the
/// whole sequence when `c` does not occur.
pub open spec fn take_until(s: Seq<char>, c: char) -> Seq<char>
    decreases s.len(),
{
    if s.len() == 0 {
        s
    } else if s[0] == c {
        Seq::empty()
    } else {
        seq![s[0]] + take_until(s.drop_first(), c)
    }
}

/// The first line of the output: up to the first newline, a trailing
/// carriage return stripped.
pub open spec fn spec_first_line(s: Seq<char>) -> Seq<char> {
    let line = take_until(s, '\n');
    if line.len() > 0 && line.last() == '\r' {
        line.drop_last()
    } else {
        line
    }
}

/// What follows the first occurrence of `pat`, if it occurs.
pub open spec fn after_pattern(s: Seq<char>, pat: Seq<char>) -> Option<Seq<char>>
    decreases s.len(),
{
    if s.len() < pat.len() {
        None
    } else if s.take(pat.len() as int) == pat {
        Some(s.skip(pat.len() as int))
    } else if s.len() == 0 {
        None
    } else {
        after_pattern(s.drop_first(), pat)
    }
}

/// An ASCII blank inside one line.
pub open spec fn is_blank(c: char) -> bool {
    c == ' ' || c == '\t' || c == '\r'
}

/// The sequence with its leading blanks dropped.
pub open spec fn skip_blanks(s: Seq<char>) -> Seq<char>
    decreases s.len(),
{
    if s.len() > 0 && is_blank(s[0]) {
        skip_blanks(s.drop_first())
    } else {
        s
    }
}

/// The first blank-delimited token of the sequence.
pub open spec fn first_token(s: Seq<char>) -> Seq<char>
    decreases s.len(),
{
    let t = skip_blanks(s);
    if t.len() == 0 {
        Seq::empty()
    } else {
        take_until_blank(t)
    }
}

/// The characters up to the first blank.
pub open spec fn take_until_blank(s: Seq<char>) -> Seq<char>
    decreases s.len(),
{
    if s.len() == 0 {
        s
    } else if is_blank(s[0]) {
        Seq::empty()
    } else {
        seq![s[0]] + take_until_blank(s.drop_first())
    }
}

/// The version the probe output names: the first blank-delimited token
/// after the first occurrence of "version" in the first line; "unknown"
/// when there is none.
pub open spec fn spec_parse_ffmpeg_version(output: Seq<char>) -> Seq<char> {
    let line = spec_first_line(output);
    match after_pattern(line, "version"@) {
        Some(rest) => {
            if first_token(rest).len() == 0 {
                "unknown"@
            } else {
                first_token(rest)
            }
        },
        None => "unknown"@,
    }
}

pub proof fn lemma_take_until_is_take(s: Seq<char>, c: char, i: int)
    requires
        0 <= i <= s.len(),
        forall|k: int| 0 <= k < i ==> s[k] != c,
        i == s.len() || s[i] == c,
    ensures
        take_until(s, c) == s.take(i),
    decreases i,
{
    if s.len() == 0 {
        assert(take_until(s, c) =~= s.take(i));
    } else if i == 0 {
        assert(take_until(s, c) =~= s.take(0));
    } else {
        assert(s[0] != c);
        assert(forall|k: int| 0 <= k < s.drop_first().len() ==> s.drop_first()[k] == s[k + 1]);
        lemma_take_until_is_take(s.drop_first(), c, i - 1);
        assert(seq![s[0]] + s.drop_first().take(i - 1) =~= s.take(i));
    }
}

proof fn lemma_take_until_blank_is_take(s: Seq<char>, i: int)
    requires
        0 <= i <= s.len(),
        forall|k: int| 0 <= k < i ==> !is_blank(s[k]),
        i == s.len() || is_blank(s[i]),
    ensures
        take_until_blank(s) == s.take(i),
    decreases i,
{
    if s.len() == 0 {
        assert(take_until_blank(s) =~= s.take(i));
    } else if i == 0 {
        assert(take_until_blank(s) =~= s.take(0));
    } else {
        assert(!is_blank(s[0]));
        assert(forall|k: int| 0 <= k < s.drop_first().len() ==> s.drop_first()[k] == s[k + 1]);
        lemma_take_until_blank_is_take(s.drop_first(), i - 1);
        assert(seq![s[0]] + s.drop_first().take(i - 1) =~= s.take(i));
    }
}

proof fn lemma_skip_blanks_is_skip(s: Seq<char>, i: int)
    requires
        0 <= i <= s.len(),
        forall|k: int| 0 <= k < i ==> is_blank(s[k]),
        i == s.len() || !is_blank(s[i]),
    ensures
        skip_blanks(s) == s.skip(i),
    decreases i,
{
    if i == 0 {
        assert(s.skip(0) =~= s);
    } else {
        assert(is_blank(s[0]));
        assert(forall|k: int| 0 <= k < s.drop_first().len() ==> s.drop_first()[k] == s[k + 1]);
        lemma_skip_blanks_is_skip(s.drop_first(), i - 1);
        assert(s.drop_first().skip(i - 1) =~= s.skip(i));
    }
}

/// `pat` occurs in `s` at position `k`.
pub open spec fn match_at(s: Seq<char>, pat: Seq<char>, k: int) -> bool {
    0 <= k && k + pat.len() <= s.len() && s.subrange(k, k + pat.len() as int) == pat
}

proof fn lemma_after_pattern_skip(s: Seq<char>, pat: Seq<char>, i: int)
    requires
        0 <= i <= s.len(),
        forall|k: int| 0 <= k < i ==> !match_at(s, pat, k),
        pat.len() > 0,
    ensures
        after_pattern(s, pat) == after_pattern(s.skip(i), pat),
    decreases i,
{
    if i > 0 {
        assert(s.len() > 0);
        assert(!match_at(s, pat, 0));
        if s.len() >= pat.len() {
            assert(s.take(pat.len() as int) =~= s.subrange(0, pat.len() as int));
            assert(s.take(pat.len() as int) != pat);
        }
        assert(after_pattern(s, pat) == after_pattern(s.drop_first(), pat));
        assert(forall|k: int| 0 <= k < s.drop_first().len() ==> s.drop_first()[k] == s[k + 1]);
        assert forall|k: int| 0 <= k < i - 1 implies !match_at(s.drop_first(), pat, k) by {
            assert(!match_at(s, pat, k + 1));
            if k + pat.len() <= s.drop_first().len() {
                assert(s.drop_first().subrange(k, k + pat.len() as int) =~= s.subrange(
                    k + 1,
                    k + 1 + pat.len() as int,
                ));
            }
        }
        lemma_after_pattern_skip(s.drop_first(), pat, i - 1);
        assert(s.drop_first().skip(i - 1) =~= s.skip(i));
    } else {
        assert(s.skip(0) =~= s);
    }
}

/// Parse the version out of the probe's output: the first token after
/// "version" on the first line.
pub fn parse_ffmpeg_version(output: &str) -> (r: String)
    ensures
        r@ == spec_parse_ffmpeg_version(output@),
{
    let n = output.unicode_len();
    // Find the end of the first line.
    let mut eol: usize = 0;
    while eol < n && output.get_char(eol) != '\n'
        invariant
            n == output@.len(),
            eol <= n,
            forall|k: int| 0 <= k < eol ==> output@[k] != '\n',
        decreases n - eol,
    {
        eol = eol + 1;
    }
    proof {
        lemma_take_until_is_take(output@, '\n', eol as int);
    }
    let mut line_end = eol;
    if line_end > 0 && output.get_char(line_end - 1) == '\r' {
        line_end = line_end - 1;
    }
    let line = output.substring_char(0, line_end);
    proof {
        assert(output@.take(eol as int).len() == eol);
        if eol > 0 && output@.take(eol as int).last() == '\r' {
            assert(output@.take(eol as int).drop_last() =~= output@.take(eol as int - 1));
        }
        assert(line@ == spec_first_line(output@));
    }

    // Find the first occurrence of "version" in the line.
    let line_len = line.unicode_len();
    let pat = "version";
    let pat_len = pat.unicode_len();
    proof {
        reveal_strlit("version");
    }
    assert(pat_len == "version"@.len() && pat_len > 0);
    if line_len < pat_len {
        proof {
            lemma_after_pattern_short(line@, "version"@);
        }
        return "unknown".to_owned();
    }
    let mut i: usize = 0;
    while i <= line_len - pat_len
        invariant
            line_len == line@.len(),
            pat_len == "version"@.len(),
            pat@ == "version"@,
            pat_len <= line_len,
            i <= line_len - pat_len + 1,
            line@ == spec_first_line(output@),
            forall|k: int| 0 <= k < i ==> !match_at(line@, "version"@, k),
        decreases line_len - pat_len - i + 1,
    {
        let mut j: usize = 0;
        let mut hit = true;
        while j < pat_len
            invariant
                line_len == line@.len(),
                pat_len == pat@.len(),
                pat_len <= line_len,
                i <= line_len - pat_len,
                j <= pat_len,
                hit || j == pat_len,
                hit <==> (forall|k: int| 0 <= k < j ==> line@[i + k] == pat@[k]),
            decreases pat_len - j,
        {
            if line.get_char(i + j) != pat.get_char(j) {
                hit = false;
                j = pat_len;
            } else {
                assert(forall|k: int| 0 <= k < j + 1 ==> line@[i + k] == pat@[k]);
                j = j + 1;
            }
        }
        if hit {
            proof {
                reveal_strlit("version");
                assert(line@.subrange(i as int, i + pat_len as int) =~= pat@);
                lemma_after_pattern_skip(line@, "version"@, i as int);
                let tail = line@.skip(i as int);
                assert(tail.take(pat_len as int) =~= line@.subrange(i as int, i + pat_len as int));
                assert(after_pattern(tail, "version"@) == Some(tail.skip(pat_len as int)));
                assert(tail.skip(pat_len as int) =~= line@.skip(i + pat_len));
                assert(after_pattern(line@, "version"@) == Some(line@.skip(i + pat_len)));
                assert(line@.subrange(i + pat_len, line_len as int) =~= line@.skip(i + pat_len));
            }
            let rest_start = i + pat_len;
            return token_or_unknown(line.substring_char(rest_start, line_len));
        }
        proof {
            assert(line@.subrange(i as int, i + pat_len as int) != pat@) by {
                let w = choose|w: int| 0 <= w < pat_len && line@[i + w] != pat@[w];
                assert(line@.subrange(i as int, i + pat_len as int)[w] == line@[i + w]);
            }
            assert(!match_at(line@, "version"@, i as int));
        }
        i = i + 1;
    }
    proof {
        reveal_strlit("version");
        lemma_after_pattern_skip(line@, "version"@, i as int);
        lemma_after_pattern_short(line@.skip(i as int), "version"@);
    }
    "unknown".to_owned()
}

proof fn lemma_after_pattern_short(s: Seq<char>, pat: Seq<char>)
    requires
        s.len() < pat.len(),
    ensures
        after_pattern(s, pat) is None,
    decreases s.len(),
{
    if s.len() > 0 {
        lemma_after_pattern_short(s.drop_first(), pat);
    }
}

/// The first blank-delimited token of the rest, or "unknown" when there is
/// none.
fn token_or_unknown(rest: &str) -> (r: String)
    ensures
        r@ == (if first_token(rest@).len() == 0 {
            "unknown"@
        } else {
            first_token(rest@)
        }),
{
    let n = rest.unicode_len();
    let mut start: usize = 0;
    while start < n && is_blank_char(rest.get_char(start))
        invariant
            n == rest@.len(),
            start <= n,
            forall|k: int| 0 <= k < start ==> is_blank(rest@[k]),
        decreases n - start,
    {
        start = start + 1;
    }
    proof {
        lemma_skip_blanks_is_skip(rest@, start as int);
    }
    if start == n {
        assert(skip_blanks(rest@) =~= Seq::<char>::empty());
        return "unknown".to_owned();
    }
    let mut end: usize = start;
    while end < n && !is_blank_char(rest.get_char(end))
        invariant
            n == rest@.len(),
            start <= end <= n,
            forall|k: int| start <= k < end ==> !is_blank(rest@[k]),
        decreases n - end,
    {
        end = end + 1;
    }
    proof {
        let t = rest@.skip(start as int);
        assert(forall|k: int| 0 <= k < end - start ==> t[k] == rest@[k + start]);
        lemma_take_until_blank_is_take(t, end - start as int);
        assert(t.take(end - start as int) =~= rest@.subrange(start as int, end as int));
    }
    assert(end > start);
    let token = rest.substring_char(start, end).to_owned();
    assert(token@.len() > 0);
    token
}

/// Whether this character is an ASCII blank.
fn is_blank_char(c: char) -> (r: bool)
    ensures
        r == is_blank(c),
{
    c == ' ' || c == '\t' || c == '\r'
}

} // verus!
