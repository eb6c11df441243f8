use vstd::prelude::*;
use vstd::string::*;

verus! {

/// Unicode `White_Space`, the set that `char::is_whitespace` tests.
pub open spec fn is_ws(c: char) -> bool {
    let u = c as u32;
    ||| 0x09 <= u <= 0x0D
    ||| u == 0x20
    ||| u == 0x85
    ||| u == 0xA0
    ||| u == 0x1680
    ||| 0x2000 <= u <= 0x200A
    ||| u == 0x2028
    ||| u == 0x2029
    ||| u == 0x202F
    ||| u == 0x205F
    ||| u == 0x3000
}

/// `s` without its leading whitespace.
pub open spec fn trim_start(s: Seq<char>) -> Seq<char>
    decreases s.len(),
{
    if s.len() > 0 && is_ws(s[0]) {
        trim_start(s.drop_first())
    } else {
        s
    }
}

/// `s` without its trailing whitespace.
pub open spec fn trim_end(s: Seq<char>) -> Seq<char>
    decreases s.len(),
{
    if s.len() > 0 && is_ws(s.last()) {
        trim_end(s.drop_last())
    } else {
        s
    }
}

/// `s` without leading and trailing whitespace.
pub open spec fn trimmed(s: Seq<char>) -> Seq<char> {
    trim_end(trim_start(s))
}

/// Joins `rest` onto `base` the way a POSIX path is extended: an absolute
/// `rest` replaces `base`; otherwise a separator is inserted unless `base`
/// is empty or already ends with one.
pub open spec fn path_join(base: Seq<char>, rest: Seq<char>) -> Seq<char> {
    if rest.len() > 0 && rest[0] == '/' {
        rest
    } else if base.len() == 0 || base.last() == '/' {
        base + rest
    } else {
        base + seq!['/'] + rest
    }
}

/// The characters of an optional string.
pub open spec fn opt_view(o: Option<String>) -> Option<Seq<char>> {
    match o {
        Some(h) => Some(h@),
        None => None,
    }
}

/// Expansion of a user-supplied override path: `~` is the home directory,
/// `~/rest` and `~\rest` are `rest` joined onto it; anything else, and every
/// form when the home directory is unknown, stands for itself.
pub open spec fn expand_override(raw: Seq<char>, home: Option<Seq<char>>) -> Seq<char> {
    match home {
        Some(h) => if raw == seq!['~'] {
            h
        } else if raw.len() >= 2 && raw[0] == '~' && (raw[1] == '/' || raw[1] == '\\') {
            path_join(h, raw.subrange(2, raw.len() as int))
        } else {
            raw
        },
        None => raw,
    }
}

/// The characters of an optional string slice.
pub open spec fn opt_str_view(o: Option<&str>) -> Option<Seq<char>> {
    match o {
        Some(h) => Some(h@),
        None => None,
    }
}

/// The home directory, or the current directory `.` when it is unknown.
pub open spec fn home_or_current(home: Option<Seq<char>>) -> Seq<char> {
    match home {
        Some(h) => h,
        None => seq!['.'],
    }
}

/// Whether `c` is whitespace in the sense of `char::is_whitespace`.
pub fn is_whitespace_char(c: char) -> (r: bool)
    ensures
        r == is_ws(c),
{
    let u = c as u32;
    (0x09 <= u && u <= 0x0D) || u == 0x20 || u == 0x85 || u == 0xA0 || u == 0x1680 || (0x2000
        <= u && u <= 0x200A) || u == 0x2028 || u == 0x2029 || u == 0x202F || u == 0x205F || u
        == 0x3000
}

proof fn lemma_trim_start_step(s: Seq<char>, i: int)
    requires
        0 <= i < s.len(),
        is_ws(s[i]),
    ensures
        trim_start(s.subrange(i, s.len() as int)) == trim_start(s.subrange(i + 1, s.len() as int)),
{
    let t = s.subrange(i, s.len() as int);
    assert(t.drop_first() =~= s.subrange(i + 1, s.len() as int));
}

proof fn lemma_trim_end_step(s: Seq<char>, i: int, j: int)
    requires
        0 <= i < j <= s.len(),
        is_ws(s[j - 1]),
    ensures
        trim_end(s.subrange(i, j)) == trim_end(s.subrange(i, j - 1)),
{
    let t = s.subrange(i, j);
    assert(t.drop_last() =~= s.subrange(i, j - 1));
}

proof fn lemma_trim_start_shape(s: Seq<char>)
    ensures
        trim_start(s).len() == 0 || !is_ws(trim_start(s)[0]),
    decreases s.len(),
{
    if s.len() > 0 && is_ws(s[0]) {
        lemma_trim_start_shape(s.drop_first());
    }
}

proof fn lemma_trim_end_shape(s: Seq<char>)
    ensures
        trim_end(s).len() <= s.len(),
        forall|i: int| 0 <= i < trim_end(s).len() ==> trim_end(s)[i] == s[i],
        trim_end(s).len() == 0 || !is_ws(trim_end(s).last()),
    decreases s.len(),
{
    if s.len() > 0 && is_ws(s.last()) {
        let d = s.drop_last();
        lemma_trim_end_shape(d);
        assert forall|i: int| 0 <= i < trim_end(s).len() implies trim_end(s)[i] == s[i] by {
            assert(trim_end(s)[i] == d[i]);
        }
    }
}

/// Trimming a trimmed sequence changes nothing.
pub proof fn lemma_trimmed_idempotent(s: Seq<char>)
    ensures
        trimmed(trimmed(s)) == trimmed(s),
{
    let a = trim_start(s);
    let b = trim_end(a);
    lemma_trim_start_shape(s);
    lemma_trim_end_shape(a);
    if b.len() > 0 {
        assert(b[0] == a[0]);
    }
    assert(trim_start(b) == b);
}

/// `s` with leading and trailing whitespace removed.
pub fn trim(s: &str) -> (r: String)
    ensures
        r@ == trimmed(s@),
{
    let n = s.unicode_len();
    let mut i: usize = 0;
    assert(s@.subrange(0, n as int) =~= s@);
    while i < n && is_whitespace_char(s.get_char(i))
        invariant
            i <= n,
            n == s@.len(),
            trim_start(s@) == trim_start(s@.subrange(i as int, n as int)),
        decreases n - i,
    {
        proof {
            lemma_trim_start_step(s@, i as int);
        }
        i = i + 1;
    }
    proof {
        let t = s@.subrange(i as int, n as int);
        if i < n {
            assert(t[0] == s@[i as int]);
        }
    }
    let mut j: usize = n;
    while j > i && is_whitespace_char(s.get_char(j - 1))
        invariant
            i <= j <= n,
            n == s@.len(),
            trim_start(s@) == s@.subrange(i as int, n as int),
            trim_end(s@.subrange(i as int, n as int)) == trim_end(s@.subrange(i as int, j as int)),
        decreases j,
    {
        proof {
            lemma_trim_end_step(s@, i as int, j as int);
        }
        j = j - 1;
    }
    proof {
        let t = s@.subrange(i as int, j as int);
        if i < j {
            assert(t.last() == s@[j - 1]);
        }
    }
    String::from_str(s.substring_char(i, j))
}

/// `rest` joined onto the path `base` (see `path_join`).
pub fn join_path(base: &str, rest: &str) -> (r: String)
    ensures
        r@ == path_join(base@, rest@),
{
    let rn = rest.unicode_len();
    let bn = base.unicode_len();
    if rn > 0 && rest.get_char(0) == '/' {
        return String::from_str(rest);
    }
    let mut out = String::from_str(base);
    if bn > 0 && base.get_char(bn - 1) != '/' {
        let sep = "/";
        proof {
            reveal_strlit("/");
        }
        out.append(sep);
    }
    out.append(rest);
    proof {
        if !(bn == 0 || base@.last() == '/') {
            assert(out@ =~= base@ + seq!['/'] + rest@);
        }
    }
    out
}

/// The home directory when known, otherwise the current directory `.`.
pub fn home_dir_or_current(home: Option<String>) -> (r: String)
    ensures
        r@ == home_or_current(opt_view(home)),
{
    match home {
        Some(h) => h,
        None => {
            let dot = ".";
            proof {
                reveal_strlit(".");
            }
            String::from_str(dot)
        },
    }
}

/// Expands `~`, `~/rest` and `~\rest` against the home directory; any other
/// text, or any text when the home directory is unknown, is returned as is.
pub fn resolve_override_path(raw: &str, home: &Option<String>) -> (r: String)
    ensures
        r@ == expand_override(raw@, opt_view(*home)),
{
    let n = raw.unicode_len();
    match home {
        Some(h) => {
            if n == 1 && raw.get_char(0) == '~' {
                assert(raw@ =~= seq!['~']);
                return h.clone();
            }
            if n >= 2 && raw.get_char(0) == '~' && (raw.get_char(1) == '/' || raw.get_char(1)
                == '\\') {
                let rest = raw.substring_char(2, n);
                return join_path(h.as_str(), rest);
            }
            proof {
                if raw@ == seq!['~'] {
                    assert(raw@.len() == 1);
                }
            }
            String::from_str(raw)
        },
        None => String::from_str(raw),
    }
}

/// The first of `candidates` that is not empty.
pub open spec fn first_nonempty(candidates: Seq<String>) -> Option<Seq<char>>
    decreases candidates.len(),
{
    if candidates.len() == 0 {
        None
    } else if candidates[0]@.len() > 0 {
        Some(candidates[0]@)
    } else {
        first_nonempty(candidates.drop_first())
    }
}

/// The home directory: the first non-empty candidate from the environment,
/// else what the platform reports.
pub open spec fn chosen_home(candidates: Seq<String>, platform: Option<Seq<char>>) -> Option<Seq<char>> {
    match first_nonempty(candidates) {
        Some(h) => Some(h),
        None => platform,
    }
}

/// The user's home directory from `candidates`, the values read from the
/// environment in order of preference, and `platform_home`, what the
/// platform reports: the first candidate that is not empty, else
/// `platform_home`.
pub fn home_dir(candidates: &Vec<String>, platform_home: Option<String>) -> (r: Option<String>)
    ensures
        opt_view(r) == chosen_home(candidates@, opt_view(platform_home)),
{
    let mut i: usize = 0;
    assert(candidates@.subrange(0, candidates@.len() as int) =~= candidates@);
    while i < candidates.len()
        invariant
            i <= candidates.len(),
            first_nonempty(candidates@) == first_nonempty(
                candidates@.subrange(i as int, candidates@.len() as int),
            ),
        decreases candidates.len() - i,
    {
        let c = &candidates[i];
        proof {
            let rest = candidates@.subrange(i as int, candidates@.len() as int);
            assert(rest[0] == candidates@[i as int]);
            assert(rest.drop_first() =~= candidates@.subrange(i + 1, candidates@.len() as int));
        }
        if c.as_str().unicode_len() > 0 {
            return Some(c.clone());
        }
        i = i + 1;
    }
    proof {
        assert(candidates@.subrange(i as int, candidates@.len() as int).len() == 0);
    }
    platform_home
}

} // verus!
