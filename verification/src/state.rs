use vstd::prelude::*;

verus! {

/// The power settings captured before stay-awake mode is switched on, so that
/// they can be put back exactly when it is switched off.
#[derive(Clone, Copy, Debug, PartialEq, Eq, Structural)]
pub struct SavedState {
    pub lid_close_ac: u32,
    pub lid_close_dc: u32,
    pub sleep_idle_ac: u32,
    pub sleep_idle_dc: u32,
}


/// Name of the folder that holds the saved-state file.
pub const STATE_DIR_NAME: &'static str = "Clam";

/// Name of the saved-state file.
pub const STATE_FILE_NAME: &'static str = "saved_state.json";

/// Where the local application data lives under a user profile.
pub const LOCAL_APP_DATA_UNDER_PROFILE: &'static str = "\\AppData\\Local";

pub open spec fn is_separator(c: char) -> bool {
    c == '\\' || c == '/'
}

pub open spec fn is_ascii_letter(c: char) -> bool {
    ('a' <= c && c <= 'z') || ('A' <= c && c <= 'Z')
}

/// A bare drive such as `C:`, to which a component is appended without a
/// separator (giving `C:Clam`, relative to that drive's current folder).
pub open spec fn is_bare_drive(p: Seq<char>) -> bool {
    p.len() == 2 && is_ascii_letter(p[0]) && p[1] == ':'
}

/// A single path component with no separator in it, other than `.` and `..`.
pub open spec fn is_plain_component(p: Seq<char>) -> bool {
    &&& p.len() > 0
    &&& p != seq!['.']
    &&& p != seq!['.', '.']
    &&& forall|i: int| 0 <= i < p.len() ==> !is_separator(#[trigger] p[i])
}

/// A verbatim path, starting `\\?\`, in which only `\` separates components.
pub open spec fn is_verbatim(b: Seq<char>) -> bool {
    b.len() >= 4 && b[0] == '\\' && b[1] == '\\' && b[2] == '?' && b[3] == '\\'
}

/// The length of the part of `s` before its first `\`.
pub open spec fn first_sep(s: Seq<char>) -> int
    decreases s.len(),
{
    if s.len() == 0 || s[0] == '\\' {
        0
    } else {
        1 + first_sep(s.drop_first())
    }
}

/// Whether a verbatim path goes on with `UNC\` (`\\?\UNC\server\share`).
pub open spec fn is_verbatim_unc(b: Seq<char>) -> bool {
    b.len() >= 8 && b[4] == 'U' && b[5] == 'N' && b[6] == 'C' && b[7] == '\\'
}

/// The length of the prefix of a verbatim path: `\\?\UNC\server\share`
/// (without `\share` when the share is empty), or else `\\?\` and what
/// comes before the next `\`.
pub open spec fn verbatim_prefix_len(b: Seq<char>) -> int {
    if is_verbatim_unc(b) {
        let after = b.skip(8);
        let server = first_sep(after);
        let share = if server < after.len() { first_sep(after.skip(server + 1)) } else { 0 };
        8 + server + (if share > 0 { 1 + share } else { 0 })
    } else {
        4 + first_sep(b.skip(4))
    }
}

/// The components of the rest of a verbatim path, each written after one
/// `\`: runs of `\` count as one and a trailing `\` is dropped.
pub open spec fn squeeze(r: Seq<char>) -> Seq<char>
    decreases r.len(),
{
    if r.len() == 0 {
        seq![]
    } else {
        let init = r.drop_last();
        let c = r.last();
        if c == '\\' {
            squeeze(init)
        } else if init.len() == 0 || init.last() == '\\' {
            squeeze(init) + seq!['\\', c]
        } else {
            squeeze(init).push(c)
        }
    }
}

/// A component appended to a Windows path, as `PathBuf::push` does it. A
/// verbatim path is rebuilt from its components: its prefix, then each
/// non-empty component after one `\`, then the new one after one `\`. Any
/// other path gets a backslash before the new component unless it is empty,
/// already ends in a separator, or is a bare drive.
pub open spec fn join_path(base: Seq<char>, part: Seq<char>) -> Seq<char> {
    if is_verbatim(base) {
        let n = verbatim_prefix_len(base);
        base.take(n) + squeeze(base.skip(n)) + seq!['\\'] + part
    } else if base.len() == 0 || is_separator(base.last()) || is_bare_drive(base) {
        base + part
    } else {
        base + seq!['\\'] + part
    }
}

proof fn lemma_first_sep(t: Seq<char>, k: int)
    requires
        0 <= k <= t.len(),
        forall|j: int| 0 <= j < k ==> t[j] != '\\',
        k == t.len() || t[k] == '\\',
    ensures
        first_sep(t) == k,
    decreases k,
{
    if k > 0 {
        lemma_first_sep(t.drop_first(), k - 1);
    }
}

/// The index of the first `\` in `s` at or after `from`, or the length.
fn sep_from(s: &str, n: usize, from: usize) -> (k: usize)
    requires
        n == s@.len(),
        from <= n,
    ensures
        from <= k <= n,
        k - from == first_sep(s@.skip(from as int)),
{
    let mut k: usize = from;
    while k < n && s.get_char(k) != '\\'
        invariant
            n == s@.len(),
            from <= k <= n,
            forall|j: int| from <= j < k ==> s@[j] != '\\',
        decreases n - k,
    {
        k = k + 1;
    }
    proof {
        lemma_first_sep(s@.skip(from as int), k - from);
    }
    k
}

/// The length of the prefix of a verbatim path.
fn verbatim_prefix_length(s: &str, n: usize) -> (len: usize)
    requires
        n == s@.len(),
        is_verbatim(s@),
    ensures
        len == verbatim_prefix_len(s@),
        len <= n,
{
    if n >= 8 && s.get_char(4) == 'U' && s.get_char(5) == 'N' && s.get_char(6) == 'C' && s.get_char(7) == '\\' {
        let server_end = sep_from(s, n, 8);
        let share_end = if server_end < n {
            sep_from(s, n, server_end + 1)
        } else {
            server_end
        };
        proof {
            let after = s@.skip(8);
            if server_end < n {
                assert(after.skip(server_end - 8 + 1) =~= s@.skip(server_end + 1));
            }
        }
        if server_end < n && share_end > server_end + 1 {
            share_end
        } else {
            server_end
        }
    } else {
        sep_from(s, n, 4)
    }
}

/// No two `\` in a row.
pub open spec fn no_double_sep(s: Seq<char>) -> bool {
    forall|i: int| 0 <= i < s.len() - 1 ==> !(#[trigger] s[i] == '\\' && s[i + 1] == '\\')
}

/// Components each written after one `\`: empty, or starting with `\`, not
/// ending with one, and never two in a row.
pub open spec fn is_normal_tail(s: Seq<char>) -> bool {
    &&& s.len() == 0 || (s[0] == '\\' && s.last() != '\\')
    &&& no_double_sep(s)
}

proof fn lemma_first_sep_bound(s: Seq<char>)
    ensures
        0 <= first_sep(s) <= s.len(),
    decreases s.len(),
{
    if s.len() > 0 && s[0] != '\\' {
        lemma_first_sep_bound(s.drop_first());
    }
}

proof fn lemma_prefix_len_bound(b: Seq<char>)
    requires
        is_verbatim(b),
    ensures
        4 <= verbatim_prefix_len(b) <= b.len(),
{
    lemma_first_sep_bound(b.skip(4));
    lemma_first_sep_bound(b.skip(8));
    let after = b.skip(8);
    let server = first_sep(after);
    if is_verbatim_unc(b) && server < after.len() {
        lemma_first_sep_bound(after.skip(server + 1));
    }
}

proof fn lemma_squeeze_shape(r: Seq<char>)
    ensures
        is_normal_tail(squeeze(r)),
        r.len() > 0 && r.last() != '\\' ==> squeeze(r).len() > 0 && squeeze(r).last() == r.last(),
    decreases r.len(),
{
    if r.len() > 0 {
        let init = r.drop_last();
        let c = r.last();
        lemma_squeeze_shape(init);
        let si = squeeze(init);
        let s = squeeze(r);
        if c == '\\' {
        } else if init.len() == 0 || init.last() == '\\' {
            assert(s == si + seq!['\\', c]);
            assert forall|i: int| 0 <= i < s.len() - 1 implies !(#[trigger] s[i] == '\\' && s[i + 1] == '\\') by {
                if i < si.len() - 1 {
                    assert(s[i] == si[i] && s[i + 1] == si[i + 1]);
                }
            }
        } else {
            assert(s == si.push(c));
            assert forall|i: int| 0 <= i < s.len() - 1 implies !(#[trigger] s[i] == '\\' && s[i + 1] == '\\') by {
                if i < si.len() - 1 {
                    assert(s[i] == si[i] && s[i + 1] == si[i + 1]);
                }
            }
        }
    }
}

proof fn lemma_squeeze_keeps_normal(r: Seq<char>)
    requires
        r.len() == 0 || r[0] == '\\',
        no_double_sep(r),
    ensures
        squeeze(r) == (if r.len() > 0 && r.last() == '\\' { r.drop_last() } else { r }),
    decreases r.len(),
{
    if r.len() > 0 {
        let init = r.drop_last();
        let c = r.last();
        assert forall|i: int| 0 <= i < init.len() - 1 implies !(#[trigger] init[i] == '\\' && init[i + 1] == '\\') by {
            assert(init[i] == r[i] && init[i + 1] == r[i + 1]);
        }
        if init.len() > 0 {
            assert(init[0] == r[0]);
        }
        lemma_squeeze_keeps_normal(init);
        if c == '\\' {
            if init.len() > 0 {
                assert(!(r[r.len() - 2] == '\\' && r[r.len() - 1] == '\\'));
            }
        } else if init.len() == 0 || init.last() == '\\' {
            assert(init.len() > 0);
            assert(init.drop_last() + seq!['\\', c] =~= r);
        } else {
            assert(init.push(c) =~= r);
        }
    }
}

/// Appending a component by Windows rules ends with that component. A plain
/// path is kept whole, followed by one `\` unless it is empty, ends in a
/// separator or is a bare drive. A verbatim path keeps its prefix, and after
/// it separators come single, one before each component: doubled and
/// trailing `\` go, and a verbatim path already in that form is only
/// followed by `\` and the component.
pub proof fn law_join_path(base: Seq<char>, part: Seq<char>)
    ensures
        ({
            let j = join_path(base, part);
            &&& j.len() >= part.len()
            &&& j.subrange(j.len() - part.len(), j.len() as int) == part
            &&& !is_verbatim(base) ==> {
                &&& j.take(base.len() as int) == base
                &&& j.len() == base.len() + part.len() + (if base.len() > 0 && !is_separator(base.last()) && !is_bare_drive(base) { 1int } else { 0int })
            }
            &&& is_verbatim(base) ==> {
                let n = verbatim_prefix_len(base);
                let tail = j.subrange(n, j.len() - part.len());
                &&& 4 <= n <= base.len()
                &&& j.take(n) == base.take(n)
                &&& tail.len() >= 1 && tail.last() == '\\'
                &&& is_normal_tail(tail.drop_last())
                &&& is_normal_tail(base.skip(n)) ==> j == base + seq!['\\'] + part
            }
        }),
{
    let j = join_path(base, part);
    assert(j.subrange(j.len() - part.len(), j.len() as int) =~= part);
    if !is_verbatim(base) {
        assert(j.take(base.len() as int) =~= base);
    } else {
        let n = verbatim_prefix_len(base);
        lemma_prefix_len_bound(base);
        let sq = squeeze(base.skip(n));
        lemma_squeeze_shape(base.skip(n));
        let tail = j.subrange(n, j.len() - part.len());
        if 4 <= n <= base.len() {
            assert(j.take(n) =~= base.take(n));
            assert(tail =~= sq + seq!['\\']);
            assert(tail.drop_last() =~= sq);
            if is_normal_tail(base.skip(n)) {
                lemma_squeeze_keeps_normal(base.skip(n));
                assert(base.take(n) + base.skip(n) =~= base);
            }
        }
    }
}

pub open spec fn view_opt(o: Option<&str>) -> Option<Seq<char>> {
    match o {
        Some(s) => Some(s@),
        None => None,
    }
}

/// The folder under which Clam keeps its state: `%LOCALAPPDATA%`, or, when
/// that variable is not set, `%USERPROFILE%\AppData\Local` (with an empty
/// profile when that is not set either).
pub open spec fn local_base(local_app_data: Option<Seq<char>>, user_profile: Option<Seq<char>>) -> Seq<char> {
    match local_app_data {
        Some(l) => l,
        None => match user_profile {
            Some(p) => p + LOCAL_APP_DATA_UNDER_PROFILE@,
            None => LOCAL_APP_DATA_UNDER_PROFILE@,
        },
    }
}

pub open spec fn spec_state_dir(local_app_data: Option<Seq<char>>, user_profile: Option<Seq<char>>) -> Seq<char> {
    join_path(local_base(local_app_data, user_profile), STATE_DIR_NAME@)
}

pub open spec fn spec_state_file_path(local_app_data: Option<Seq<char>>, user_profile: Option<Seq<char>>) -> Seq<char> {
    join_path(spec_state_dir(local_app_data, user_profile), STATE_FILE_NAME@)
}

/// Where the saved state lives: under `%LOCALAPPDATA%` when it is set, else
/// under `%USERPROFILE%\AppData\Local`, in the folder `Clam`, in the file
/// `saved_state.json`. For an ordinary base folder (not verbatim, not
/// empty, not ending in a separator, not a bare drive) that is the base
/// followed by `\Clam\saved_state.json`.
pub proof fn law_state_location(local_app_data: Option<Seq<char>>, user_profile: Option<Seq<char>>)
    ensures
        ({
            let base = match local_app_data {
                Some(l) => l,
                None => match user_profile {
                    Some(p) => p + "\\AppData\\Local"@,
                    None => "\\AppData\\Local"@,
                },
            };
            &&& spec_state_dir(local_app_data, user_profile) == join_path(base, "Clam"@)
            &&& spec_state_file_path(local_app_data, user_profile)
                == join_path(join_path(base, "Clam"@), "saved_state.json"@)
            &&& (!is_verbatim(base) && base.len() > 0 && !is_separator(base.last()) && !is_bare_drive(base))
                ==> spec_state_file_path(local_app_data, user_profile) == base + "\\Clam\\saved_state.json"@
        }),
{
    reveal_strlit("Clam");
    reveal_strlit("saved_state.json");
    reveal_strlit("\\Clam\\saved_state.json");
    let base = local_base(local_app_data, user_profile);
    let d = join_path(base, "Clam"@);
    if !is_verbatim(base) && base.len() > 0 && !is_separator(base.last()) && !is_bare_drive(base) {
        assert(d == base + seq!['\\'] + "Clam"@);
        assert(d.len() >= 2);
        assert(d.last() == 'm');
        assert(!is_bare_drive(d));
        if is_verbatim(d) {
            // Only `\\?` followed by `\Clam` reads as verbatim; its prefix is
            // then the whole folder.
            assert(d[0] == base[0]);
            if base.len() >= 4 {
                assert(d[1] == base[1] && d[2] == base[2] && d[3] == base[3]);
            }
            assert(base.len() == 3);
            assert(d.skip(4) =~= "Clam"@);
            lemma_first_sep(d.skip(4), 4);
            assert(!is_verbatim_unc(d));
            assert(verbatim_prefix_len(d) == 8);
            assert(d.take(8) =~= d);
            assert(d.skip(8) =~= Seq::<char>::empty());
        }
        assert(join_path(d, "saved_state.json"@) =~= base + "\\Clam\\saved_state.json"@);
    }
}

/// `base` with the component `part` appended, by Windows rules.
pub fn join(base: String, part: &str) -> (joined: String)
    requires
        is_plain_component(part@),
    ensures
        joined@ == join_path(base@, part@),
{
    let n: usize = base.as_str().unicode_len();
    proof {
        reveal_strlit("\\");
    }
    if n >= 4 && base.as_str().get_char(0) == '\\' && base.as_str().get_char(1) == '\\'
        && base.as_str().get_char(2) == '?' && base.as_str().get_char(3) == '\\' {
        let b = base.as_str();
        let plen = verbatim_prefix_length(b, n);
        let mut out = String::from_str(b.substring_char(0, plen));
        let mut prev_sep = true;
        let mut i: usize = plen;
        while i < n
            invariant
                b@ == base@,
                n == b@.len(),
                plen <= i <= n,
                plen == verbatim_prefix_len(b@),
                out@ == b@.take(plen as int) + squeeze(b@.subrange(plen as int, i as int)),
                prev_sep == (i == plen || b@[i - 1] == '\\'),
            decreases n - i,
        {
            let c = b.get_char(i);
            let ghost before = out@;
            let ghost was_sep = prev_sep;
            if c != '\\' {
                if prev_sep {
                    out.append("\\");
                }
                out.append(b.substring_char(i, i + 1));
                prev_sep = false;
            } else {
                prev_sep = true;
            }
            proof {
                reveal_strlit("\\");
                let r = b@.subrange(plen as int, i + 1);
                assert(r.drop_last() =~= b@.subrange(plen as int, i as int));
                assert(r.last() == c);
                assert(b@.subrange(i as int, i + 1) =~= seq![c]);
                let init = r.drop_last();
                if init.len() > 0 {
                    assert(init.last() == b@[i - 1]);
                }
                assert(was_sep == (init.len() == 0 || init.last() == '\\'));
                if c != '\\' {
                    if was_sep {
                        assert(squeeze(r) == squeeze(init) + seq!['\\', c]);
                        assert(out@ =~= before + seq!['\\'] + seq![c]);
                    } else {
                        assert(squeeze(r) == squeeze(init).push(c));
                        assert(out@ =~= before + seq![c]);
                    }
                    assert(out@ =~= b@.take(plen as int) + squeeze(r));
                } else {
                    assert(squeeze(r) == squeeze(init));
                }
            }
            i = i + 1;
        }
        out.append("\\");
        out.append(part);
        proof {
            assert(b@.subrange(plen as int, n as int) =~= b@.skip(plen as int));
        }
        return out;
    }
    let mut need_sep = n > 0;
    if n > 0 {
        let last = base.as_str().get_char(n - 1);
        if last == '\\' || last == '/' {
            need_sep = false;
        }
    }
    if n == 2 {
        let c0 = base.as_str().get_char(0);
        let c1 = base.as_str().get_char(1);
        if (('a' <= c0 && c0 <= 'z') || ('A' <= c0 && c0 <= 'Z')) && c1 == ':' {
            need_sep = false;
        }
    }
    let mut joined = base;
    if need_sep {
        joined.append("\\");
    }
    joined.append(part);
    joined
}

/// The folder that holds the saved-state file, given the values of the
/// `LOCALAPPDATA` and `USERPROFILE` environment variables (`None` where a
/// variable is not set).
pub fn state_dir(local_app_data: Option<&str>, user_profile: Option<&str>) -> (dir: String)
    ensures
        dir@ == spec_state_dir(view_opt(local_app_data), view_opt(user_profile)),
{
    let base = match local_app_data {
        Some(l) => String::from_str(l),
        None => {
            let mut p = match user_profile {
                Some(p) => String::from_str(p),
                None => String::new(),
            };
            p.append(LOCAL_APP_DATA_UNDER_PROFILE);
            p
        },
    };
    proof {
        if local_app_data is None && user_profile is None {
            assert(base@ =~= LOCAL_APP_DATA_UNDER_PROFILE@);
        }
    }
    proof {
        reveal_strlit("Clam");
        assert(STATE_DIR_NAME@ == "Clam"@);
        assert(STATE_DIR_NAME@.len() == 4);
        assert(STATE_DIR_NAME@ != seq!['.']);
        assert(STATE_DIR_NAME@ != seq!['.', '.']);
    }
    join(base, STATE_DIR_NAME)
}

/// The saved-state file, `<state dir>\saved_state.json`.
pub fn state_file_path(local_app_data: Option<&str>, user_profile: Option<&str>) -> (path: String)
    ensures
        path@ == spec_state_file_path(view_opt(local_app_data), view_opt(user_profile)),
{
    proof {
        reveal_strlit("saved_state.json");
        assert(STATE_FILE_NAME@ == "saved_state.json"@);
        assert(STATE_FILE_NAME@.len() == 16);
        assert(STATE_FILE_NAME@ != seq!['.']);
        assert(STATE_FILE_NAME@ != seq!['.', '.']);
    }
    join(state_dir(local_app_data, user_profile), STATE_FILE_NAME)
}

/// Calls `std::path::Path::exists` on `path`, and only on the saved-state
/// file: `requires` holds every caller to pass the path that
/// `spec_state_file_path` gives for these environment values, which the call
/// itself does not use. Whether the file is there is up to the disk at the
/// moment of the call, so nothing is stated of the result.
#[verifier::external_body]
fn path_exists(path: &str, _local_app_data: Option<&str>, _user_profile: Option<&str>) -> bool
    requires
        path@ == spec_state_file_path(view_opt(_local_app_data), view_opt(_user_profile)),
{
    std::path::Path::new(path).exists()
}

/// Whether the saved-state file is there, that is, whether stay-awake was on
/// when Clam last stopped. The disk is asked about exactly the file that
/// `state_file_path` names for these values (the `requires` of
/// `path_exists`); its answer comes from the disk at the moment of the call,
/// so no clause states it.
pub fn state_file_exists(local_app_data: Option<&str>, user_profile: Option<&str>) -> bool {
    let path = state_file_path(local_app_data, user_profile);
    path_exists(path.as_str(), local_app_data, user_profile)
}

} // verus!
