//! What the environment must hold before the first thread starts.
use crate::settings::opt_text;
use crate::text::{chars_of, is_white, white};
use vstd::prelude::*;
use vstd::string::*;

verus! {

/// Whether nothing but white space stands between the start of the line and
/// place `j`.
pub open spec fn at_line_head(s: Seq<char>, j: int) -> bool
    decreases j,
{
    j <= 0 || s[j - 1] == '\n' || (white(s[j - 1]) && at_line_head(s, j - 1))
}

/// Whether `part` stands in `s` from place `j` on.
pub open spec fn stands_at(s: Seq<char>, j: int, part: Seq<char>) -> bool {
    0 <= j <= s.len() - part.len() && s.subrange(j, j + part.len()) == part
}

/// Whether the word at place `j` is `nvidia` or begins with `nvidia_`.
pub open spec fn nvidia_word_at(s: Seq<char>, j: int) -> bool {
    ||| stands_at(s, j, "nvidia_"@)
    ||| stands_at(s, j, "nvidia"@) && (j + 6 == s.len() || white(s[j + 6]))
}

/// Whether a line of the kernel's module list names an NVIDIA module: its first
/// word is `nvidia` or begins with `nvidia_`.
pub open spec fn nvidia_listed(s: Seq<char>) -> bool {
    exists|j: int| 0 <= j < s.len() && #[trigger] at_line_head(s, j) && nvidia_word_at(s, j)
}

fn has_at(s: &Vec<char>, j: usize, part: &str) -> (r: bool)
    requires
        j <= s@.len(),
    ensures
        r == stands_at(s@, j as int, part@),
{
    let wanted = chars_of(part);
    let end: usize = s.len();
    if wanted.len() > end - j {
        return false;
    }
    let ghost here = s@.subrange(j as int, j + wanted@.len());
    let mut k: usize = 0;
    while k < wanted.len()
        invariant
            wanted@ == part@,
            j + wanted@.len() <= end,
            end == s@.len(),
            here == s@.subrange(j as int, j + wanted@.len()),
            k <= wanted@.len(),
            forall|i: int| 0 <= i < k ==> here[i] == #[trigger] wanted@[i],
        decreases wanted@.len() - k,
    {
        if s[j + k] != wanted[k] {
            assert(here[k as int] != wanted@[k as int]);
            return false;
        }
        k = k + 1;
    }
    assert(here =~= part@);
    true
}

fn is_nvidia_word(s: &Vec<char>, j: usize) -> (r: bool)
    requires
        j <= s@.len(),
    ensures
        r == nvidia_word_at(s@, j as int),
{
    proof {
        reveal_strlit("nvidia");
    }
    if has_at(s, j, "nvidia_") {
        return true;
    }
    has_at(s, j, "nvidia") && (s.len() - j == 6 || is_white(s[j + 6]))
}

/// Whether an NVIDIA kernel module is in the list.
pub fn nvidia_loaded(modules: &str) -> (r: bool)
    ensures
        r == nvidia_listed(modules@),
{
    let s = chars_of(modules);
    let mut head: bool = true;
    let mut j: usize = 0;
    while j < s.len()
        invariant
            s@ == modules@,
            j <= s@.len(),
            head == at_line_head(s@, j as int),
            forall|k: int|
                0 <= k < j && #[trigger] at_line_head(s@, k) ==> !nvidia_word_at(s@, k),
        decreases s@.len() - j,
    {
        if head && is_nvidia_word(&s, j) {
            return true;
        }
        head = s[j] == '\n' || (head && is_white(s[j]));
        j = j + 1;
    }
    false
}

/// Whether the renderer is to be switched off.
pub open spec fn renderer_off(already_overridden: bool, modules: Option<Seq<char>>) -> bool {
    !already_overridden && (modules matches Some(list) && nvidia_listed(list))
}

/// The user's own choice stands, a module list that cannot be read switches
/// nothing off, and else an NVIDIA module decides.
pub proof fn law_users_choice_of_renderer_stands(modules: Option<Seq<char>>, list: Seq<char>)
    ensures
        !renderer_off(true, modules),
        !renderer_off(false, None),
        renderer_off(false, Some(list)) <==> nvidia_listed(list),
{
}

/// Whether to set `WEBKIT_DISABLE_DMABUF_RENDERER`. WebKitGTK's DMA-BUF
/// renderer is unreliable on the NVIDIA proprietary driver, so it is switched
/// off whenever an NVIDIA kernel module is loaded, unless the user has set the
/// variable already. A module list that cannot be read counts as empty.
pub fn disable_dmabuf_renderer(already_overridden: bool, modules: Option<&str>) -> (r: bool)
    ensures
        r == renderer_off(
            already_overridden,
            match modules {
                Some(list) => Some(list@),
                None => None,
            },
        ),
        r == (!already_overridden && match modules {
            Some(list) => nvidia_listed(list@),
            None => false,
        }),
{
    if already_overridden {
        return false;
    }
    match modules {
        Some(list) => nvidia_loaded(list),
        None => false,
    }
}

/// The places where distributions put GStreamer's plugins, in the order they
/// are tried.
pub open spec fn plugin_dir(i: int) -> Seq<char> {
    if i == 0 {
        "/usr/lib/x86_64-linux-gnu/gstreamer-1.0"@
    } else if i == 1 {
        "/usr/lib64/gstreamer-1.0"@
    } else {
        "/usr/lib/gstreamer-1.0"@
    }
}

/// The three places.
pub fn plugin_dirs() -> (r: [String; 3])
    ensures
        forall|i: int| 0 <= i < 3 ==> (#[trigger] r@[i])@ == plugin_dir(i),
{
    [
        "/usr/lib/x86_64-linux-gnu/gstreamer-1.0".to_owned(),
        "/usr/lib64/gstreamer-1.0".to_owned(),
        "/usr/lib/gstreamer-1.0".to_owned(),
    ]
}

/// The value for `GST_PLUGIN_PATH`, if it is to be set.
pub open spec fn plugin_path(
    configured: bool,
    versioned: Option<Seq<char>>,
    is_dir: Seq<bool>,
) -> Option<Seq<char>> {
    if configured {
        None
    } else if versioned is Some {
        versioned
    } else if is_dir[0] {
        Some(plugin_dir(0))
    } else if is_dir[1] {
        Some(plugin_dir(1))
    } else if is_dir[2] {
        Some(plugin_dir(2))
    } else {
        None
    }
}

/// A path that is set stands; the versioned variable comes next, whatever is on
/// disk; and of the known places the earlier one that exists wins: 64-bit Debian,
/// then 64-bit, then plain. With none of them nothing is set.
pub proof fn law_plugin_path_is_the_first_to_be_had(
    versioned: Option<Seq<char>>,
    given: Seq<char>,
    is_dir: Seq<bool>,
)
    ensures
        plugin_path(true, versioned, is_dir) is None,
        plugin_path(false, Some(given), is_dir) == Some(given),
        is_dir[0] ==> plugin_path(false, None, is_dir) == Some(
            "/usr/lib/x86_64-linux-gnu/gstreamer-1.0"@,
        ),
        !is_dir[0] && is_dir[1] ==> plugin_path(false, None, is_dir) == Some(
            "/usr/lib64/gstreamer-1.0"@,
        ),
        !is_dir[0] && !is_dir[1] && is_dir[2] ==> plugin_path(false, None, is_dir) == Some(
            "/usr/lib/gstreamer-1.0"@,
        ),
        !is_dir[0] && !is_dir[1] && !is_dir[2] ==> plugin_path(false, None, is_dir) is None,
{
}

/// What `GST_PLUGIN_PATH` is to be set to, if anything: nothing where it is set
/// already, else the versioned variable where that is set, else the first of
/// the known places that is a directory.
pub fn gst_plugin_path(configured: bool, versioned: Option<String>, is_dir: [bool; 3]) -> (r: Option<
    String,
>)
    ensures
        opt_text(r) == plugin_path(configured, opt_text(versioned), is_dir@),
        match (configured, versioned, r) {
            (true, _, _) => r is None,
            (false, Some(path), _) => r == Some(path),
            (false, None, Some(path)) => exists|i: int|
                0 <= i < 3 && #[trigger] is_dir@[i] && path@ == plugin_dir(i) && forall|j: int|
                    0 <= j < i ==> !#[trigger] is_dir@[j],
            (false, None, None) => forall|i: int| 0 <= i < 3 ==> !#[trigger] is_dir@[i],
        },
{
    if configured {
        return None;
    }
    if let Some(path) = versioned {
        return Some(path);
    }
    let dirs = plugin_dirs();
    let mut i: usize = 0;
    while i < 3
        invariant
            i <= 3,
            forall|k: int| 0 <= k < 3 ==> (#[trigger] dirs@[k])@ == plugin_dir(k),
            forall|k: int| 0 <= k < i ==> !#[trigger] is_dir@[k],
            !configured,
            versioned is None,
        decreases 3 - i,
    {
        if is_dir[i] {
            let path = dirs[i].clone();
            assert(path@ == plugin_dir(i as int));
            return Some(path);
        }
        i = i + 1;
    }
    None
}

/// The lines of the module list are read one by one: a list names an NVIDIA
/// module exactly when one of its lines does.
pub proof fn law_lines_are_read_one_by_one(a: Seq<char>, b: Seq<char>)
    ensures
        nvidia_listed(a + seq!['\n'] + b) <==> nvidia_listed(a) || nvidia_listed(b),
{
    let s = a + seq!['\n'] + b;
    let n = a.len() as int;
    assert forall|j: int| 0 <= j < n implies (at_line_head(s, j) <==> at_line_head(a, j)) && (
    nvidia_word_at(s, j) <==> nvidia_word_at(a, j)) by {
        lemma_head_before(a, b, j);
        lemma_word_before(a, b, j);
    }
    assert forall|j: int| 0 <= j < b.len() implies (at_line_head(s, n + 1 + j) <==> at_line_head(
        b,
        j,
    )) && (nvidia_word_at(s, n + 1 + j) <==> nvidia_word_at(b, j)) by {
        lemma_head_after(a, b, j);
        lemma_word_after(a + seq!['\n'], b, j);
    }
    assert(!nvidia_word_at(s, n)) by {
        lemma_word_begins_with_n(s, n);
    }
    if nvidia_listed(s) {
        let j = choose|j: int|
            0 <= j < s.len() && #[trigger] at_line_head(s, j) && nvidia_word_at(s, j);
        if j > n {
            assert(at_line_head(b, j - n - 1) && nvidia_word_at(b, j - n - 1)) by {
                lemma_head_after(a, b, j - n - 1);
                lemma_word_after(a + seq!['\n'], b, j - n - 1);
            }
        }
    }
    if nvidia_listed(a) {
        let j = choose|j: int|
            0 <= j < a.len() && #[trigger] at_line_head(a, j) && nvidia_word_at(a, j);
        assert(at_line_head(s, j));
    }
    if nvidia_listed(b) {
        let j = choose|j: int|
            0 <= j < b.len() && #[trigger] at_line_head(b, j) && nvidia_word_at(b, j);
        assert(at_line_head(s, n + 1 + j));
    }
}

/// White space before the first word of a list is skipped.
pub proof fn law_white_space_before_the_name_is_skipped(w: Seq<char>, s: Seq<char>)
    requires
        forall|i: int| 0 <= i < w.len() ==> white(#[trigger] w[i]),
    ensures
        nvidia_listed(w + s) <==> nvidia_listed(s),
{
    let t = w + s;
    let n = w.len() as int;
    assert forall|j: int| 0 <= j < n implies !nvidia_word_at(t, j) by {
        lemma_word_begins_with_n(t, j);
        assert(white(w[j]));
    }
    assert forall|j: int| 0 <= j < s.len() implies (at_line_head(t, n + j) <==> at_line_head(s, j))
        && (nvidia_word_at(t, n + j) <==> nvidia_word_at(s, j)) by {
        lemma_head_skips(w, s, j);
        lemma_word_after(w, s, j);
    }
    if nvidia_listed(t) {
        let j = choose|j: int|
            0 <= j < t.len() && #[trigger] at_line_head(t, j) && nvidia_word_at(t, j);
        assert(at_line_head(s, j - n) && nvidia_word_at(s, j - n)) by {
            lemma_head_skips(w, s, j - n);
            lemma_word_after(w, s, j - n);
        }
    }
    if nvidia_listed(s) {
        let j = choose|j: int|
            0 <= j < s.len() && #[trigger] at_line_head(s, j) && nvidia_word_at(s, j);
        assert(at_line_head(t, n + j));
    }
}

/// The first word of a line decides, and no other: it is `nvidia`, or it begins
/// with `nvidia_`.
pub proof fn law_first_word_decides(s: Seq<char>)
    requires
        s.len() > 0,
        !white(s[0]),
        !s.contains('\n'),
    ensures
        nvidia_listed(s) <==> {
            let name = seq!['n', 'v', 'i', 'd', 'i', 'a'];
            ||| s.len() >= 7 && s.take(7) == name.push('_')
            ||| s.len() == 6 && s == name
            ||| s.len() > 6 && s.take(6) == name && white(s[6])
        },
{
    let name = seq!['n', 'v', 'i', 'd', 'i', 'a'];
    reveal_strlit("nvidia");
    reveal_strlit("nvidia_");
    assert("nvidia"@ =~= name);
    assert("nvidia_"@ =~= name.push('_'));
    assert forall|j: int| 0 < j < s.len() implies !at_line_head(s, j) by {
        lemma_no_head_inside(s, j);
    }
    assert(at_line_head(s, 0));
    if s.len() >= 6 {
        assert(s.subrange(0, 6) =~= s.take(6));
    }
    if s.len() == 6 {
        assert(s.take(6) =~= s);
    }
    if s.len() >= 7 {
        assert(s.subrange(0, 7) =~= s.take(7));
    }
}

/// An empty list names nothing.
pub proof fn law_empty_list_names_nothing()
    ensures
        !nvidia_listed(Seq::empty()),
{
}

proof fn lemma_no_head_inside(s: Seq<char>, j: int)
    requires
        0 < j < s.len(),
        !white(s[0]),
        !s.contains('\n'),
    ensures
        !at_line_head(s, j),
    decreases j,
{
    assert(s[j - 1] != '\n');
    if j > 1 {
        lemma_no_head_inside(s, j - 1);
    }
}

proof fn lemma_head_before(a: Seq<char>, b: Seq<char>, j: int)
    requires
        0 <= j <= a.len(),
    ensures
        at_line_head(a + seq!['\n'] + b, j) <==> at_line_head(a, j),
    decreases j,
{
    if j > 0 {
        lemma_head_before(a, b, j - 1);
        assert((a + seq!['\n'] + b)[j - 1] == a[j - 1]);
    }
}

proof fn lemma_head_after(a: Seq<char>, b: Seq<char>, j: int)
    requires
        0 <= j <= b.len(),
    ensures
        at_line_head(a + seq!['\n'] + b, a.len() + 1 + j) <==> at_line_head(b, j),
    decreases j,
{
    let s = a + seq!['\n'] + b;
    if j == 0 {
        assert(s[a.len() as int] == '\n');
    } else {
        lemma_head_after(a, b, j - 1);
        assert(s[a.len() + j] == b[j - 1]);
    }
}

proof fn lemma_head_skips(w: Seq<char>, s: Seq<char>, j: int)
    requires
        0 <= j <= s.len(),
        forall|i: int| 0 <= i < w.len() ==> white(#[trigger] w[i]),
    ensures
        at_line_head(w + s, w.len() + j) <==> at_line_head(s, j),
    decreases j,
{
    if j == 0 {
        lemma_white_head(w, s, w.len() as int);
    } else {
        lemma_head_skips(w, s, j - 1);
        assert((w + s)[w.len() + j - 1] == s[j - 1]);
    }
}

proof fn lemma_white_head(w: Seq<char>, s: Seq<char>, j: int)
    requires
        0 <= j <= w.len(),
        forall|i: int| 0 <= i < w.len() ==> white(#[trigger] w[i]),
    ensures
        at_line_head(w + s, j),
    decreases j,
{
    if j > 0 {
        lemma_white_head(w, s, j - 1);
        assert((w + s)[j - 1] == w[j - 1]);
    }
}

proof fn lemma_word_begins_with_n(s: Seq<char>, j: int)
    requires
        0 <= j < s.len(),
    ensures
        nvidia_word_at(s, j) ==> s[j] == 'n',
{
    reveal_strlit("nvidia");
    reveal_strlit("nvidia_");
    if stands_at(s, j, "nvidia_"@) {
        assert(s.subrange(j, j + 7)[0] == s[j]);
    } else if stands_at(s, j, "nvidia"@) {
        assert(s.subrange(j, j + 6)[0] == s[j]);
    }
}

proof fn lemma_part_before(a: Seq<char>, b: Seq<char>, j: int, part: Seq<char>)
    requires
        0 <= j < a.len(),
        forall|k: int| 0 <= k < part.len() ==> #[trigger] part[k] != '\n',
    ensures
        stands_at(a + seq!['\n'] + b, j, part) <==> stands_at(a, j, part),
{
    let s = a + seq!['\n'] + b;
    let n = a.len() as int;
    if j + part.len() <= n {
        assert(s.subrange(j, j + part.len()) =~= a.subrange(j, j + part.len()));
    } else if stands_at(s, j, part) {
        assert(s.subrange(j, j + part.len())[n - j] == s[n]);
        assert(part[n - j] != '\n');
    }
}

proof fn lemma_word_before(a: Seq<char>, b: Seq<char>, j: int)
    requires
        0 <= j < a.len(),
    ensures
        nvidia_word_at(a + seq!['\n'] + b, j) <==> nvidia_word_at(a, j),
{
    reveal_strlit("nvidia");
    reveal_strlit("nvidia_");
    lemma_part_before(a, b, j, "nvidia"@);
    lemma_part_before(a, b, j, "nvidia_"@);
}

proof fn lemma_word_after(a: Seq<char>, b: Seq<char>, j: int)
    requires
        0 <= j < b.len(),
    ensures
        nvidia_word_at(a + b, a.len() + j) <==> nvidia_word_at(b, j),
{
    reveal_strlit("nvidia");
    reveal_strlit("nvidia_");
    let s = a + b;
    let n = a.len() as int;
    if j + 6 <= b.len() {
        assert(s.subrange(n + j, n + j + 6) =~= b.subrange(j, j + 6));
    }
    if j + 7 <= b.len() {
        assert(s.subrange(n + j, n + j + 7) =~= b.subrange(j, j + 7));
    }
}

} // verus!
