//! The host facts of one run, and the values that are derived from single
//! facts before they are shown.

use vstd::prelude::*;
use vstd::string::*;

verus! {

/// The facts gathered in one run. Numbers are byte counts but for the uptime,
/// which is in seconds. `shell` is the path of the user's shell as found in
/// the environment; `local_ip` is what the local-address probe reported, an
/// address or a diagnostic.
#[derive(Debug, PartialEq, Eq)]
pub struct HostSnapshot {
    pub user: Option<String>,
    pub host_name: String,
    pub os_name: String,
    pub os_version: String,
    pub kernel_version: String,
    pub cpu_brand: Option<String>,
    pub total_memory: u64,
    pub used_memory: u64,
    pub total_swap: u64,
    pub used_swap: u64,
    pub uptime_seconds: u64,
    pub local_ip: String,
    pub shell: Option<String>,
    pub term: Option<String>,
    pub desktop: Option<String>,
}

/// A snapshot as mathematical values.
pub struct SnapshotModel {
    pub user: Option<Seq<char>>,
    pub host_name: Seq<char>,
    pub os_name: Seq<char>,
    pub os_version: Seq<char>,
    pub kernel_version: Seq<char>,
    pub cpu_brand: Option<Seq<char>>,
    pub total_memory: nat,
    pub used_memory: nat,
    pub total_swap: nat,
    pub used_swap: nat,
    pub uptime_seconds: nat,
    pub local_ip: Seq<char>,
    pub shell: Option<Seq<char>>,
    pub term: Option<Seq<char>>,
    pub desktop: Option<Seq<char>>,
}

impl View for HostSnapshot {
    type V = SnapshotModel;

    open spec fn view(&self) -> SnapshotModel {
        SnapshotModel {
            user: self.user.deep_view(),
            host_name: self.host_name@,
            os_name: self.os_name@,
            os_version: self.os_version@,
            kernel_version: self.kernel_version@,
            cpu_brand: self.cpu_brand.deep_view(),
            total_memory: self.total_memory as nat,
            used_memory: self.used_memory as nat,
            total_swap: self.total_swap as nat,
            used_swap: self.used_swap as nat,
            uptime_seconds: self.uptime_seconds as nat,
            local_ip: self.local_ip@,
            shell: self.shell.deep_view(),
            term: self.term.deep_view(),
            desktop: self.desktop.deep_view(),
        }
    }
}

/// The text that stands for a fact that its provider could not give.
pub open spec fn unknown_text() -> Seq<char> {
    "unknown"@
}

/// A fact, or the substitute text where it is absent.
pub open spec fn known_or_unknown(fact: Option<Seq<char>>) -> Seq<char> {
    match fact {
        Some(text) => text,
        None => unknown_text(),
    }
}

/// Gives a fact that may be absent a text to show.
pub fn fact_or_unknown(fact: Option<String>) -> (r: String)
    ensures
        r@ == known_or_unknown(fact.deep_view()),
{
    match fact {
        Some(text) => text,
        None => String::from_str("unknown"),
    }
}

/// The position just behind the last `/` of `path`; zero where it has none.
pub open spec fn after_last_slash(path: Seq<char>) -> int
    decreases path.len(),
{
    if path.len() == 0 {
        0
    } else if path.last() == '/' {
        path.len() as int
    } else {
        after_last_slash(path.drop_last())
    }
}

/// The final segment of a path: what follows its last `/`, or all of it.
pub open spec fn basename(path: Seq<char>) -> Seq<char> {
    path.subrange(after_last_slash(path), path.len() as int)
}

/// The final segment starts at a segment boundary and holds no `/`.
pub proof fn lemma_after_last_slash(path: Seq<char>)
    ensures
        0 <= after_last_slash(path) <= path.len(),
        after_last_slash(path) > 0 ==> path[after_last_slash(path) - 1] == '/',
        forall|i: int| after_last_slash(path) <= i < path.len() ==> path[i] != '/',
    decreases path.len(),
{
    if path.len() > 0 && path.last() != '/' {
        let front = path.drop_last();
        lemma_after_last_slash(front);
        assert forall|i: int| after_last_slash(path) <= i < path.len() implies path[i] != '/' by {
            if i < front.len() {
                assert(front[i] == path[i]);
            }
        }
        if after_last_slash(path) > 0 {
            assert(front[after_last_slash(path) - 1] == path[after_last_slash(path) - 1]);
        }
    }
}

/// A path without a `/` is its own final segment.
pub proof fn lemma_basename_without_slash(path: Seq<char>)
    requires
        forall|i: int| 0 <= i < path.len() ==> path[i] != '/',
    ensures
        basename(path) == path,
{
    lemma_after_last_slash(path);
    assert(basename(path) =~= path);
}

/// The final segment of a path holds no `/`, and the path is some prefix that
/// is empty or ends in `/`, followed by that segment.
pub proof fn lemma_basename_is_last_segment(path: Seq<char>)
    ensures
        forall|i: int| 0 <= i < basename(path).len() ==> basename(path)[i] != '/',
        path == path.subrange(0, after_last_slash(path)) + basename(path),
        after_last_slash(path) == 0 || path[after_last_slash(path) - 1] == '/',
{
    lemma_after_last_slash(path);
    assert(path =~= path.subrange(0, after_last_slash(path)) + basename(path));
}

/// Extracts the name of a shell from its path.
pub fn shell_basename(path: &str) -> (r: String)
    ensures
        r@ == basename(path@),
{
    let n: usize = path.unicode_len();
    let mut start: usize = 0;
    let mut i: usize = 0;
    while i < n
        invariant
            n == path@.len(),
            i <= n,
            start == after_last_slash(path@.take(i as int)),
        decreases n - i,
    {
        assert(path@.take(i + 1).drop_last() =~= path@.take(i as int));
        if path.get_char(i) == '/' {
            start = i + 1;
        }
        i = i + 1;
    }
    proof {
        assert(path@.take(n as int) =~= path@);
        lemma_after_last_slash(path@);
    }
    String::from_str(path.substring_char(start, n))
}

/// `text` without the spaces at its end.
pub open spec fn trim_trailing_spaces(text: Seq<char>) -> Seq<char>
    decreases text.len(),
{
    if text.len() > 0 && text.last() == ' ' {
        trim_trailing_spaces(text.drop_last())
    } else {
        text
    }
}

/// Trimming leaves a prefix that does not end in a space, and removes spaces
/// only.
pub proof fn lemma_trim_trailing_spaces(text: Seq<char>)
    ensures
        ({
            let kept = trim_trailing_spaces(text);
            &&& kept.len() <= text.len()
            &&& kept == text.take(kept.len() as int)
            &&& kept.len() > 0 ==> kept.last() != ' '
            &&& forall|i: int| kept.len() <= i < text.len() ==> text[i] == ' '
        }),
    decreases text.len(),
{
    if text.len() > 0 && text.last() == ' ' {
        let front = text.drop_last();
        lemma_trim_trailing_spaces(front);
        let kept = trim_trailing_spaces(text);
        assert(kept =~= text.take(kept.len() as int));
        assert forall|i: int| kept.len() <= i < text.len() implies text[i] == ' ' by {
            if i < front.len() {
                assert(front[i] == text[i]);
            }
        }
    } else {
        assert(text =~= text.take(text.len() as int));
    }
}

/// Removes the spaces at the end of a processor's brand string.
pub fn trim_brand(brand: &str) -> (r: String)
    ensures
        r@ == trim_trailing_spaces(brand@),
{
    let mut end: usize = brand.unicode_len();
    assert(brand@.take(end as int) =~= brand@);
    while end > 0 && brand.get_char(end - 1) == ' '
        invariant
            end <= brand@.len(),
            trim_trailing_spaces(brand@) == trim_trailing_spaces(brand@.take(end as int)),
        decreases end,
    {
        assert(brand@.take(end as int).drop_last() =~= brand@.take(end - 1));
        end = end - 1;
    }
    assert(brand@.take(end as int) =~= brand@.subrange(0, end as int));
    String::from_str(brand.substring_char(0, end))
}

/// The first value that is present, in the order given.
pub open spec fn first_present(values: Seq<Option<Seq<char>>>) -> Option<Seq<char>>
    decreases values.len(),
{
    if values.len() == 0 {
        None
    } else if values[0] is Some {
        values[0]
    } else {
        first_present(values.drop_first())
    }
}

/// The first present value is at the first position that holds one; there
/// is none exactly where every position is empty.
pub proof fn lemma_first_present(values: Seq<Option<Seq<char>>>)
    ensures
        first_present(values) is None <==> forall|i: int|
            0 <= i < values.len() ==> values[i] is None,
        first_present(values) is Some ==> exists|i: int|
            0 <= i < values.len() && #[trigger] values[i] == first_present(values) && forall|j: int|
                0 <= j < i ==> values[j] is None,
    decreases values.len(),
{
    if values.len() == 0 {
    } else if values[0] is Some {
        assert(values[0] == first_present(values));
    } else {
        let rest = values.drop_first();
        lemma_first_present(rest);
        assert forall|i: int| 0 <= i < values.len() && first_present(rest) is None implies
            values[i] is None by {
            if i > 0 {
                assert(rest[i - 1] == values[i]);
            }
        }
        if first_present(rest) is Some {
            let k = choose|i: int|
                0 <= i < rest.len() && #[trigger] rest[i] == first_present(rest) && forall|j: int|
                    0 <= j < i ==> rest[j] is None;
            assert(values[k + 1] == first_present(values));
            assert forall|j: int| 0 <= j < k + 1 implies values[j] is None by {
                if j > 0 {
                    assert(rest[j - 1] == values[j]);
                }
            }
        } else {
            assert forall|i: int| 0 <= i < rest.len() implies rest[i] is None by {
                assert(rest[i] == values[i + 1]);
            }
        }
    }
}

/// The names of the environment variables that may name the desktop
/// environment, most significant first.
pub fn desktop_variables() -> (names: Vec<&'static str>)
    ensures
        names@.len() == 3,
        names@[0]@ == "XDG_CURRENT_DESKTOP"@,
        names@[1]@ == "DESKTOP_SESSION"@,
        names@[2]@ == "GDMSESSION"@,
{
    let mut names: Vec<&'static str> = Vec::new();
    names.push("XDG_CURRENT_DESKTOP");
    names.push("DESKTOP_SESSION");
    names.push("GDMSESSION");
    names
}

/// Picks the desktop environment from the values of the variables that may
/// name it, given in the order of `desktop_variables`: the first that is set.
pub fn get_desktop_environment(values: &Vec<Option<String>>) -> (r: Option<String>)
    ensures
        r.deep_view() == first_present(values.deep_view()),
{
    let ghost all = values.deep_view();
    let mut i: usize = 0;
    assert(all.skip(0) =~= all);
    while i < values.len()
        invariant
            i <= values.len(),
            all == values.deep_view(),
            first_present(all) == first_present(all.skip(i as int)),
        decreases values.len() - i,
    {
        assert(all.skip(i as int)[0] == all[i as int]);
        assert(all.skip(i as int).drop_first() =~= all.skip(i + 1));
        match &values[i] {
            Some(value) => {
                return Some(value.clone());
            },
            None => {},
        }
        i = i + 1;
    }
    None
}

} // verus!
