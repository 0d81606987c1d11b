use vstd::prelude::*;

use crate::text::{is_space, lemma_split_lines_nonempty, push_char, split_lines, trim, trim_end, trim_start, trimmed, trimmed_lines};

verus! {

/// The map that a list of assignments gives when they are applied in order:
/// a later assignment to a name replaces an earlier one.
pub open spec fn pairs_map(s: Seq<(Seq<char>, Seq<char>)>) -> Map<Seq<char>, Seq<char>>
    decreases s.len(),
{
    if s.len() == 0 {
        Map::empty()
    } else {
        pairs_map(s.drop_last()).insert(s.last().0, s.last().1)
    }
}

/// Whether `p` is the position of the first `c` in `t`.
pub open spec fn first_at(t: Seq<char>, c: char, p: int) -> bool {
    0 <= p < t.len() && t[p] == c && forall|j: int| 0 <= j < p ==> t[j] != c
}

/// `v` without one pair of matching quote characters around it, if it has one.
pub open spec fn unquote(v: Seq<char>) -> Seq<char> {
    if v.len() >= 2 && (v[0] == '"' || v[0] == '\'') && v.last() == v[0] {
        v.subrange(1, v.len() - 1)
    } else {
        v
    }
}

/// The assignment that one line of an override file makes, if any. Blank
/// lines, comment lines, lines without `=` and lines with an empty name
/// make none. Name and value are trimmed, and the value is unquoted.
pub open spec fn line_entry(line: Seq<char>) -> Option<(Seq<char>, Seq<char>)> {
    let t = trim(line);
    if t.len() == 0 || t[0] == '#' || !(exists|p: int| first_at(t, '=', p)) {
        None
    } else {
        let p = choose|p: int| first_at(t, '=', p);
        let key = trim(t.take(p));
        if key.len() == 0 {
            None
        } else {
            Some((key, unquote(trim(t.skip(p + 1)))))
        }
    }
}

/// The assignments that the lines `ls` make, in order.
pub open spec fn lines_entries(ls: Seq<Seq<char>>) -> Seq<(Seq<char>, Seq<char>)>
    decreases ls.len(),
{
    if ls.len() == 0 {
        Seq::empty()
    } else {
        match line_entry(ls.last()) {
            Some(e) => lines_entries(ls.drop_last()).push(e),
            None => lines_entries(ls.drop_last()),
        }
    }
}

/// The overrides that the text of an override file sets.
pub open spec fn overrides_of(text: Seq<char>) -> Map<Seq<char>, Seq<char>> {
    pairs_map(lines_entries(split_lines(text)))
}

/// A set of environment variables, kept as the assignments that made it,
/// in order; a later assignment to a name replaces an earlier one.
pub struct EnvVars {
    pub entries: Vec<(String, String)>,
}

pub open spec fn entries_view(v: Seq<(String, String)>) -> Seq<(Seq<char>, Seq<char>)> {
    v.map_values(|p: (String, String)| (p.0@, p.1@))
}

pub proof fn lemma_pairs_map_append(a: Seq<(Seq<char>, Seq<char>)>, b: Seq<(Seq<char>, Seq<char>)>)
    ensures
        pairs_map(a + b) == pairs_map(a).union_prefer_right(pairs_map(b)),
    decreases b.len(),
{
    if b.len() == 0 {
        assert(a + b =~= a);
        assert(pairs_map(a).union_prefer_right(pairs_map(b)) =~= pairs_map(a));
    } else {
        assert((a + b).drop_last() =~= a + b.drop_last());
        lemma_pairs_map_append(a, b.drop_last());
        assert(pairs_map(a + b) =~= pairs_map(a).union_prefer_right(pairs_map(b)));
    }
}

impl View for EnvVars {
    type V = Map<Seq<char>, Seq<char>>;

    open spec fn view(&self) -> Map<Seq<char>, Seq<char>> {
        pairs_map(entries_view(self.entries@))
    }
}

impl EnvVars {
    /// No variables.
    pub fn new() -> (r: EnvVars)
        ensures
            r@ == Map::<Seq<char>, Seq<char>>::empty(),
            r.entries@.len() == 0,
    {
        EnvVars { entries: Vec::new() }
    }

    /// Sets `key` to `value`, replacing any earlier value.
    pub fn set(&mut self, key: String, value: String)
        ensures
            final(self)@ == old(self)@.insert(key@, value@),
    {
        self.entries.push((key, value));
        proof {
            assert(entries_view(final(self).entries@).drop_last() =~= entries_view(
                old(self).entries@,
            ));
        }
    }

    /// Sets each variable of `other`, in its order, over those here.
    pub fn extend(&mut self, other: &EnvVars)
        ensures
            final(self)@ == old(self)@.union_prefer_right(other@),
    {
        let mut i: usize = 0;
        while i < other.entries.len()
            invariant
                i <= other.entries.len(),
                entries_view(self.entries@) == entries_view(old(self).entries@) + entries_view(
                    other.entries@,
                ).take(i as int),
            decreases other.entries.len() - i,
        {
            let a = other.entries[i].0.clone();
            let b = other.entries[i].1.clone();
            let ghost before = self.entries@;
            self.entries.push((a, b));
            assert(entries_view(self.entries@) =~= entries_view(before).push(
                entries_view(other.entries@)[i as int],
            ));
            i = i + 1;
            assert(entries_view(self.entries@) =~= entries_view(old(self).entries@)
                + entries_view(other.entries@).take(i as int));
        }
        assert(entries_view(other.entries@).take(i as int) =~= entries_view(other.entries@));
        proof {
            lemma_pairs_map_append(entries_view(old(self).entries@), entries_view(other.entries@));
        }
    }

    /// The value of `key`, if it is set.
    pub fn get(&self, key: &str) -> (r: Option<String>)
        ensures
            r matches Some(v) ==> self@.contains_key(key@) && self@[key@] == v@,
            r is None ==> !self@.contains_key(key@),
    {
        let k = String::from_str(key);
        let ghost s = entries_view(self.entries@);
        let mut i: usize = self.entries.len();
        assert(s.take(i as int) =~= s);
        while i > 0
            invariant
                i <= self.entries.len(),
                s == entries_view(self.entries@),
                k@ == key@,
                pairs_map(s.take(i as int)).contains_key(key@) == pairs_map(s).contains_key(
                    key@,
                ),
                pairs_map(s.take(i as int)).contains_key(key@) ==> pairs_map(s.take(i as int))[key@]
                    == pairs_map(s)[key@],
            decreases i,
        {
            assert(s.take(i as int).drop_last() =~= s.take(i - 1));
            if self.entries[i - 1].0 == k {
                return Some(self.entries[i - 1].1.clone());
            }
            i = i - 1;
        }
        assert(s.take(0) =~= Seq::<(Seq<char>, Seq<char>)>::empty());
        None
    }
}

/// The position of the first `c` in `v` from `from` up to `to`, if any.
fn find_char(v: &Vec<char>, from: usize, to: usize, c: char) -> (r: Option<usize>)
    requires
        from <= to <= v.len(),
    ensures
        r matches Some(p) ==> from <= p < to && first_at(
            v@.subrange(from as int, to as int),
            c,
            p - from,
        ),
        r is None ==> forall|j: int| from <= j < to ==> v@[j] != c,
{
    let mut i = from;
    while i < to
        invariant
            from <= i <= to <= v.len(),
            forall|j: int| from <= j < i ==> v@[j] != c,
        decreases to - i,
    {
        if v[i] == c {
            return Some(i);
        }
        i = i + 1;
    }
    None
}

pub fn string_of(v: &Vec<char>) -> (r: String)
    ensures
        r@ == v@,
{
    let mut s = String::new();
    let mut i: usize = 0;
    while i < v.len()
        invariant
            i <= v.len(),
            s@ == v@.take(i as int),
        decreases v.len() - i,
    {
        push_char(&mut s, v[i]);
        i = i + 1;
        assert(s@ =~= v@.take(i as int));
    }
    assert(v@.take(i as int) =~= v@);
    s
}

/// The assignment that one trimmed line makes, if any.
fn parse_line(t: &Vec<char>) -> (r: Option<(String, String)>)
    ensures
        t@ == trim(t@) ==> match r {
            Some(e) => line_entry(t@) == Some((e.0@, e.1@)),
            None => line_entry(t@) is None,
        },
{
    if t.len() == 0 || t[0] == '#' {
        return None;
    }
    match find_char(t, 0, t.len(), '=') {
        None => {
            assert(t@.subrange(0, t.len() as int) =~= t@);
            None
        },
        Some(p) => {
            assert(t@.subrange(0, t.len() as int) =~= t@);
            let key = trimmed(t, 0, p);
            let raw = trimmed(t, p + 1, t.len());
            proof {
                assert forall|q: int| first_at(t@, '=', q) implies q == p by {
                    if q < p {
                        assert(t@[q] != '=');
                    } else if q > p {
                        assert(t@[p as int] != '=');
                    }
                }
                assert(t@.subrange(0, p as int) =~= t@.take(p as int));
                assert(t@.subrange(p + 1, t.len() as int) =~= t@.skip(p + 1));
            }
            if key.len() == 0 {
                return None;
            }
            let n = raw.len();
            let mut v: Vec<char> = Vec::new();
            if n >= 2 && (raw[0] == '"' || raw[0] == '\'') && raw[n - 1] == raw[0] {
                let mut i: usize = 1;
                while i < n - 1
                    invariant
                        1 <= i <= n - 1,
                        n == raw.len(),
                        v@ == raw@.subrange(1, i as int),
                    decreases n - 1 - i,
                {
                    v.push(raw[i]);
                    i = i + 1;
                    assert(v@ =~= raw@.subrange(1, i as int));
                }
            } else {
                v = raw;
            }
            Some((string_of(&key), string_of(&v)))
        },
    }
}

/// Reads the text of an override file: lines of `NAME=value`, where blank
/// lines and lines that start with `#` are skipped. Name and value are
/// trimmed, one pair of matching quotes around the value is removed, and a
/// line with an empty name is skipped. A later line for a name wins.
pub fn parse_dotenv(content: &str) -> (r: EnvVars)
    ensures
        r@ == overrides_of(content@),
{
    let lines = trimmed_lines(content);
    let ghost ls = split_lines(content@);
    let mut vars = EnvVars::new();
    let mut i: usize = 0;
    proof {
        assert(ls.take(0) =~= Seq::<Seq<char>>::empty());
        assert(entries_view(vars.entries@) =~= lines_entries(ls.take(0)));
    }
    while i < lines.len()
        invariant
            i <= lines.len() == ls.len(),
            forall|j: int| 0 <= j < lines.len() ==> #[trigger] lines[j]@ == trim(ls[j]),
            entries_view(vars.entries@) == lines_entries(ls.take(i as int)),
        decreases lines.len() - i,
    {
        assert(ls.take(i + 1).drop_last() =~= ls.take(i as int));
        assert(ls.take(i + 1).last() == ls[i as int]);
        let ghost l = ls[i as int];
        proof {
            lemma_trim_idempotent(l);
            lemma_line_entry_trim(l);
        }
        match parse_line(&lines[i]) {
            Some(e) => {
                vars.entries.push(e);
                assert(entries_view(vars.entries@) =~= lines_entries(ls.take(i + 1)));
            },
            None => {
                assert(entries_view(vars.entries@) =~= lines_entries(ls.take(i + 1)));
            },
        }
        i = i + 1;
    }
    assert(ls.take(i as int) =~= ls);
    vars
}

proof fn lemma_trim_start_shape(s: Seq<char>)
    ensures
        trim_start(s).len() == 0 || !is_space(trim_start(s)[0]),
    decreases s.len(),
{
    if s.len() > 0 && is_space(s[0]) {
        lemma_trim_start_shape(s.drop_first());
    }
}

proof fn lemma_trim_end_shape(s: Seq<char>)
    ensures
        trim_end(s).len() <= s.len(),
        trim_end(s) =~= s.take(trim_end(s).len() as int),
        trim_end(s).len() == 0 || !is_space(trim_end(s).last()),
    decreases s.len(),
{
    if s.len() > 0 && is_space(s.last()) {
        lemma_trim_end_shape(s.drop_last());
    }
}

pub proof fn lemma_trim_idempotent(s: Seq<char>)
    ensures
        trim(trim(s)) == trim(s),
{
    let x = trim_start(s);
    let y = trim_end(x);
    lemma_trim_start_shape(s);
    lemma_trim_end_shape(x);
    if y.len() > 0 {
        assert(y[0] == x[0]);
    }
    assert(trim_start(y) == y);
    assert(trim_end(y) == y);
}

pub proof fn lemma_line_entry_trim(s: Seq<char>)
    ensures
        line_entry(trim(s)) == line_entry(s),
{
    lemma_trim_idempotent(s);
}

/// The defaults of the backend's environment, for its endpoints and ports.
pub open spec fn default_env(storage_root: Seq<char>) -> Map<Seq<char>, Seq<char>> {
    Map::empty().insert("NODE_ENV"@, "production"@).insert("BACKEND_PORT"@, "3001"@).insert(
        "QDRANT_URL"@,
        "http://127.0.0.1:6333"@,
    ).insert("BACKEND_STORAGE_ROOT"@, storage_root).insert(
        "OLLAMA_BASE_URL"@,
        "http://localhost:11434"@,
    ).insert("OLLAMA_CHAT_MODEL"@, "minimax-m2.5:cloud"@)
}

/// The environment of the backend process: the defaults, then every
/// override over them.
pub fn backend_env(storage_root: &str, overrides: &EnvVars) -> (r: EnvVars)
    ensures
        r@ == default_env(storage_root@).union_prefer_right(overrides@),
{
    let mut env = EnvVars::new();
    env.set(String::from_str("NODE_ENV"), String::from_str("production"));
    env.set(String::from_str("BACKEND_PORT"), String::from_str("3001"));
    env.set(String::from_str("QDRANT_URL"), String::from_str("http://127.0.0.1:6333"));
    env.set(String::from_str("BACKEND_STORAGE_ROOT"), String::from_str(storage_root));
    env.set(String::from_str("OLLAMA_BASE_URL"), String::from_str("http://localhost:11434"));
    env.set(String::from_str("OLLAMA_CHAT_MODEL"), String::from_str("minimax-m2.5:cloud"));
    assert(env@ == default_env(storage_root@));
    env.extend(overrides);
    env
}

/// Whether the AI credential is configured in `env`: set, not empty, and
/// not the placeholder of the example file.
pub open spec fn credential_ok(env: Map<Seq<char>, Seq<char>>) -> bool {
    env.contains_key("GROQ_API_KEY"@) && env["GROQ_API_KEY"@].len() > 0
        && env["GROQ_API_KEY"@] != "your_groq_api_key_here"@
}

/// Tells whether the AI credential is configured in `env`.
pub fn credential_configured(env: &EnvVars) -> (r: bool)
    ensures
        r == credential_ok(env@),
{
    match env.get("GROQ_API_KEY") {
        None => false,
        Some(v) => !v.as_str().is_empty() && !(v == String::from_str("your_groq_api_key_here")),
    }
}

/// Where the backend keeps its data.
#[derive(Debug, PartialEq, Eq)]
pub enum StorageRoot {
    /// The path that the override file names.
    Explicit(String),
    /// `storage` beside the backend directory, in a source checkout.
    BesideBackend,
    /// `storage` in the application's data directory.
    AppData,
    /// `storage` inside the backend directory.
    InBackend,
}

impl StorageRoot {
    pub fn duplicate(&self) -> (r: StorageRoot)
        ensures
            r == *self,
    {
        match self {
            StorageRoot::Explicit(p) => StorageRoot::Explicit(p.clone()),
            StorageRoot::BesideBackend => StorageRoot::BesideBackend,
            StorageRoot::AppData => StorageRoot::AppData,
            StorageRoot::InBackend => StorageRoot::InBackend,
        }
    }
}

/// Whether `r` is the storage root to pick: a non-blank
/// `BACKEND_STORAGE_ROOT` override (trimmed) first; then, where the backend
/// directory holds a package manifest and has a parent, `storage` beside it;
/// then the application's data directory, where there is one; else
/// `storage` inside the backend directory.
pub open spec fn storage_choice(
    overrides: Map<Seq<char>, Seq<char>>,
    has_manifest: bool,
    has_parent: bool,
    has_app_data: bool,
    r: StorageRoot,
) -> bool {
    let k = "BACKEND_STORAGE_ROOT"@;
    if overrides.contains_key(k) && trim(overrides[k]).len() > 0 {
        r matches StorageRoot::Explicit(p) && p@ == trim(overrides[k])
    } else if has_manifest && has_parent {
        r == StorageRoot::BesideBackend
    } else if has_app_data {
        r == StorageRoot::AppData
    } else {
        r == StorageRoot::InBackend
    }
}

/// Picks the storage root that `storage_choice` describes.
pub fn choose_storage_root(
    overrides: &EnvVars,
    has_manifest: bool,
    has_parent: bool,
    has_app_data: bool,
) -> (r: StorageRoot)
    ensures
        storage_choice(overrides@, has_manifest, has_parent, has_app_data, r),
{
    if let Some(v) = overrides.get("BACKEND_STORAGE_ROOT") {
        let cs = crate::text::chars_of(v.as_str());
        let t = trimmed(&cs, 0, cs.len());
        assert(cs@.subrange(0, cs.len() as int) =~= cs@);
        if t.len() > 0 {
            return StorageRoot::Explicit(string_of(&t));
        }
    }
    if has_manifest && has_parent {
        StorageRoot::BesideBackend
    } else if has_app_data {
        StorageRoot::AppData
    } else {
        StorageRoot::InBackend
    }
}

proof fn lemma_split_lines_join(a: Seq<char>, b: Seq<char>)
    ensures
        split_lines(a + seq!['\n'] + b) == split_lines(a) + split_lines(b),
    decreases b.len(),
{
    let t = a + seq!['\n'] + b;
    if b.len() == 0 {
        assert(t.drop_last() =~= a);
        assert(split_lines(t) =~= split_lines(a) + split_lines(b));
    } else {
        assert(t.drop_last() =~= a + seq!['\n'] + b.drop_last());
        lemma_split_lines_join(a, b.drop_last());
        lemma_split_lines_nonempty(b.drop_last());
        lemma_split_lines_nonempty(a);
        assert(split_lines(t) =~= split_lines(a) + split_lines(b));
    }
}

proof fn lemma_lines_entries_append(x: Seq<Seq<char>>, y: Seq<Seq<char>>)
    ensures
        lines_entries(x + y) == lines_entries(x) + lines_entries(y),
    decreases y.len(),
{
    if y.len() == 0 {
        assert(x + y =~= x);
        assert(lines_entries(x) + lines_entries(y) =~= lines_entries(x));
    } else {
        assert((x + y).drop_last() =~= x + y.drop_last());
        lemma_lines_entries_append(x, y.drop_last());
        assert(lines_entries(x + y) =~= lines_entries(x) + lines_entries(y));
    }
}

/// What a later part of an override file sets wins over what an earlier
/// part sets: the overrides of two parts joined by a line break are those
/// of the first, with those of the second over them.
pub proof fn law_later_lines_win(a: Seq<char>, b: Seq<char>)
    ensures
        overrides_of(a + seq!['\n'] + b) == overrides_of(a).union_prefer_right(overrides_of(b)),
{
    lemma_split_lines_join(a, b);
    lemma_lines_entries_append(split_lines(a), split_lines(b));
    lemma_pairs_map_append(lines_entries(split_lines(a)), lines_entries(split_lines(b)));
}

/// A single line that assigns `value` to `key` sets that and nothing else.
pub proof fn law_single_line(line: Seq<char>, key: Seq<char>, value: Seq<char>)
    requires
        !line.contains('\n'),
        line_entry(line) == Some((key, value)),
    ensures
        overrides_of(line) == Map::<Seq<char>, Seq<char>>::empty().insert(key, value),
{
    lemma_split_lines_single(line);
    let ls = split_lines(line);
    assert(ls.drop_last() =~= Seq::<Seq<char>>::empty());
    assert(ls.last() == line);
    assert(lines_entries(ls.drop_last()) =~= Seq::<(Seq<char>, Seq<char>)>::empty());
    assert(lines_entries(ls) =~= seq![(key, value)]);
    assert(lines_entries(ls).drop_last() =~= Seq::<(Seq<char>, Seq<char>)>::empty());
    assert(pairs_map(lines_entries(ls).drop_last()) =~= Map::<Seq<char>, Seq<char>>::empty());
    assert(overrides_of(line) =~= Map::<Seq<char>, Seq<char>>::empty().insert(key, value));
}

proof fn lemma_split_lines_single(line: Seq<char>)
    requires
        !line.contains('\n'),
    ensures
        split_lines(line) == seq![line],
    decreases line.len(),
{
    if line.len() > 0 {
        assert(!line.drop_last().contains('\n')) by {
            if line.drop_last().contains('\n') {
                let i = choose|i: int| 0 <= i < line.drop_last().len() && line.drop_last()[i] == '\n';
                assert(line[i] == '\n');
            }
        }
        lemma_split_lines_single(line.drop_last());
        assert(line[line.len() - 1] != '\n');
        assert(line.drop_last().push(line.last()) =~= line);
        assert(split_lines(line) =~= seq![line]);
    } else {
        assert(line =~= Seq::<char>::empty());
    }
}

/// In the backend's environment a name that the override file sets has the
/// file's value, even an empty one; a name that the file does not set keeps
/// its default, or stays unset.
pub proof fn law_override_precedence(text: Seq<char>, storage_root: Seq<char>, key: Seq<char>)
    ensures
        ({
            let env = default_env(storage_root).union_prefer_right(overrides_of(text));
            &&& overrides_of(text).contains_key(key) ==> env.contains_key(key) && env[key]
                == overrides_of(text)[key]
            &&& !overrides_of(text).contains_key(key) ==> env.contains_key(key)
                == default_env(storage_root).contains_key(key)
            &&& !overrides_of(text).contains_key(key) && default_env(storage_root).contains_key(
                key,
            ) ==> env[key] == default_env(storage_root)[key]
        }),
{
}

} // verus!
