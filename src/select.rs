use vstd::prelude::*;

verus! {

/// Whether `i` is the first position in `flags` that holds `true`.
pub open spec fn first_true(flags: Seq<bool>, i: int) -> bool {
    0 <= i < flags.len() && flags[i] && forall|j: int| 0 <= j < i ==> !flags[j]
}

/// How many directories upward from the working directory the search for
/// the project root looks, the working directory included.
pub const ROOT_SEARCH_LEVELS: usize = 6;

/// Where the project root was found.
#[derive(Clone, Copy, Debug, PartialEq, Eq, Structural)]
pub enum RootChoice {
    /// The root that was known when the program was built.
    BuildTime,
    /// The working directory's ancestor this many levels up.
    Ancestor(usize),
}

/// Picks the project root: the build-time root if it holds the backend's
/// package manifest, else the nearest of the working directory and its
/// ancestors that does, looking at most `ROOT_SEARCH_LEVELS` levels up.
/// `ancestors[i]` tells whether the directory `i` levels up holds it.
pub fn find_project_root(build_root_has_marker: bool, ancestors: &Vec<bool>) -> (r: Option<
    RootChoice,
>)
    ensures
        build_root_has_marker ==> r == Some(RootChoice::BuildTime),
        !build_root_has_marker ==> match r {
            Some(RootChoice::Ancestor(i)) => i < ROOT_SEARCH_LEVELS && first_true(
                ancestors@,
                i as int,
            ),
            Some(RootChoice::BuildTime) => false,
            None => forall|j: int|
                0 <= j < ancestors.len() && j < ROOT_SEARCH_LEVELS ==> !ancestors[j],
        },
{
    if build_root_has_marker {
        return Some(RootChoice::BuildTime);
    }
    let mut i: usize = 0;
    while i < ancestors.len() && i < ROOT_SEARCH_LEVELS
        invariant
            i <= ancestors.len(),
            i <= ROOT_SEARCH_LEVELS,
            !build_root_has_marker,
            forall|j: int| 0 <= j < i ==> !ancestors[j],
        decreases ancestors.len() - i,
    {
        if ancestors[i] {
            return Some(RootChoice::Ancestor(i));
        }
        i = i + 1;
    }
    None
}

/// The three layouts in which the backend may be installed, in order of
/// priority.
#[derive(Clone, Copy, Debug, PartialEq, Eq, Structural)]
pub enum Layout {
    /// `backend/` under the project root of a source checkout.
    ProjectRoot,
    /// `backend/` under the installed resources.
    Resource,
    /// The installed resources themselves, with no subdirectory.
    FlatResource,
}

/// One candidate layout, and whether its entry file and its working
/// directory exist.
#[derive(Clone, Copy, Debug, PartialEq, Eq, Structural)]
pub struct LayoutCheck {
    pub layout: Layout,
    pub entry_exists: bool,
    pub dir_exists: bool,
}

pub open spec fn layout_ok(c: LayoutCheck) -> bool {
    c.entry_exists && c.dir_exists
}

/// The layout of the first candidate whose entry file and working
/// directory both exist.
pub open spec fn first_layout(cs: Seq<LayoutCheck>) -> Option<Layout>
    decreases cs.len(),
{
    if cs.len() == 0 {
        None
    } else if layout_ok(cs[0]) {
        Some(cs[0].layout)
    } else {
        first_layout(cs.drop_first())
    }
}

/// Picks the first candidate whose entry file and working directory both
/// exist; candidates with only one of them are skipped.
pub fn resolve_backend_paths(candidates: &Vec<LayoutCheck>) -> (r: Option<Layout>)
    ensures
        r == first_layout(candidates@),
        r matches Some(l) ==> exists|i: int|
            0 <= i < candidates.len() && candidates[i].layout == l && layout_ok(candidates[i])
                && forall|j: int| 0 <= j < i ==> !layout_ok(#[trigger] candidates[j]),
        r is None ==> forall|j: int| 0 <= j < candidates.len() ==> !layout_ok(#[trigger] candidates[j]),
{
    let mut i: usize = 0;
    assert(candidates@.skip(0) =~= candidates@);
    while i < candidates.len()
        invariant
            i <= candidates.len(),
            forall|j: int| 0 <= j < i ==> !layout_ok(#[trigger] candidates[j]),
            first_layout(candidates@) == first_layout(candidates@.skip(i as int)),
        decreases candidates.len() - i,
    {
        assert(candidates@.skip(i as int).drop_first() =~= candidates@.skip(i + 1));
        if candidates[i].entry_exists && candidates[i].dir_exists {
            return Some(candidates[i].layout);
        }
        i = i + 1;
    }
    None
}

pub open spec fn opt_seq(o: Option<String>) -> Seq<Seq<char>> {
    match o {
        Some(s) => seq![s@],
        None => Seq::empty(),
    }
}

/// The places to look for the JavaScript runtime, in order: the bundled
/// one, the bare name found through the search path, then the usual
/// install directories that the environment names.
pub fn runtime_candidates(
    bundled: Option<String>,
    program_files: Option<String>,
    program_files_x86: Option<String>,
    local_app_data: Option<String>,
) -> (r: Vec<String>)
    ensures
        r.deep_view() == opt_seq(bundled) + seq!["node"@] + opt_seq(program_files) + opt_seq(
            program_files_x86,
        ) + opt_seq(local_app_data),
{
    let ghost (b, p, x, l) = (bundled, program_files, program_files_x86, local_app_data);
    let mut r: Vec<String> = Vec::new();
    if let Some(s) = bundled {
        r.push(s);
    }
    r.push(String::from_str("node"));
    if let Some(s) = program_files {
        r.push(s);
    }
    if let Some(s) = program_files_x86 {
        r.push(s);
    }
    if let Some(s) = local_app_data {
        r.push(s);
    }
    assert(r.deep_view() =~= opt_seq(b) + seq!["node"@] + opt_seq(p) + opt_seq(x) + opt_seq(l));
    r
}

pub proof fn lemma_runtime_candidates_len(
    bundled: Option<String>,
    program_files: Option<String>,
    program_files_x86: Option<String>,
    local_app_data: Option<String>,
    r: Seq<Seq<char>>,
)
    requires
        r == opt_seq(bundled) + seq!["node"@] + opt_seq(program_files) + opt_seq(program_files_x86)
            + opt_seq(local_app_data),
    ensures
        r.len() >= 1,
{
}

} // verus!
