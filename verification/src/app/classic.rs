//! The first layout of the player: its input modes, its three visualizer
//! styles, and how it takes a finished download into the library.
use vstd::prelude::*;
use crate::library::{lemma_filtered_ordered, Library};
use crate::metadata::TrackMeta;
use crate::text::{owned, push_str_chars};

verus! {

/// What the keyboard is typing into.
#[derive(PartialEq, Eq, Structural, Clone, Copy, Debug)]
pub enum InputMode {
    Normal,
    Editing,
    Downloading,
}

/// The style of the spectrum display.
#[derive(PartialEq, Eq, Structural, Clone, Copy, Debug)]
pub enum VisualizerMode {
    RetroCrt,
    NeonWaves,
    CyberpunkPeak,
}

impl VisualizerMode {
    /// The style after this one, round to the first.
    pub open spec fn next_spec(self) -> VisualizerMode {
        match self {
            VisualizerMode::RetroCrt => VisualizerMode::NeonWaves,
            VisualizerMode::NeonWaves => VisualizerMode::CyberpunkPeak,
            VisualizerMode::CyberpunkPeak => VisualizerMode::RetroCrt,
        }
    }

    /// The name of the style as written in the source.
    pub open spec fn name_spec(self) -> Seq<char> {
        match self {
            VisualizerMode::RetroCrt => "RetroCrt"@,
            VisualizerMode::NeonWaves => "NeonWaves"@,
            VisualizerMode::CyberpunkPeak => "CyberpunkPeak"@,
        }
    }

    /// The style after this one.
    pub fn next(self) -> (r: VisualizerMode)
        ensures
            r == self.next_spec(),
    {
        match self {
            VisualizerMode::RetroCrt => VisualizerMode::NeonWaves,
            VisualizerMode::NeonWaves => VisualizerMode::CyberpunkPeak,
            VisualizerMode::CyberpunkPeak => VisualizerMode::RetroCrt,
        }
    }

    /// The name of the style.
    pub fn name(self) -> (r: String)
        ensures
            r@ == self.name_spec(),
    {
        match self {
            VisualizerMode::RetroCrt => owned("RetroCrt"),
            VisualizerMode::NeonWaves => owned("NeonWaves"),
            VisualizerMode::CyberpunkPeak => owned("CyberpunkPeak"),
        }
    }
}

/// Switching the style three times comes back to the same style.
pub proof fn lemma_visualizer_period(m: VisualizerMode)
    ensures
        m.next_spec().next_spec().next_spec() == m,
        m.next_spec() != m,
{
}

/// Switches to the next style and gives the notification that says so.
pub fn toggle_visualizer(mode: &mut VisualizerMode) -> (r: String)
    ensures
        *final(mode) == old(mode).next_spec(),
        r@ == "Visualizer changed to "@ + final(mode).name_spec(),
{
    *mode = mode.next();
    let mut n = owned("Visualizer changed to ");
    let name = mode.name();
    push_str_chars(&mut n, name.as_str());
    n
}

impl Library {
    /// Takes in a finished download: a path not listed yet goes first, with
    /// its metadata; a listed one stays as it is.
    pub fn add_download(&mut self, path: String, meta: TrackMeta)
        requires
            old(self).wf(),
        ensures
            final(self).wf(),
            old(self).has(path@) ==> final(self).tracks@ == old(self).tracks@
                && final(self).metadata@ == old(self).metadata@,
            !old(self).has(path@) ==> final(self).tracks@ == seq![path] + old(self).tracks@
                && final(self).metadata@ == seq![meta] + old(self).metadata@,
    {
        match self.position(&path) {
            Some(_) => {},
            None => {
                self.tracks.insert(0, path);
                self.metadata.insert(0, meta);
                proof {
                    let t = final(self).tracks@;
                    assert(t =~= seq![path] + old(self).tracks@);
                    assert(final(self).metadata@ =~= seq![meta] + old(self).metadata@);
                    assert forall|a: int, b: int| 0 <= a < b < t.len() implies t[a]@ != t[b]@ by {
                        if a == 0 {
                            assert(old(self).tracks@[b - 1]@ != path@);
                        } else {
                            assert(t[a] == old(self).tracks@[a - 1] && t[b] == old(self).tracks@[b
                                - 1]);
                        }
                    }
                }
            },
        }
    }
}

/// Where the selection goes for `path` when the list is filtered by
/// `search`: its row, if it is listed, else the first row.
pub open spec fn row_of(lib: Library, search: Seq<char>, path: Seq<char>) -> int {
    let f = lib.filtered(search);
    if exists|j: int| 0 <= j < f.len() && lib.tracks@[f[j] as int]@ == path {
        choose|j: int| 0 <= j < f.len() && lib.tracks@[f[j] as int]@ == path
    } else {
        0
    }
}

/// The row of the filtered list that shows `path`, or 0 when none does.
pub fn download_row(lib: &Library, search: &str, path: &String) -> (r: usize)
    requires
        lib.wf(),
    ensures
        r == row_of(*lib, search@, path@),
{
    let f = lib.filtered_indices(search);
    let _count = lib.tracks.len();
    proof {
        lemma_filtered_ordered(lib, search@);
    }
    let mut j: usize = 0;
    while j < f.len()
        invariant
            lib.wf(),
            f@ == lib.filtered(search@),
            j <= f@.len(),
            forall|a: int| 0 <= a < f@.len() ==> (f@[a] as int) < lib.tracks@.len(),
            forall|a: int, b: int| 0 <= a < b < f@.len() ==> f@[a] < f@[b],
            forall|a: int| 0 <= a < j ==> lib.tracks@[f@[a] as int]@ != path@,
        decreases f@.len() - j,
    {
        let i = f[j];
        if lib.tracks[i] == *path {
            proof {
                let g = f@;
                let c = choose|c: int| 0 <= c < g.len() && lib.tracks@[g[c] as int]@ == path@;
                if c != j as int {
                    assert(g[c] != g[j as int]);
                    assert(lib.tracks@[g[c] as int]@ != lib.tracks@[g[j as int] as int]@);
                }
            }
            return j;
        }
        j += 1;
    }
    0
}

} // verus!
