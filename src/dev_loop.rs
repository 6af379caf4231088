//! The dev loop's decisions: which rebuild a change batch needs, the steps of
//! each rebuild, the watched asset sources, and whether browsers reload.
use vstd::prelude::*;

verus! {

/// One bundled asset: where it comes from, where its transformed copy goes,
/// and the transform options `O`, which are handed to the transform as they are.
#[derive(Debug)]
pub struct BundledAsset<O> {
    pub absolute_source_path: String,
    pub output_path: String,
    pub options: O,
}

/// The first asset, from index `i` on, whose source is `p`, or -1.
pub open spec fn source_index<O>(assets: Seq<BundledAsset<O>>, p: Seq<char>, i: int) -> int
    decreases assets.len() - i,
{
    if i < 0 || i >= assets.len() {
        -1
    } else if assets[i].absolute_source_path@ == p {
        i
    } else {
        source_index(assets, p, i + 1)
    }
}

/// `p` is the source of some asset.
pub open spec fn is_source<O>(assets: Seq<BundledAsset<O>>, p: Seq<char>) -> bool {
    exists|j: int| 0 <= j < assets.len() && (#[trigger] assets[j]).absolute_source_path@ == p
}

/// Every path of `paths` is an asset source.
pub open spec fn all_sources<O>(assets: Seq<BundledAsset<O>>, paths: Seq<String>) -> bool {
    forall|i: int| 0 <= i < paths.len() ==> is_source(assets, #[trigger] paths[i]@)
}

proof fn lemma_source_index<O>(assets: Seq<BundledAsset<O>>, p: Seq<char>, i: int)
    requires
        0 <= i <= assets.len(),
    ensures
        source_index(assets, p, i) == -1 <==> forall|j: int|
            i <= j < assets.len() ==> (#[trigger] assets[j]).absolute_source_path@ != p,
        source_index(assets, p, i) != -1 ==> i <= source_index(assets, p, i) < assets.len()
            && assets[source_index(assets, p, i)].absolute_source_path@ == p,
    decreases assets.len() - i,
{
    if i < assets.len() {
        lemma_source_index(assets, p, i + 1);
    }
}

/// The first index of an asset whose source is `path`.
fn find_source<O>(assets: &[BundledAsset<O>], path: &String) -> (r: Option<usize>)
    ensures
        match r {
            Some(j) => j as int == source_index(assets@, path@, 0),
            None => source_index(assets@, path@, 0) == -1,
        },
{
    let mut j: usize = 0;
    while j < assets.len()
        invariant
            j <= assets@.len(),
            source_index(assets@, path@, 0) == source_index(assets@, path@, j as int),
        decreases assets@.len() - j,
    {
        if assets[j].absolute_source_path == *path {
            return Some(j);
        }
        j = j + 1;
    }
    None
}

/// The indices of the assets whose sources are `paths`, one for each path in
/// order, or `None` as soon as a path is not an asset source.
pub fn asset_indices<O>(assets: &[BundledAsset<O>], paths: &Vec<String>) -> (r: Option<Vec<usize>>)
    ensures
        r is Some <==> all_sources(assets@, paths@),
        r matches Some(v) ==> v@.len() == paths@.len() && forall|i: int|
            0 <= i < paths@.len() ==> v@[i] as int == source_index(
                assets@,
                #[trigger] paths@[i]@,
                0,
            ),
{
    let mut out: Vec<usize> = Vec::new();
    let mut i: usize = 0;
    while i < paths.len()
        invariant
            i <= paths@.len(),
            out@.len() == i,
            forall|k: int| 0 <= k < i ==> is_source(assets@, #[trigger] paths@[k]@),
            forall|k: int|
                0 <= k < i ==> out@[k] as int == source_index(assets@, #[trigger] paths@[k]@, 0),
        decreases paths@.len() - i,
    {
        proof {
            lemma_source_index(assets@, paths@[i as int]@, 0);
        }
        match find_source(assets, &paths[i]) {
            Some(j) => {
                out.push(j);
            },
            None => {
                proof {
                    assert(!is_source(assets@, paths@[i as int]@));
                }
                return None;
            },
        }
        proof {
            let j = source_index(assets@, paths@[i as int]@, 0);
            assert(assets@[j].absolute_source_path@ == paths@[i as int]@);
        }
        i = i + 1;
    }
    Some(out)
}

/// The assets whose sources are `paths`, one for each path in order, or
/// `None` when some path is not an asset source.
pub fn asset_subset<'a, O>(assets: &'a [BundledAsset<O>], paths: &Vec<String>) -> (r: Option<
    Vec<&'a BundledAsset<O>>,
>)
    ensures
        r is Some <==> all_sources(assets@, paths@),
        r matches Some(v) ==> v@.len() == paths@.len() && forall|i: int|
            0 <= i < paths@.len() ==> *v@[i] == assets@[source_index(
                assets@,
                #[trigger] paths@[i]@,
                0,
            )],
{
    match asset_indices(assets, paths) {
        None => None,
        Some(idx) => {
            proof {
                assert forall|k: int| 0 <= k < idx@.len() implies (#[trigger] idx@[k]) < assets@.len() by {
                    lemma_source_index(assets@, paths@[k]@, 0);
                    assert(is_source(assets@, paths@[k]@));
                    let j = choose|j: int| 0 <= j < assets@.len() && (#[trigger] assets@[j]).absolute_source_path@ == paths@[k]@;
                    assert(assets@[j].absolute_source_path@ == paths@[k]@);
                }
            }
            let mut out: Vec<&'a BundledAsset<O>> = Vec::new();
            let mut i: usize = 0;
            while i < idx.len()
                invariant
                    i <= idx@.len(),
                    idx@.len() == paths@.len(),
                    out@.len() == i,
                    forall|k: int| 0 <= k < idx@.len() ==> (#[trigger] idx@[k]) < assets@.len(),
                    forall|k: int| 0 <= k < i ==> *out@[k] == assets@[#[trigger] idx@[k] as int],
                decreases idx@.len() - i,
            {
                out.push(&assets[idx[i]]);
                i = i + 1;
            }
            Some(out)
        },
    }
}

/// Client-side rendering, or server-side rendering with a hydrated client.
#[derive(Debug, Clone, Copy, PartialEq, Eq, Structural)]
pub enum ServerMode {
    Csr,
    Ssr,
}

/// The rebuild a change batch needs.
#[derive(Debug)]
pub enum Rebuild {
    /// Only `index.html` changed: regenerate it.
    IndexHtml,
    /// Only asset sources changed: re-transform these assets (by index).
    Assets(Vec<usize>),
    /// Anything else: compile again.
    Full,
}

/// The batch is exactly the project's `index.html`, in client-side rendering.
pub open spec fn index_only(mode: ServerMode, index_html: Seq<char>, batch: Seq<String>) -> bool {
    mode == ServerMode::Csr && batch.len() == 1 && batch[0]@ == index_html
}

/// The batch needs only its assets transformed again.
pub open spec fn asset_only<O>(
    mode: ServerMode,
    index_html: Seq<char>,
    assets: Seq<BundledAsset<O>>,
    batch: Seq<String>,
) -> bool {
    !index_only(mode, index_html, batch) && all_sources(assets, batch)
}

/// The batch needs a full rebuild.
pub open spec fn full_rebuild<O>(
    mode: ServerMode,
    index_html: Seq<char>,
    assets: Seq<BundledAsset<O>>,
    batch: Seq<String>,
) -> bool {
    !index_only(mode, index_html, batch) && !all_sources(assets, batch)
}

/// Each change batch gets exactly one kind of rebuild.
pub proof fn lemma_one_rebuild_per_batch<O>(
    mode: ServerMode,
    index_html: Seq<char>,
    assets: Seq<BundledAsset<O>>,
    batch: Seq<String>,
)
    ensures
        index_only(mode, index_html, batch) || asset_only(mode, index_html, assets, batch)
            || full_rebuild(mode, index_html, assets, batch),
        !(index_only(mode, index_html, batch) && asset_only(mode, index_html, assets, batch)),
        !(index_only(mode, index_html, batch) && full_rebuild(mode, index_html, assets, batch)),
        !(asset_only(mode, index_html, assets, batch) && full_rebuild(
            mode,
            index_html,
            assets,
            batch,
        )),
{
}

/// Classifies `batch`, in this order: index-only, asset-only, full.
pub fn classify<O>(
    mode: ServerMode,
    index_html: &String,
    assets: &[BundledAsset<O>],
    batch: &Vec<String>,
) -> (r: Rebuild)
    ensures
        r is IndexHtml <==> index_only(mode, index_html@, batch@),
        r is Assets <==> asset_only(mode, index_html@, assets@, batch@),
        r is Full <==> full_rebuild(mode, index_html@, assets@, batch@),
        r matches Rebuild::Assets(v) ==> v@.len() == batch@.len() && forall|i: int|
            0 <= i < batch@.len() ==> v@[i] as int == source_index(
                assets@,
                #[trigger] batch@[i]@,
                0,
            ),
{
    if mode == ServerMode::Csr && batch.len() == 1 && batch[0] == *index_html {
        return Rebuild::IndexHtml;
    }
    match asset_indices(assets, batch) {
        Some(v) => Rebuild::Assets(v),
        None => Rebuild::Full,
    }
}

/// One step of a rebuild, carried out by the caller in order.
#[derive(Debug, Clone, Copy, PartialEq, Eq, Structural)]
pub enum Step {
    /// Regenerate `index.html` in the out dir.
    BuildIndexHtml,
    /// Delete the asset's output and run its transform again.
    RefreshAsset(usize),
    /// Compile the client-side-rendering WASM.
    CompileCsr,
    /// Compile the hydrating client WASM.
    CompileHydrate,
    /// Compile the server-side-rendering executable.
    CompileSsr,
    /// Remove and recreate the out dir.
    ClearOutDir,
    /// Remove and recreate the client assets dir.
    ClearClientAssets,
    /// Create the assets dir.
    CreateAssetsDir,
    /// Extract and transform the assets of the compiled binary.
    CollectAssets,
    /// Run wasm-bindgen and wasm-opt into the assets dir.
    Bindgen,
    /// Watch the new asset sources instead of the old ones.
    WatchAssets,
    /// Stop the running backend.
    StopBackend,
    /// Copy the new executable over the backend's.
    CopyExecutable,
    /// Start the backend again.
    StartBackend,
}

pub open spec fn full_steps(mode: ServerMode) -> Seq<Step> {
    match mode {
        ServerMode::Csr => seq![
            Step::CompileCsr,
            Step::ClearOutDir,
            Step::CreateAssetsDir,
            Step::CollectAssets,
            Step::Bindgen,
            Step::WatchAssets,
        ],
        ServerMode::Ssr => seq![
            Step::CompileHydrate,
            Step::ClearClientAssets,
            Step::Bindgen,
            Step::CompileSsr,
            Step::CollectAssets,
            Step::WatchAssets,
            Step::StopBackend,
            Step::CopyExecutable,
            Step::StartBackend,
        ],
    }
}

/// The steps of `rebuild`, in order.
pub fn rebuild_steps(mode: ServerMode, rebuild: &Rebuild) -> (r: Vec<Step>)
    ensures
        rebuild is IndexHtml ==> r@ == seq![Step::BuildIndexHtml],
        rebuild is Full ==> r@ == full_steps(mode),
        rebuild matches Rebuild::Assets(v) ==> r@.len() == v@.len() && forall|i: int|
            0 <= i < v@.len() ==> #[trigger] r@[i] == Step::RefreshAsset(v@[i]),
{
    match rebuild {
        Rebuild::IndexHtml => vec![Step::BuildIndexHtml],
        Rebuild::Assets(v) => {
            let mut out: Vec<Step> = Vec::new();
            let mut i: usize = 0;
            while i < v.len()
                invariant
                    i <= v@.len(),
                    out@.len() == i,
                    forall|k: int| 0 <= k < i ==> #[trigger] out@[k] == Step::RefreshAsset(v@[k]),
                decreases v@.len() - i,
            {
                out.push(Step::RefreshAsset(v[i]));
                i = i + 1;
            }
            out
        },
        Rebuild::Full => match mode {
            ServerMode::Csr => {
                let r = vec![
                    Step::CompileCsr,
                    Step::ClearOutDir,
                    Step::CreateAssetsDir,
                    Step::CollectAssets,
                    Step::Bindgen,
                    Step::WatchAssets,
                ];
                assert(r@ =~= full_steps(mode));
                r
            },
            ServerMode::Ssr => {
                let r = vec![
                    Step::CompileHydrate,
                    Step::ClearClientAssets,
                    Step::Bindgen,
                    Step::CompileSsr,
                    Step::CollectAssets,
                    Step::WatchAssets,
                    Step::StopBackend,
                    Step::CopyExecutable,
                    Step::StartBackend,
                ];
                assert(r@ =~= full_steps(mode));
                r
            },
        },
    }
}

pub open spec fn is_compile(s: Step) -> bool {
    s == Step::CompileCsr || s == Step::CompileHydrate || s == Step::CompileSsr
}

/// A batch of asset sources alone is rebuilt without compiling, and every
/// asset of the batch is refreshed.
pub proof fn lemma_asset_rebuild_never_compiles(v: Seq<usize>, steps: Seq<Step>)
    requires
        steps.len() == v.len(),
        forall|i: int| 0 <= i < v.len() ==> #[trigger] steps[i] == Step::RefreshAsset(v[i]),
    ensures
        forall|i: int| 0 <= i < steps.len() ==> !is_compile(#[trigger] steps[i]),
        forall|i: int| 0 <= i < v.len() ==> steps.contains(Step::RefreshAsset(#[trigger] v[i])),
{
    assert forall|i: int| 0 <= i < v.len() implies steps.contains(Step::RefreshAsset(#[trigger] v[i])) by {
        assert(steps[i] == Step::RefreshAsset(v[i]));
    }
}

/// In server-side rendering, a full rebuild stops the backend before the new
/// executable is copied into place, and starts it only after that.
pub proof fn lemma_backend_restarted_after_copy()
    ensures
        ({
            let s = full_steps(ServerMode::Ssr);
            &&& s[6] == Step::StopBackend
            &&& s[7] == Step::CopyExecutable
            &&& s[8] == Step::StartBackend
            &&& s.len() == 9
            &&& forall|i: int| 0 <= i < 6 ==> #[trigger] s[i] != Step::StopBackend && s[i] != Step::StartBackend
        }),
{
}

/// Browsers reload after a rebuild exactly when it succeeded.
pub fn should_reload<E>(result: &Result<(), E>) -> (r: bool)
    ensures
        r == result is Ok,
{
    result.is_ok()
}

/// The dev loop's own state: the mode, the project's `index.html` and the
/// assets of the last build.
pub struct DevLoop<O> {
    pub mode: ServerMode,
    pub index_html: String,
    pub assets: Vec<BundledAsset<O>>,
}

impl<O> DevLoop<O> {
    pub fn new(mode: ServerMode, index_html: String, assets: Vec<BundledAsset<O>>) -> (r: DevLoop<O>)
        ensures
            r.mode == mode,
            r.index_html == index_html,
            r.assets@ == assets@,
    {
        DevLoop { mode, index_html, assets }
    }

    /// The rebuild `batch` needs, and its steps.
    pub fn plan(&self, batch: &Vec<String>) -> (r: (Rebuild, Vec<Step>))
        ensures
            r.0 is IndexHtml <==> index_only(self.mode, self.index_html@, batch@),
            r.0 is Assets <==> asset_only(self.mode, self.index_html@, self.assets@, batch@),
            r.0 is Full <==> full_rebuild(self.mode, self.index_html@, self.assets@, batch@),
            r.0 matches Rebuild::Assets(v) ==> v@.len() == batch@.len() && forall|i: int|
                0 <= i < batch@.len() ==> v@[i] as int == source_index(
                    self.assets@,
                    #[trigger] batch@[i]@,
                    0,
                ),
            r.0 is IndexHtml ==> r.1@ == seq![Step::BuildIndexHtml],
            r.0 is Full ==> r.1@ == full_steps(self.mode),
            r.0 matches Rebuild::Assets(v) ==> r.1@.len() == v@.len() && forall|i: int|
                0 <= i < v@.len() ==> #[trigger] r.1@[i] == Step::RefreshAsset(v@[i]),
    {
        let rebuild = classify(self.mode, &self.index_html, self.assets.as_slice(), batch);
        let steps = rebuild_steps(self.mode, &rebuild);
        (rebuild, steps)
    }

    /// Replaces the assets with those of a new build; returns the sources to
    /// stop watching (the old ones) and those to watch (the new ones).
    pub fn watch_assets(&mut self, assets: Vec<BundledAsset<O>>) -> (r: (Vec<String>, Vec<String>))
        ensures
            final(self).mode == old(self).mode,
            final(self).index_html == old(self).index_html,
            final(self).assets@ == assets@,
            r.0@.len() == old(self).assets@.len(),
            forall|i: int|
                0 <= i < r.0@.len() ==> (#[trigger] r.0@[i])@ == old(
                    self,
                ).assets@[i].absolute_source_path@,
            r.1@.len() == assets@.len(),
            forall|i: int|
                0 <= i < r.1@.len() ==> (#[trigger] r.1@[i])@ == assets@[i].absolute_source_path@,
    {
        let unwatch = sources(&self.assets);
        let watch = sources(&assets);
        self.assets = assets;
        (unwatch, watch)
    }
}

/// The source path of each asset, in order.
pub fn sources<O>(assets: &Vec<BundledAsset<O>>) -> (r: Vec<String>)
    ensures
        r@.len() == assets@.len(),
        forall|i: int| 0 <= i < r@.len() ==> (#[trigger] r@[i])@ == assets@[i].absolute_source_path@,
{
    let mut out: Vec<String> = Vec::new();
    let mut i: usize = 0;
    while i < assets.len()
        invariant
            i <= assets@.len(),
            out@.len() == i,
            forall|k: int| 0 <= k < i ==> (#[trigger] out@[k])@ == assets@[k].absolute_source_path@,
        decreases assets@.len() - i,
    {
        out.push(assets[i].absolute_source_path.clone());
        i = i + 1;
    }
    out
}

/// The backend process of server-side rendering: at most one at a time. `H`
/// is whatever the caller keeps to stop it.
pub struct Supervisor<H> {
    running: Option<H>,
}

impl<H> Supervisor<H> {
    /// The backend held, if one runs.
    pub closed spec fn held(&self) -> Option<H> {
        self.running
    }

    pub fn new() -> (r: Supervisor<H>)
        ensures
            r.held() is None,
    {
        Supervisor { running: None }
    }

    pub fn is_running(&self) -> (r: bool)
        ensures
            r == self.held() is Some,
    {
        self.running.is_some()
    }

    /// Records a started backend; only when none runs.
    pub fn start(&mut self, handle: H)
        requires
            old(self).held() is None,
        ensures
            final(self).held() == Some(handle),
    {
        self.running = Some(handle);
    }

    /// Hands back the running backend, to be stopped; none runs afterwards.
    pub fn stop(&mut self) -> (r: Option<H>)
        ensures
            r == old(self).held(),
            final(self).held() is None,
    {
        self.running.take()
    }
}

} // verus!
