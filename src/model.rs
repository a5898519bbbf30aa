//! Model handles: where a model file lives locally, and the decisions of preloading it.

use vstd::prelude::*;

verus! {

/// The ways in which resolving or preloading a model can fail.
#[derive(Debug, PartialEq, Eq)]
pub enum ModelError {
    /// The provided model file name does not exist, or isn't a file.
    FileNotFound(String),
    /// No repository is available for the specified model.
    UnknownModel(ModelKind),
    /// No model kind matches the model name.
    UnknownKind(String),
    /// Checking or fetching from the remote repository failed, with the transport's text.
    API(String),
    /// The model could not be preloaded because a unit of work failed to join.
    JoinError(String),
    /// The model was not preloaded before use.
    NotPreloaded,
    /// The endpoint has no progress channel yet, so it cannot fetch models.
    UnsupportedEndpoint,
}

/// The kinds of models that the server runs.
#[derive(Debug, PartialEq, Eq, Structural, Clone, Copy)]
pub enum ModelKind {
    LLM,
    Whisper,
    ChatFaker,
}

/// The request kind on whose progress channel a download is reported.
#[derive(Debug, PartialEq, Eq, Structural, Clone, Copy)]
pub enum Endpoint {
    ChatCompletions,
    AudioTranscriptions,
    Embeddings,
}

#[derive(Debug, PartialEq, Eq, Structural, Clone, Copy)]
enum ModelQuantization {
    Default,
}

/// The path of the file `name` inside the directory `dir`.
pub uninterp spec fn joined_path(dir: Seq<char>, name: Seq<char>) -> Seq<char>;

/// Relies on `std::path::Path::join`: the path of `name` under `dir`, as text.
#[verifier::external_body]
fn join_path(dir: &str, name: &str) -> (r: String)
    ensures
        r@ == joined_path(dir@, name@),
{
    std::path::Path::new(dir).join(name).to_string_lossy().into_owned()
}

/// A handle on one model file: its identity, where it is cached, and whether it is ready.
#[derive(Debug)]
pub struct Model {
    pub kind: ModelKind,
    quantization: ModelQuantization,
    name: String,
    repo: String,
    dir: String,
    path: String,
    preloaded: bool,
}

impl Model {
    /// The kind of the model.
    pub closed spec fn spec_kind(&self) -> ModelKind {
        self.kind
    }

    /// The file name of the model within its repository.
    pub closed spec fn spec_name(&self) -> Seq<char> {
        self.name@
    }

    /// The remote repository of the model.
    pub closed spec fn spec_repo(&self) -> Seq<char> {
        self.repo@
    }

    /// The local directory under which the model is cached.
    pub closed spec fn spec_dir(&self) -> Seq<char> {
        self.dir@
    }

    /// The resolved local path of the model file.
    pub closed spec fn spec_path(&self) -> Seq<char> {
        self.path@
    }

    /// Whether a preload has succeeded.
    pub closed spec fn spec_preloaded(&self) -> bool {
        self.preloaded
    }

    /// Creates a handle on the model `model_name` of `repo`, cached under `dir`.
    pub fn new(kind: ModelKind, model_name: &str, repo: &str, dir: &str) -> (r: Self)
        ensures
            r.spec_kind() == kind,
            r.spec_name() == model_name@,
            r.spec_repo() == repo@,
            r.spec_dir() == dir@,
            r.spec_path() == joined_path(dir@, model_name@),
            !r.spec_preloaded(),
    {
        let quantization = ModelQuantization::Default;
        let path = join_path(dir, model_name);
        Model {
            kind,
            quantization,
            name: model_name.to_owned(),
            repo: repo.to_owned(),
            dir: dir.to_owned(),
            path,
            preloaded: false,
        }
    }

    /// The file name of the model within its repository.
    pub fn name(&self) -> (r: &str)
        ensures
            r@ == self.spec_name(),
    {
        self.name.as_str()
    }

    /// The remote repository of the model.
    pub fn repo(&self) -> (r: &str)
        ensures
            r@ == self.spec_repo(),
    {
        self.repo.as_str()
    }

    /// The local directory under which the model is cached.
    pub fn dir(&self) -> (r: &str)
        ensures
            r@ == self.spec_dir(),
    {
        self.dir.as_str()
    }

    /// The path that is checked for a local copy before anything is fetched.
    pub fn candidate_path(&self) -> (r: &str)
        ensures
            r@ == self.spec_path(),
    {
        self.path.as_str()
    }

    /// Whether a preload has succeeded.
    pub fn is_preloaded(&self) -> (r: bool)
        ensures
            r == self.spec_preloaded(),
    {
        self.preloaded
    }

    /// Returns the path of the local model file, which is known only once it is preloaded.
    pub fn file_path(&self) -> (r: Result<String, ModelError>)
        ensures
            self.spec_preloaded() ==> (r matches Ok(p) && p@ == self.spec_path()),
            !self.spec_preloaded() ==> r == Err::<String, ModelError>(ModelError::NotPreloaded),
            path_result(*self) == match r {
                Ok(p) => Ok::<Seq<char>, ModelError>(p@),
                Err(e) => Err(e),
            },
    {
        if self.preloaded {
            return Ok(self.path.clone());
        }
        Err(ModelError::NotPreloaded)
    }
}

/// What asking `m` for its local path gives: the path once preloaded, an error before.
pub open spec fn path_result(m: Model) -> Result<Seq<char>, ModelError> {
    if m.spec_preloaded() {
        Ok(m.spec_path())
    } else {
        Err(ModelError::NotPreloaded)
    }
}

/// A freshly constructed handle, never preloaded, yields no path: asking for it fails with
/// `NotPreloaded` whatever the handle's identity.
pub proof fn lemma_fresh_handle_has_no_path(
    m: Model,
    kind: ModelKind,
    name: Seq<char>,
    repo: Seq<char>,
    dir: Seq<char>,
)
    requires
        m.spec_kind() == kind,
        m.spec_name() == name,
        m.spec_repo() == repo,
        m.spec_dir() == dir,
        m.spec_path() == joined_path(dir, name),
        !m.spec_preloaded(),
    ensures
        path_result(m) == Err::<Seq<char>, ModelError>(ModelError::NotPreloaded),
{
}

/// One thing that the fetch unit of a preload does, in order.
#[derive(Debug, PartialEq, Eq, Clone, Copy)]
pub enum FetchStep {
    /// Set the endpoint's "downloading" flag.
    SetDownloading(bool),
    /// Set the endpoint's download progress, in percent.
    SetProgress(u8),
    /// Fetch the model file from its repository.
    Get,
}

/// The steps of the fetch unit: a genuine download is announced before the fetch and
/// closed after it, whatever the fetch returned; a cached file is only looked up.
pub open spec fn fetch_steps(download: bool) -> Seq<FetchStep> {
    if download {
        seq![
            FetchStep::SetDownloading(true),
            FetchStep::Get,
            FetchStep::SetProgress(100),
            FetchStep::SetDownloading(false),
        ]
    } else {
        seq![FetchStep::Get]
    }
}

/// The number of times `x` occurs in `s`.
pub open spec fn occurrences(s: Seq<FetchStep>, x: FetchStep) -> nat
    decreases s.len(),
{
    if s.len() == 0 {
        0
    } else {
        (if s.last() == x {
            1nat
        } else {
            0nat
        }) + occurrences(s.drop_last(), x)
    }
}

/// The steps that the fetch unit runs.
pub fn fetch_unit_steps(download: bool) -> (r: Vec<FetchStep>)
    ensures
        r@ == fetch_steps(download),
{
    let mut v: Vec<FetchStep> = Vec::new();
    if download {
        v.push(FetchStep::SetDownloading(true));
    }
    v.push(FetchStep::Get);
    if download {
        v.push(FetchStep::SetProgress(100));
        v.push(FetchStep::SetDownloading(false));
    }
    assert(v@ =~= fetch_steps(download));
    v
}

/// Across one fetch, the download is announced once and, after the fetch, closed exactly
/// once with full progress; when nothing is downloaded, no progress is reported at all.
pub proof fn lemma_download_closed_once(download: bool)
    ensures
        occurrences(fetch_steps(download), FetchStep::SetDownloading(true)) == (if download {
            1nat
        } else {
            0nat
        }),
        occurrences(fetch_steps(download), FetchStep::SetDownloading(false)) == (if download {
            1nat
        } else {
            0nat
        }),
        occurrences(fetch_steps(download), FetchStep::SetProgress(100)) == (if download {
            1nat
        } else {
            0nat
        }),
        download ==> fetch_steps(download)[0] == FetchStep::SetDownloading(true)
            && fetch_steps(download).last() == FetchStep::SetDownloading(false),
        !download ==> fetch_steps(download) == seq![FetchStep::Get],
{
    reveal_with_fuel(occurrences, 5);
    let s = fetch_steps(download);
    if download {
        assert(s.drop_last() =~= seq![
            FetchStep::SetDownloading(true),
            FetchStep::Get,
            FetchStep::SetProgress(100),
        ]);
        assert(s.drop_last().drop_last() =~= seq![FetchStep::SetDownloading(true), FetchStep::Get]);
        assert(s.drop_last().drop_last().drop_last() =~= seq![FetchStep::SetDownloading(true)]);
        assert(s.drop_last().drop_last().drop_last().drop_last() =~= Seq::<FetchStep>::empty());
    } else {
        assert(s.drop_last() =~= Seq::<FetchStep>::empty());
    }
}

/// Where a preload stands: the answer that it waits for next.
#[derive(Debug, PartialEq, Eq, Structural, Clone, Copy)]
pub enum PreloadPhase {
    /// Whether the resolved local path is a regular file.
    LocalFile,
    /// Whether the client of the remote repository could be built.
    Api,
    /// Whether the repository's local cache already holds the file.
    Cache,
    /// The remote size of the file, if it could be learnt.
    Size,
    /// That progress observation has started.
    Observer,
    /// How the observation and the fetch units ended.
    Join,
    /// Nothing: the preload is over.
    Done,
}

/// What the caller of a preload does next, before it hands back the answer.
#[derive(Debug, PartialEq, Eq)]
pub enum PreloadAction {
    /// Check whether the model's candidate path is a regular file.
    CheckLocalFile,
    /// Build the client of the remote repository, caching under the model's directory.
    BuildApi,
    /// Look the file up in the repository's local cache.
    CheckCache,
    /// Probe the remote size of the file with a zero-length range request.
    ProbeSize,
    /// Start observing progress on the endpoint's channel.
    BeginObservation { size: Option<u64>, download: bool },
    /// Run the steps of `fetch_unit_steps(download)` as a unit of their own, then join it
    /// and the observation unit.
    RunFetch { download: bool },
    /// The preload is over, with this result.
    Finish(Result<(), ModelError>),
}

/// Whether `a` and `b` are handles on the same file at the same resolved path.
pub open spec fn same_identity(a: Model, b: Model) -> bool {
    &&& a.spec_kind() == b.spec_kind()
    &&& a.spec_name() == b.spec_name()
    &&& a.spec_repo() == b.spec_repo()
    &&& a.spec_dir() == b.spec_dir()
}

/// The decisions of one preload of a model, one answer at a time.
pub struct Preload {
    endpoint: Endpoint,
    phase: PreloadPhase,
    download: bool,
}

impl Preload {
    /// The endpoint whose progress channel reports the download.
    pub closed spec fn spec_endpoint(&self) -> Endpoint {
        self.endpoint
    }

    /// The answer that the preload waits for.
    pub closed spec fn spec_phase(&self) -> PreloadPhase {
        self.phase
    }

    /// Whether a genuine download, not a cache hit, is under way.
    pub closed spec fn spec_download(&self) -> bool {
        self.download
    }

    /// Starts a preload for `endpoint`; its first action is `PreloadAction::CheckLocalFile`.
    pub fn new(endpoint: Endpoint) -> (r: Self)
        ensures
            r.spec_endpoint() == endpoint,
            r.spec_phase() == PreloadPhase::LocalFile,
            !r.spec_download(),
    {
        Preload { endpoint, phase: PreloadPhase::LocalFile, download: false }
    }

    /// The answer that the preload waits for.
    pub fn phase(&self) -> (r: PreloadPhase)
        ensures
            r == self.spec_phase(),
    {
        self.phase
    }

    /// Takes whether the candidate path of `model` is a regular file. A local file makes the
    /// model ready at once, with no network access and no progress report; otherwise the
    /// model's identity must be complete before anything is fetched.
    pub fn on_local_file(&mut self, model: &mut Model, exists: bool) -> (r: PreloadAction)
        requires
            old(self).spec_phase() == PreloadPhase::LocalFile,
        ensures
            final(self).spec_endpoint() == old(self).spec_endpoint(),
            same_identity(*final(model), *old(model)),
            final(model).spec_path() == old(model).spec_path(),
            exists ==> r == PreloadAction::Finish(Ok(())) && final(self).spec_phase()
                == PreloadPhase::Done && final(model).spec_preloaded(),
            !exists ==> final(model).spec_preloaded() == old(model).spec_preloaded(),
            !exists && (old(model).spec_name().len() == 0 || old(model).spec_repo().len() == 0)
                ==> r == PreloadAction::Finish(Err(ModelError::UnknownModel(old(model).spec_kind())))
                && final(self).spec_phase() == PreloadPhase::Done,
            !exists && old(model).spec_name().len() != 0 && old(model).spec_repo().len() != 0
                && old(self).spec_endpoint() == Endpoint::Embeddings ==> r
                == PreloadAction::Finish(Err(ModelError::UnsupportedEndpoint))
                && final(self).spec_phase() == PreloadPhase::Done,
            !exists && old(model).spec_name().len() != 0 && old(model).spec_repo().len() != 0
                && old(self).spec_endpoint() != Endpoint::Embeddings ==> r
                == PreloadAction::BuildApi && final(self).spec_phase() == PreloadPhase::Api,
    {
        if exists {
            model.preloaded = true;
            self.phase = PreloadPhase::Done;
            return PreloadAction::Finish(Ok(()));
        }
        if model.name.as_str().is_empty() || model.repo.as_str().is_empty() {
            self.phase = PreloadPhase::Done;
            return PreloadAction::Finish(Err(ModelError::UnknownModel(model.kind)));
        }
        if self.endpoint == Endpoint::Embeddings {
            self.phase = PreloadPhase::Done;
            return PreloadAction::Finish(Err(ModelError::UnsupportedEndpoint));
        }
        self.phase = PreloadPhase::Api;
        PreloadAction::BuildApi
    }

    /// Takes whether the repository client was built, or the text of its error.
    pub fn on_api(&mut self, built: Result<(), String>) -> (r: PreloadAction)
        requires
            old(self).spec_phase() == PreloadPhase::Api,
        ensures
            final(self).spec_endpoint() == old(self).spec_endpoint(),
            match built {
                Ok(()) => r == PreloadAction::CheckCache && final(self).spec_phase()
                    == PreloadPhase::Cache,
                Err(e) => r == PreloadAction::Finish(Err(ModelError::API(e))) && final(self).spec_phase() == PreloadPhase::Done,
            },
    {
        match built {
            Ok(()) => {
                self.phase = PreloadPhase::Cache;
                PreloadAction::CheckCache
            },
            Err(e) => {
                self.phase = PreloadPhase::Done;
                PreloadAction::Finish(Err(ModelError::API(e)))
            },
        }
    }

    /// Takes whether the repository's local cache holds the file: if it does not, the fetch
    /// is a genuine download and its size is probed first.
    pub fn on_cache(&mut self, cached: bool) -> (r: PreloadAction)
        requires
            old(self).spec_phase() == PreloadPhase::Cache,
        ensures
            final(self).spec_endpoint() == old(self).spec_endpoint(),
            final(self).spec_download() == !cached,
            !cached ==> r == PreloadAction::ProbeSize && final(self).spec_phase()
                == PreloadPhase::Size,
            cached ==> r == (PreloadAction::BeginObservation { size: None, download: false })
                && final(self).spec_phase() == PreloadPhase::Observer,
    {
        self.download = !cached;
        if cached {
            self.phase = PreloadPhase::Observer;
            PreloadAction::BeginObservation { size: None, download: false }
        } else {
            self.phase = PreloadPhase::Size;
            PreloadAction::ProbeSize
        }
    }

    /// Takes the remote size of the file, if the probe learnt it; an unknown size is no error.
    pub fn on_size(&mut self, size: Option<u64>) -> (r: PreloadAction)
        requires
            old(self).spec_phase() == PreloadPhase::Size,
        ensures
            final(self).spec_endpoint() == old(self).spec_endpoint(),
            final(self).spec_download() == old(self).spec_download(),
            final(self).spec_phase() == PreloadPhase::Observer,
            r == (PreloadAction::BeginObservation { size: size, download: old(self).spec_download() }),
    {
        self.phase = PreloadPhase::Observer;
        PreloadAction::BeginObservation { size, download: self.download }
    }

    /// Takes the news that observation is live; only then does the fetch begin.
    pub fn on_observer_started(&mut self) -> (r: PreloadAction)
        requires
            old(self).spec_phase() == PreloadPhase::Observer,
        ensures
            final(self).spec_endpoint() == old(self).spec_endpoint(),
            final(self).spec_download() == old(self).spec_download(),
            final(self).spec_phase() == PreloadPhase::Join,
            r == (PreloadAction::RunFetch { download: old(self).spec_download() }),
    {
        self.phase = PreloadPhase::Join;
        PreloadAction::RunFetch { download: self.download }
    }

    /// Takes how the observation unit and the fetch unit ended. A failure to join either
    /// unit is reported before the fetch's own error; a fetched path is adopted.
    pub fn on_joined(
        &mut self,
        model: &mut Model,
        observer: Result<(), String>,
        fetch: Result<Result<String, String>, String>,
    ) -> (r: PreloadAction)
        requires
            old(self).spec_phase() == PreloadPhase::Join,
        ensures
            final(self).spec_endpoint() == old(self).spec_endpoint(),
            final(self).spec_phase() == PreloadPhase::Done,
            same_identity(*final(model), *old(model)),
            match observer {
                Err(e) => r == PreloadAction::Finish(Err(ModelError::JoinError(e)))
                    && *final(model) == *old(model),
                Ok(()) => match fetch {
                    Err(e) => r == PreloadAction::Finish(Err(ModelError::JoinError(e)))
                        && *final(model) == *old(model),
                    Ok(Err(e)) => r == PreloadAction::Finish(Err(ModelError::API(e)))
                        && *final(model) == *old(model),
                    Ok(Ok(p)) => r == PreloadAction::Finish(Ok(())) && final(model).spec_path()
                        == p@ && final(model).spec_preloaded(),
                },
            },
    {
        self.phase = PreloadPhase::Done;
        match observer {
            Err(e) => PreloadAction::Finish(Err(ModelError::JoinError(e))),
            Ok(()) => match fetch {
                Err(e) => PreloadAction::Finish(Err(ModelError::JoinError(e))),
                Ok(Err(e)) => PreloadAction::Finish(Err(ModelError::API(e))),
                Ok(Ok(p)) => {
                    model.path = p;
                    model.preloaded = true;
                    PreloadAction::Finish(Ok(()))
                },
            },
        }
    }
}

} // verus!
