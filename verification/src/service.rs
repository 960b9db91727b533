use crate::catalog::{catalog_of, clone_releases, filter_releases, RawRelease, RawReleaseModel, Release, ReleaseModel};
use crate::flashing::{FlashConfig, FlashResult, FlashResultModel};
use crate::hardware::HardwareType;
use crate::variant::{find_variant_asset, first_match_idx, lemma_first_match_idx_props, variants_in};
use vstd::prelude::*;
use vstd::string::StringExecFns;

verus! {

/// The one current step of the provisioning pipeline. `Idle` is the state
/// before any hardware model has been chosen.
#[derive(Clone, Copy, PartialEq, Eq, Structural, Debug)]
pub enum PipelineStage {
    Idle,
    HardwareChosen,
    CatalogLoading,
    CatalogReady,
    CatalogFailed,
    ReleaseChosen,
    VariantChosen,
    DownloadInFlight,
    DownloadComplete,
    DownloadFailed,
    FlashInFlight,
    FlashComplete,
}

/// The stages at which a filtered catalog is cached.
pub open spec fn stage_has_catalog(s: PipelineStage) -> bool {
    ||| s is CatalogReady
    ||| s is ReleaseChosen
    ||| s is VariantChosen
    ||| s is DownloadInFlight
    ||| s is DownloadComplete
    ||| s is DownloadFailed
    ||| s is FlashInFlight
    ||| s is FlashComplete
}

/// The stages at which a release has been chosen.
pub open spec fn stage_has_release(s: PipelineStage) -> bool {
    ||| s is ReleaseChosen
    ||| s is VariantChosen
    ||| s is DownloadInFlight
    ||| s is DownloadComplete
    ||| s is DownloadFailed
    ||| s is FlashInFlight
    ||| s is FlashComplete
}

/// The stages at which a variant has been chosen.
pub open spec fn stage_has_variant(s: PipelineStage) -> bool {
    ||| s is VariantChosen
    ||| s is DownloadInFlight
    ||| s is DownloadComplete
    ||| s is DownloadFailed
    ||| s is FlashInFlight
    ||| s is FlashComplete
}

/// The stages at which a downloaded firmware path is cached.
pub open spec fn stage_has_path(s: PipelineStage) -> bool {
    ||| s is DownloadComplete
    ||| s is FlashInFlight
    ||| s is FlashComplete
}

/// The stages at which the download percentage is meaningful; everywhere
/// else it is pinned to 0.
pub open spec fn stage_has_percent(s: PipelineStage) -> bool {
    ||| s is DownloadInFlight
    ||| s is DownloadComplete
    ||| s is DownloadFailed
    ||| s is FlashInFlight
    ||| s is FlashComplete
}

/// What a finished catalog fetch reports back: the raw release list, or a
/// failure with its human-readable cause. A closed result channel is
/// reported by the runner as `Failed` with its own cause string.
pub enum FetchMessage {
    Releases(Vec<RawRelease>),
    Failed(String),
}

pub enum FetchMessageModel {
    Releases(Seq<RawReleaseModel>),
    Failed(Seq<char>),
}

impl View for FetchMessage {
    type V = FetchMessageModel;

    open spec fn view(&self) -> FetchMessageModel {
        match self {
            FetchMessage::Releases(raw) => FetchMessageModel::Releases(raw.deep_view()),
            FetchMessage::Failed(cause) => FetchMessageModel::Failed(cause@),
        }
    }
}

/// What a running download reports back: a progress percentage, the final
/// local path, or a failure with its cause.
pub enum DownloadMsg {
    Progress(usize),
    Done(String),
    Error(String),
}

pub enum DownloadMsgModel {
    Progress(int),
    Done(Seq<char>),
    Error(Seq<char>),
}

impl View for DownloadMsg {
    type V = DownloadMsgModel;

    open spec fn view(&self) -> DownloadMsgModel {
        match self {
            DownloadMsg::Progress(p) => DownloadMsgModel::Progress(*p as int),
            DownloadMsg::Done(path) => DownloadMsgModel::Done(path@),
            DownloadMsg::Error(cause) => DownloadMsgModel::Error(cause@),
        }
    }
}

/// A catalog fetch the front end must run in the background: which
/// repository to list, and the tag its eventual result must carry.
pub struct FetchRequest {
    pub repo: String,
    pub generation: u64,
}

#[verifier::ext_equal]
pub struct FetchRequestModel {
    pub repo: Seq<char>,
    pub generation: u64,
}

impl View for FetchRequest {
    type V = FetchRequestModel;

    open spec fn view(&self) -> FetchRequestModel {
        FetchRequestModel { repo: self.repo@, generation: self.generation }
    }
}

/// A download the front end must run in the background: repository, release
/// tag and asset filename, and the tag its messages must carry.
pub struct FirmwareDownloadHandle {
    pub repo: String,
    pub tag: String,
    pub asset: String,
    pub generation: u64,
}

#[verifier::ext_equal]
pub struct DownloadRequestModel {
    pub repo: Seq<char>,
    pub tag: Seq<char>,
    pub asset: Seq<char>,
    pub generation: u64,
}

impl View for FirmwareDownloadHandle {
    type V = DownloadRequestModel;

    open spec fn view(&self) -> DownloadRequestModel {
        DownloadRequestModel {
            repo: self.repo@,
            tag: self.tag@,
            asset: self.asset@,
            generation: self.generation,
        }
    }
}

/// A flash run the front end must start in the background: the firmware to
/// program, and the tag its result must carry.
pub struct FlashRequest {
    pub config: FlashConfig,
    pub generation: u64,
}

#[verifier::ext_equal]
pub struct FlashRequestModel {
    pub firmware_path: Seq<char>,
    pub generation: u64,
}

impl View for FlashRequest {
    type V = FlashRequestModel;

    open spec fn view(&self) -> FlashRequestModel {
        FlashRequestModel { firmware_path: self.config.firmware_path@, generation: self.generation }
    }
}

/// The abstract state of the supervisor: the current selection, the cached
/// results of each stage, and the tag of each operation still in flight.
#[verifier::ext_equal]
pub struct ServiceModel {
    pub hw: Option<HardwareType>,
    pub stage: PipelineStage,
    pub generation: u64,
    pub catalog: Option<Seq<ReleaseModel>>,
    pub loading: bool,
    pub catalog_error: Option<Seq<char>>,
    pub fetch_in_flight: Option<u64>,
    pub chosen_release: Option<int>,
    pub chosen_variant: Option<Seq<char>>,
    pub download_in_flight: Option<u64>,
    pub percent: int,
    pub local_path: Option<Seq<char>>,
    pub download_error: Option<Seq<char>>,
    pub flash_in_flight: Option<u64>,
    pub flash_outcome: Option<FlashResultModel>,
}

impl ServiceModel {
    /// Every cached datum exists exactly at the stages that show it, every
    /// in-flight tag was issued in the past, and the percentage is a real
    /// percentage.
    pub open spec fn inv(self) -> bool {
        &&& (self.hw is Some <==> !(self.stage is Idle))
        &&& (self.fetch_in_flight is Some <==> self.stage is CatalogLoading)
        &&& (self.loading <==> self.stage is CatalogLoading)
        &&& (self.catalog is Some <==> stage_has_catalog(self.stage))
        &&& (self.catalog_error is Some <==> self.stage is CatalogFailed)
        &&& (self.chosen_release is Some <==> stage_has_release(self.stage))
        &&& (self.chosen_release matches Some(i) ==> self.catalog matches Some(c) && 0 <= i
            < c.len())
        &&& (self.chosen_variant is Some <==> stage_has_variant(self.stage))
        &&& (self.chosen_variant matches Some(t) ==> self.chosen_release matches Some(i)
            && self.catalog matches Some(c) && variants_in(c[i].stm32_assets, t))
        &&& (self.download_in_flight is Some <==> self.stage is DownloadInFlight)
        &&& (self.local_path is Some <==> stage_has_path(self.stage))
        &&& (self.download_error is Some <==> self.stage is DownloadFailed)
        &&& (self.flash_in_flight is Some <==> self.stage is FlashInFlight)
        &&& (self.flash_outcome is Some <==> self.stage is FlashComplete)
        &&& 0 <= self.percent <= 100
        &&& (!stage_has_percent(self.stage) ==> self.percent == 0)
        &&& (self.fetch_in_flight matches Some(g) ==> g < self.generation)
        &&& (self.download_in_flight matches Some(g) ==> g < self.generation)
        &&& (self.flash_in_flight matches Some(g) ==> g < self.generation)
    }

    /// The state before anything has happened.
    pub open spec fn init() -> ServiceModel {
        ServiceModel {
            hw: None,
            stage: PipelineStage::Idle,
            generation: 0,
            catalog: None,
            loading: false,
            catalog_error: None,
            fetch_in_flight: None,
            chosen_release: None,
            chosen_variant: None,
            download_in_flight: None,
            percent: 0,
            local_path: None,
            download_error: None,
            flash_in_flight: None,
            flash_outcome: None,
        }
    }

    /// Changing the hardware selection discards every downstream result and
    /// abandons any operation in flight; re-selecting the same hardware is a
    /// no-op.
    pub open spec fn set_hw(self, hw: Option<HardwareType>) -> ServiceModel {
        if hw == self.hw {
            self
        } else {
            ServiceModel {
                hw,
                stage: if hw is Some {
                    PipelineStage::HardwareChosen
                } else {
                    PipelineStage::Idle
                },
                catalog: None,
                loading: false,
                catalog_error: None,
                fetch_in_flight: None,
                chosen_release: None,
                chosen_variant: None,
                download_in_flight: None,
                percent: 0,
                local_path: None,
                download_error: None,
                flash_in_flight: None,
                flash_outcome: None,
                ..self
            }
        }
    }

    /// A poll starts a catalog fetch exactly when a selection is set and no
    /// catalog, error or in-flight fetch exists for it, that is in stage
    /// `HardwareChosen`; the tag counter must not have been exhausted.
    pub open spec fn poll_starts(self) -> bool {
        self.stage is HardwareChosen && self.generation < u64::MAX
    }

    pub open spec fn poll_next(self) -> ServiceModel {
        if self.poll_starts() {
            ServiceModel {
                stage: PipelineStage::CatalogLoading,
                loading: true,
                fetch_in_flight: Some(self.generation),
                generation: (self.generation + 1) as u64,
                ..self
            }
        } else {
            self
        }
    }

    pub open spec fn poll_request(self) -> Option<FetchRequestModel> {
        if self.poll_starts() {
            Some(
                FetchRequestModel {
                    repo: self.hw->Some_0.repo_spec(),
                    generation: self.generation,
                },
            )
        } else {
            None
        }
    }

    /// Apply a finished fetch's message. A message whose tag does not match
    /// the live fetch is stale and is dropped without any effect. A live
    /// success caches the filtered catalog; a live failure caches its cause
    /// string verbatim.
    pub open spec fn apply_fetch(self, tag: u64, msg: FetchMessageModel) -> ServiceModel {
        if self.fetch_in_flight == Some(tag) {
            match msg {
                FetchMessageModel::Releases(raw) => ServiceModel {
                    stage: PipelineStage::CatalogReady,
                    loading: false,
                    fetch_in_flight: None,
                    catalog: Some(catalog_of(raw)),
                    catalog_error: None,
                    ..self
                },
                FetchMessageModel::Failed(cause) => ServiceModel {
                    stage: PipelineStage::CatalogFailed,
                    loading: false,
                    fetch_in_flight: None,
                    catalog: None,
                    catalog_error: Some(cause),
                    ..self
                },
            }
        } else {
            self
        }
    }

    /// A release can be chosen whenever a catalog is cached and the index
    /// names one of its releases.
    pub open spec fn select_release_ok(self, idx: int) -> bool {
        &&& stage_has_catalog(self.stage)
        &&& self.catalog matches Some(c) && 0 <= idx < c.len()
    }

    /// Choosing a release clears every downstream result, download and flash
    /// state included, so nothing stale is ever shown against it.
    pub open spec fn select_release_next(self, idx: int) -> ServiceModel {
        if self.select_release_ok(idx) {
            ServiceModel {
                stage: PipelineStage::ReleaseChosen,
                chosen_release: Some(idx),
                chosen_variant: None,
                download_in_flight: None,
                percent: 0,
                local_path: None,
                download_error: None,
                flash_in_flight: None,
                flash_outcome: None,
                ..self
            }
        } else {
            self
        }
    }

    /// A variant can be chosen once a release is, and only if one of the
    /// release's assets carries that variant tag; an empty variant list
    /// therefore never lets the pipeline advance.
    pub open spec fn select_variant_ok(self, t: Seq<char>) -> bool {
        &&& stage_has_release(self.stage)
        &&& self.catalog matches Some(c)
        &&& self.chosen_release matches Some(i)
        &&& 0 <= i < c.len()
        &&& variants_in(c[i].stm32_assets, t)
    }

    /// Choosing a variant clears every downstream result.
    pub open spec fn select_variant_next(self, t: Seq<char>) -> ServiceModel {
        if self.select_variant_ok(t) {
            ServiceModel {
                stage: PipelineStage::VariantChosen,
                chosen_variant: Some(t),
                download_in_flight: None,
                percent: 0,
                local_path: None,
                download_error: None,
                flash_in_flight: None,
                flash_outcome: None,
                ..self
            }
        } else {
            self
        }
    }

    pub open spec fn start_download_ok(self) -> bool {
        self.stage is VariantChosen && self.generation < u64::MAX
    }

    pub open spec fn start_download_next(self) -> ServiceModel {
        if self.start_download_ok() {
            ServiceModel {
                stage: PipelineStage::DownloadInFlight,
                download_in_flight: Some(self.generation),
                generation: (self.generation + 1) as u64,
                percent: 0,
                ..self
            }
        } else {
            self
        }
    }

    /// The download asked for: the chosen release's first asset carrying the
    /// chosen variant tag.
    pub open spec fn start_download_request(self) -> Option<DownloadRequestModel> {
        if self.start_download_ok() {
            let c = self.catalog->Some_0;
            let rel = c[self.chosen_release->Some_0];
            Some(
                DownloadRequestModel {
                    repo: self.hw->Some_0.repo_spec(),
                    tag: rel.tag_name,
                    asset: rel.stm32_assets[first_match_idx(
                        rel.stm32_assets,
                        self.chosen_variant->Some_0,
                    )],
                    generation: self.generation,
                },
            )
        } else {
            None
        }
    }

    /// Apply one download message. A stale tag is dropped without effect. A
    /// live progress report can only raise the percentage; completion caches
    /// the local path; failure caches its cause verbatim.
    pub open spec fn apply_download(self, tag: u64, msg: DownloadMsgModel) -> ServiceModel {
        if self.download_in_flight == Some(tag) {
            match msg {
                DownloadMsgModel::Progress(p) => ServiceModel {
                    percent: if p > 100 {
                        100
                    } else if p < self.percent {
                        self.percent
                    } else {
                        p
                    },
                    ..self
                },
                DownloadMsgModel::Done(path) => ServiceModel {
                    stage: PipelineStage::DownloadComplete,
                    download_in_flight: None,
                    local_path: Some(path),
                    ..self
                },
                DownloadMsgModel::Error(cause) => ServiceModel {
                    stage: PipelineStage::DownloadFailed,
                    download_in_flight: None,
                    download_error: Some(cause),
                    ..self
                },
            }
        } else {
            self
        }
    }

    pub open spec fn start_flash_ok(self) -> bool {
        self.stage is DownloadComplete && self.generation < u64::MAX
    }

    pub open spec fn start_flash_next(self) -> ServiceModel {
        if self.start_flash_ok() {
            ServiceModel {
                stage: PipelineStage::FlashInFlight,
                flash_in_flight: Some(self.generation),
                generation: (self.generation + 1) as u64,
                ..self
            }
        } else {
            self
        }
    }

    pub open spec fn start_flash_request(self) -> Option<FlashRequestModel> {
        if self.start_flash_ok() {
            Some(
                FlashRequestModel {
                    firmware_path: self.local_path->Some_0,
                    generation: self.generation,
                },
            )
        } else {
            None
        }
    }

    /// Apply a flash run's terminal result; a stale tag is dropped.
    pub open spec fn apply_flash(self, tag: u64, outcome: FlashResultModel) -> ServiceModel {
        if self.flash_in_flight == Some(tag) {
            ServiceModel {
                stage: PipelineStage::FlashComplete,
                flash_in_flight: None,
                flash_outcome: Some(outcome),
                ..self
            }
        } else {
            self
        }
    }
}

/// The supervisor: owns the whole pipeline state, is polled by the render
/// loop without ever blocking, and applies background results handed to it
/// as plain messages.
pub struct FlashReleaseService {
    last_hw_type: Option<HardwareType>,
    stage: PipelineStage,
    generation: u64,
    releases: Option<Vec<Release>>,
    releases_loading: bool,
    releases_error: Option<String>,
    fetch_in_flight: Option<u64>,
    chosen_release: Option<usize>,
    chosen_variant: Option<String>,
    download_in_flight: Option<u64>,
    download_percent: usize,
    download_path: Option<String>,
    download_error: Option<String>,
    flash_in_flight: Option<u64>,
    flash_result: Option<FlashResult>,
}

impl View for FlashReleaseService {
    type V = ServiceModel;

    closed spec fn view(&self) -> ServiceModel {
        ServiceModel {
            hw: self.last_hw_type,
            stage: self.stage,
            generation: self.generation,
            catalog: match self.releases {
                Some(c) => Some(c.deep_view()),
                None => None,
            },
            loading: self.releases_loading,
            catalog_error: match self.releases_error {
                Some(e) => Some(e@),
                None => None,
            },
            fetch_in_flight: self.fetch_in_flight,
            chosen_release: match self.chosen_release {
                Some(i) => Some(i as int),
                None => None,
            },
            chosen_variant: match self.chosen_variant {
                Some(t) => Some(t@),
                None => None,
            },
            download_in_flight: self.download_in_flight,
            percent: self.download_percent as int,
            local_path: match self.download_path {
                Some(p) => Some(p@),
                None => None,
            },
            download_error: match self.download_error {
                Some(e) => Some(e@),
                None => None,
            },
            flash_in_flight: self.flash_in_flight,
            flash_outcome: match self.flash_result {
                Some(r) => Some(r@),
                None => None,
            },
        }
    }
}

impl FlashReleaseService {
    /// A fresh supervisor with nothing selected and nothing in flight.
    pub fn new() -> (s: Self)
        ensures
            s@ == ServiceModel::init(),
            s@.inv(),
    {
        let s = FlashReleaseService {
            last_hw_type: None,
            stage: PipelineStage::Idle,
            generation: 0,
            releases: None,
            releases_loading: false,
            releases_error: None,
            fetch_in_flight: None,
            chosen_release: None,
            chosen_variant: None,
            download_in_flight: None,
            download_percent: 0,
            download_path: None,
            download_error: None,
            flash_in_flight: None,
            flash_result: None,
        };
        proof {
            assert(s@ =~= ServiceModel::init());
        }
        s
    }

    /// Record a new hardware selection; an unchanged selection is a no-op,
    /// a changed one resets the whole pipeline behind it.
    pub fn set_hw_type(&mut self, hw_type: Option<HardwareType>)
        requires
            old(self)@.inv(),
        ensures
            final(self)@ == old(self)@.set_hw(hw_type),
            final(self)@.inv(),
    {
        let same = match (self.last_hw_type, hw_type) {
            (Some(a), Some(b)) => a == b,
            (None, None) => true,
            _ => false,
        };
        if !same {
            self.last_hw_type = hw_type;
            self.stage = match hw_type {
                Some(_) => PipelineStage::HardwareChosen,
                None => PipelineStage::Idle,
            };
            self.releases = None;
            self.releases_loading = false;
            self.releases_error = None;
            self.fetch_in_flight = None;
            self.chosen_release = None;
            self.chosen_variant = None;
            self.download_in_flight = None;
            self.download_percent = 0;
            self.download_path = None;
            self.download_error = None;
            self.flash_in_flight = None;
            self.flash_result = None;
            proof {
                assert(self@ =~= old(self)@.set_hw(hw_type));
            }
        }
    }

    /// One render-frame poll. Exactly when a hardware selection waits for
    /// its catalog, this starts one background fetch: the returned request
    /// must be run and its result handed back through
    /// `apply_fetch_message` under the request's tag. In every other state
    /// the poll changes nothing and starts nothing.
    pub fn poll(&mut self) -> (r: Option<FetchRequest>)
        requires
            old(self)@.inv(),
        ensures
            final(self)@ == old(self)@.poll_next(),
            final(self)@.inv(),
            match r {
                Some(req) => old(self)@.poll_request() == Some(req@),
                None => old(self)@.poll_request() is None,
            },
    {
        if !(self.stage == PipelineStage::HardwareChosen) || self.generation == u64::MAX {
            return None;
        }
        match self.last_hw_type {
            Some(h) => {
                let tag = self.generation;
                self.generation = tag + 1;
                self.stage = PipelineStage::CatalogLoading;
                self.releases_loading = true;
                self.fetch_in_flight = Some(tag);
                let req = FetchRequest { repo: String::from_str(h.repo()), generation: tag };
                proof {
                    assert(self@ =~= old(self)@.poll_next());
                    assert(req@ =~= old(self)@.poll_request()->Some_0);
                }
                Some(req)
            },
            None => {
                proof {
                    assert(false);
                }
                None
            },
        }
    }

    /// Hand a finished catalog fetch's message back, under the tag of the
    /// request that produced it. A stale tag changes nothing; the live
    /// fetch's success caches the filtered catalog, its failure the cause.
    pub fn apply_fetch_message(&mut self, tag: u64, msg: FetchMessage)
        requires
            old(self)@.inv(),
        ensures
            final(self)@ == old(self)@.apply_fetch(tag, msg@),
            final(self)@.inv(),
    {
        let ghost mv = msg@;
        let live = match self.fetch_in_flight {
            Some(g) => g == tag,
            None => false,
        };
        if live {
            self.releases_loading = false;
            self.fetch_in_flight = None;
            match msg {
                FetchMessage::Releases(raw) => {
                    let filtered = filter_releases(&raw);
                    self.releases = Some(filtered);
                    self.releases_error = None;
                    self.stage = PipelineStage::CatalogReady;
                },
                FetchMessage::Failed(cause) => {
                    self.releases = None;
                    self.releases_error = Some(cause);
                    self.stage = PipelineStage::CatalogFailed;
                },
            }
            proof {
                assert(self@ =~= old(self)@.apply_fetch(tag, mv));
            }
        }
    }

    /// Choose one release of the cached catalog by index; succeeds exactly
    /// when the catalog is cached and the index is valid, and then clears
    /// every downstream result.
    pub fn select_release(&mut self, idx: usize) -> (r: bool)
        requires
            old(self)@.inv(),
        ensures
            final(self)@ == old(self)@.select_release_next(idx as int),
            r == old(self)@.select_release_ok(idx as int),
            final(self)@.inv(),
    {
        let ok = match &self.releases {
            Some(c) => idx < c.len(),
            None => false,
        };
        if ok {
            self.stage = PipelineStage::ReleaseChosen;
            self.chosen_release = Some(idx);
            self.chosen_variant = None;
            self.download_in_flight = None;
            self.download_percent = 0;
            self.download_path = None;
            self.download_error = None;
            self.flash_in_flight = None;
            self.flash_result = None;
            proof {
                assert(self@ =~= old(self)@.select_release_next(idx as int));
            }
        }
        ok
    }

    /// Choose a hardware-variant tag for the chosen release; succeeds
    /// exactly when one of its assets carries that tag, and then clears
    /// every downstream result.
    pub fn select_variant(&mut self, variant: String) -> (r: bool)
        requires
            old(self)@.inv(),
        ensures
            final(self)@ == old(self)@.select_variant_next(variant@),
            r == old(self)@.select_variant_ok(variant@),
            final(self)@.inv(),
    {
        let ghost vv = variant@;
        let ok = match (&self.releases, self.chosen_release) {
            (Some(c), Some(i)) => {
                if i < c.len() {
                    let found = find_variant_asset(&c[i].stm32_assets, variant.as_str());
                    proof {
                        lemma_first_match_idx_props(
                            c.deep_view()[i as int].stm32_assets,
                            vv,
                        );
                    }
                    found.is_some()
                } else {
                    false
                }
            },
            _ => false,
        };
        if ok {
            self.stage = PipelineStage::VariantChosen;
            self.chosen_variant = Some(variant);
            self.download_in_flight = None;
            self.download_percent = 0;
            self.download_path = None;
            self.download_error = None;
            self.flash_in_flight = None;
            self.flash_result = None;
            proof {
                assert(self@ =~= old(self)@.select_variant_next(vv));
            }
        }
        ok
    }

    /// Start the download for the chosen release and variant: exactly when
    /// the pipeline stands at `VariantChosen`, the returned handle names
    /// the asset to fetch, and its messages must be handed back through
    /// `apply_download_message` under the handle's tag.
    pub fn start_download(&mut self) -> (r: Option<FirmwareDownloadHandle>)
        requires
            old(self)@.inv(),
        ensures
            final(self)@ == old(self)@.start_download_next(),
            final(self)@.inv(),
            match r {
                Some(handle) => old(self)@.start_download_request() == Some(handle@),
                None => old(self)@.start_download_request() is None,
            },
    {
        if !(self.stage == PipelineStage::VariantChosen) || self.generation == u64::MAX {
            return None;
        }
        let idx: usize = match self.chosen_release {
            Some(i) => i,
            None => {
                proof {
                    assert(false);
                }
                return None;
            },
        };
        let target: (String, String) = match &self.releases {
            Some(c) => {
                if idx < c.len() {
                    let vt: &String = match &self.chosen_variant {
                        Some(t) => t,
                        None => {
                            proof {
                                assert(false);
                            }
                            return None;
                        },
                    };
                    proof {
                        lemma_first_match_idx_props(
                            c.deep_view()[idx as int].stm32_assets,
                            vt@,
                        );
                    }
                    match find_variant_asset(&c[idx].stm32_assets, vt.as_str()) {
                        Some(j) => (c[idx].tag_name.clone(), c[idx].stm32_assets[j].clone()),
                        None => {
                            proof {
                                assert(false);
                            }
                            return None;
                        },
                    }
                } else {
                    proof {
                        assert(false);
                    }
                    return None;
                }
            },
            None => {
                proof {
                    assert(false);
                }
                return None;
            },
        };
        let hw = match self.last_hw_type {
            Some(h) => h,
            None => {
                proof {
                    assert(false);
                }
                return None;
            },
        };
        let tag = self.generation;
        self.generation = tag + 1;
        self.stage = PipelineStage::DownloadInFlight;
        self.download_in_flight = Some(tag);
        self.download_percent = 0;
        let handle = FirmwareDownloadHandle {
            repo: String::from_str(hw.repo()),
            tag: target.0,
            asset: target.1,
            generation: tag,
        };
        proof {
            assert(self@ =~= old(self)@.start_download_next());
            assert(handle@ =~= old(self)@.start_download_request()->Some_0);
        }
        Some(handle)
    }

    /// Hand one download message back, under the tag of the handle that
    /// produced it. A stale tag changes nothing; live progress can only
    /// raise the shown percentage; completion caches the local path;
    /// failure caches its cause.
    pub fn apply_download_message(&mut self, tag: u64, msg: DownloadMsg)
        requires
            old(self)@.inv(),
        ensures
            final(self)@ == old(self)@.apply_download(tag, msg@),
            final(self)@.inv(),
    {
        let ghost mv = msg@;
        let live = match self.download_in_flight {
            Some(g) => g == tag,
            None => false,
        };
        if live {
            match msg {
                DownloadMsg::Progress(p) => {
                    let clamped: usize = if p > 100 {
                        100
                    } else {
                        p
                    };
                    if clamped > self.download_percent {
                        self.download_percent = clamped;
                    }
                },
                DownloadMsg::Done(path) => {
                    self.download_in_flight = None;
                    self.download_path = Some(path);
                    self.stage = PipelineStage::DownloadComplete;
                },
                DownloadMsg::Error(cause) => {
                    self.download_in_flight = None;
                    self.download_error = Some(cause);
                    self.stage = PipelineStage::DownloadFailed;
                },
            }
            proof {
                assert(self@ =~= old(self)@.apply_download(tag, mv));
            }
        }
    }

    /// Start the flash run for the downloaded firmware: exactly when the
    /// pipeline stands at `DownloadComplete`, the returned request names
    /// the local image, and the tool's classified outcome must be handed
    /// back through `apply_flash_message` under the request's tag.
    pub fn start_flash(&mut self) -> (r: Option<FlashRequest>)
        requires
            old(self)@.inv(),
        ensures
            final(self)@ == old(self)@.start_flash_next(),
            final(self)@.inv(),
            match r {
                Some(req) => old(self)@.start_flash_request() == Some(req@),
                None => old(self)@.start_flash_request() is None,
            },
    {
        if !(self.stage == PipelineStage::DownloadComplete) || self.generation == u64::MAX {
            return None;
        }
        let path = match &self.download_path {
            Some(p) => p.clone(),
            None => {
                proof {
                    assert(false);
                }
                return None;
            },
        };
        let tag = self.generation;
        self.generation = tag + 1;
        self.stage = PipelineStage::FlashInFlight;
        self.flash_in_flight = Some(tag);
        let req = FlashRequest { config: FlashConfig { firmware_path: path }, generation: tag };
        proof {
            assert(self@ =~= old(self)@.start_flash_next());
            assert(req@ =~= old(self)@.start_flash_request()->Some_0);
        }
        Some(req)
    }

    /// Hand the flash run's terminal outcome back, under the tag of the
    /// request that produced it. A stale tag changes nothing.
    pub fn apply_flash_message(&mut self, tag: u64, outcome: FlashResult)
        requires
            old(self)@.inv(),
        ensures
            final(self)@ == old(self)@.apply_flash(tag, outcome@),
            final(self)@.inv(),
    {
        let ghost ov = outcome@;
        let live = match self.flash_in_flight {
            Some(g) => g == tag,
            None => false,
        };
        if live {
            self.flash_in_flight = None;
            self.flash_result = Some(outcome);
            self.stage = PipelineStage::FlashComplete;
            proof {
                assert(self@ =~= old(self)@.apply_flash(tag, ov));
            }
        }
    }

    /// A non-blocking read of the catalog stage, as a copy: the cached
    /// releases if any, whether a fetch is loading, and the cached error
    /// string, verbatim, if any.
    pub fn get_state(&self) -> (r: (Option<Vec<Release>>, bool, Option<String>))
        ensures
            match r.0 {
                Some(c) => self@.catalog == Some(c.deep_view()),
                None => self@.catalog is None,
            },
            r.1 == self@.loading,
            match r.2 {
                Some(e) => self@.catalog_error == Some(e@),
                None => self@.catalog_error is None,
            },
    {
        let rel = match &self.releases {
            Some(c) => Some(clone_releases(c)),
            None => None,
        };
        let err = match &self.releases_error {
            Some(e) => Some(e.clone()),
            None => None,
        };
        (rel, self.releases_loading, err)
    }

    /// A non-blocking, copied read of everything the render layer shows.
    pub fn get_snapshot(&self) -> (s: Snapshot)
        ensures
            s.stage == self@.stage,
            match s.releases {
                Some(c) => self@.catalog == Some(c.deep_view()),
                None => self@.catalog is None,
            },
            match s.releases_error {
                Some(e) => self@.catalog_error == Some(e@),
                None => self@.catalog_error is None,
            },
            s.download_percent == self@.percent,
            match s.download_path {
                Some(p) => self@.local_path == Some(p@),
                None => self@.local_path is None,
            },
            match s.download_error {
                Some(e) => self@.download_error == Some(e@),
                None => self@.download_error is None,
            },
            match s.flash_result {
                Some(fr) => self@.flash_outcome == Some(fr@),
                None => self@.flash_outcome is None,
            },
    {
        Snapshot {
            stage: self.stage,
            releases: match &self.releases {
                Some(c) => Some(clone_releases(c)),
                None => None,
            },
            releases_error: match &self.releases_error {
                Some(e) => Some(e.clone()),
                None => None,
            },
            download_percent: self.download_percent,
            download_path: match &self.download_path {
                Some(p) => Some(p.clone()),
                None => None,
            },
            download_error: match &self.download_error {
                Some(e) => Some(e.clone()),
                None => None,
            },
            flash_result: match &self.flash_result {
                Some(fr) => Some(
                    FlashResult { success: fr.success, message: fr.message.clone() },
                ),
                None => None,
            },
        }
    }
}

/// An immutable copy of the state the render layer draws each frame.
pub struct Snapshot {
    pub stage: PipelineStage,
    pub releases: Option<Vec<Release>>,
    pub releases_error: Option<String>,
    pub download_percent: usize,
    pub download_path: Option<String>,
    pub download_error: Option<String>,
    pub flash_result: Option<FlashResult>,
}

/// Supersession. With a fetch in flight for the current selection,
/// switching to a different selection and then delivering the stale fetch's
/// result, under its old tag, changes nothing: in particular the catalog
/// stays empty, whatever the stale result held.
pub proof fn lemma_supersession(
    s: ServiceModel,
    hw: Option<HardwareType>,
    tag: u64,
    msg: FetchMessageModel,
)
    requires
        s.inv(),
        s.fetch_in_flight == Some(tag),
        hw != s.hw,
    ensures
        s.set_hw(hw).apply_fetch(tag, msg) == s.set_hw(hw),
        s.set_hw(hw).catalog is None,
{
}

/// Only a fetch started for the new selection populates the catalog: the
/// request the next poll hands out carries the new repository, and its
/// result, under its own tag, caches exactly the filtered catalog.
pub proof fn lemma_fresh_fetch_populates(s: ServiceModel, raw: Seq<RawReleaseModel>)
    requires
        s.inv(),
        s.stage is HardwareChosen,
        s.generation < u64::MAX,
    ensures
        s.poll_request() matches Some(req) && req.repo == s.hw->Some_0.repo_spec(),
        s.poll_next().apply_fetch(
            s.poll_request()->Some_0.generation,
            FetchMessageModel::Releases(raw),
        ).catalog == Some(catalog_of(raw)),
{
}

/// At most one operation per stage is ever in flight: a poll that starts a
/// fetch leaves a state whose next poll starts nothing and changes nothing,
/// and likewise for starting a download or a flash run.
pub proof fn lemma_at_most_one_in_flight(s: ServiceModel)
    requires
        s.inv(),
    ensures
        s.poll_request() is Some ==> s.poll_next().poll_request() is None,
        s.poll_next().poll_next() == s.poll_next(),
        s.start_download_request() is Some ==> s.start_download_next().start_download_request()
            is None,
        s.start_download_next().start_download_next() == s.start_download_next(),
        s.start_flash_request() is Some ==> s.start_flash_next().start_flash_request() is None,
        s.start_flash_next().start_flash_next() == s.start_flash_next(),
{
}

/// Applied download progress never regresses, whatever message arrives.
pub proof fn lemma_progress_never_regresses(s: ServiceModel, tag: u64, msg: DownloadMsgModel)
    requires
        s.inv(),
    ensures
        s.apply_download(tag, msg).percent >= s.percent,
{
}

} // verus!
