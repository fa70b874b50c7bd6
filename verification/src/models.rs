//! The typed status and metadata payloads, and their extraction from
//! parsed JSON documents.
//!
//! The server's status snapshot is a four-level hierarchy — result,
//! batch, queue, task — that shares one progress-counter record
//! ([`Stats`]) at every level. Extraction is lenient where the payload
//! may vary between server versions: optional members may be absent or
//! `null`, unknown members are ignored, and a `batches` array may be
//! missing entirely. A mandatory member that is absent or of the wrong
//! JSON type fails the whole extraction.

use vstd::prelude::*;

use crate::duration::DurationVal;
use crate::json::{
    j_as_array, j_get, j_is_null, j_is_object, json_of, jview, jviews, opt_array, opt_bool, opt_duration,
    opt_str, parse_json_text, req_array, req_bool, req_str, req_u32, res_matches, spec_opt_arr,
    spec_opt_bool, spec_opt_duration, spec_opt_str, spec_req_arr, spec_req_bool, spec_req_str,
    spec_req_u32, JsonError, JsonErrorV, JsonView,
};

verus! {

/// The four URLs the server publishes for a collection.
#[derive(Debug)]
pub struct Links {
    pub self_: String,
    pub xref_export: String,
    pub reconcile: String,
    pub ui: String,
}

pub struct LinksV {
    pub self_: Seq<char>,
    pub xref_export: Seq<char>,
    pub reconcile: Seq<char>,
    pub ui: Seq<char>,
}

impl DeepView for Links {
    type V = LinksV;

    open spec fn deep_view(&self) -> LinksV {
        LinksV {
            self_: self.self_@,
            xref_export: self.xref_export@,
            reconcile: self.reconcile@,
            ui: self.ui@,
        }
    }
}

/// Descriptive metadata of a job's target dataset; never mutated here.
#[derive(Debug)]
pub struct Collection {
    pub created_at: String,
    pub updated_at: String,
    pub category: String,
    pub frequency: String,
    pub languages: Vec<String>,
    pub name: String,
    pub collection_id: String,
    pub data_updated_at: String,
    pub label: String,
    pub casefile: bool,
    pub secret: bool,
    pub xref: Option<bool>,
    pub restricted: Option<bool>,
    pub contains_ai: Option<bool>,
    pub taggable: bool,
    pub id: String,
    pub writeable: bool,
    pub links: Links,
    pub shallow: bool,
}

pub struct CollectionV {
    pub created_at: Seq<char>,
    pub updated_at: Seq<char>,
    pub category: Seq<char>,
    pub frequency: Seq<char>,
    pub languages: Seq<Seq<char>>,
    pub name: Seq<char>,
    pub collection_id: Seq<char>,
    pub data_updated_at: Seq<char>,
    pub label: Seq<char>,
    pub casefile: bool,
    pub secret: bool,
    pub xref: Option<bool>,
    pub restricted: Option<bool>,
    pub contains_ai: Option<bool>,
    pub taggable: bool,
    pub id: Seq<char>,
    pub writeable: bool,
    pub links: LinksV,
    pub shallow: bool,
}

impl DeepView for Collection {
    type V = CollectionV;

    open spec fn deep_view(&self) -> CollectionV {
        CollectionV {
            created_at: self.created_at@,
            updated_at: self.updated_at@,
            category: self.category@,
            frequency: self.frequency@,
            languages: self.languages.deep_view(),
            name: self.name@,
            collection_id: self.collection_id@,
            data_updated_at: self.data_updated_at@,
            label: self.label@,
            casefile: self.casefile,
            secret: self.secret,
            xref: self.xref,
            restricted: self.restricted,
            contains_ai: self.contains_ai,
            taggable: self.taggable,
            id: self.id@,
            writeable: self.writeable,
            links: self.links.deep_view(),
            shallow: self.shallow,
        }
    }
}

/// One work stage of a job, as some server versions report it.
#[derive(Debug)]
pub struct Stage {
    pub job_id: String,
    pub stage: String,
    pub finished: u32,
    pub running: u32,
    pub pending: u32,
}

pub struct StageV {
    pub job_id: Seq<char>,
    pub stage: Seq<char>,
    pub finished: u32,
    pub running: u32,
    pub pending: u32,
}

impl DeepView for Stage {
    type V = StageV;

    open spec fn deep_view(&self) -> StageV {
        StageV {
            job_id: self.job_id@,
            stage: self.stage@,
            finished: self.finished,
            running: self.running,
            pending: self.pending,
        }
    }
}

/// A wire member that is either one stage object or a list of them,
/// resolved at extraction time by its shape.
#[derive(Debug)]
pub enum StageOrStages {
    Stage(Stage),
    Stages(Vec<Stage>),
}

pub enum StageOrStagesV {
    Stage(StageV),
    Stages(Seq<StageV>),
}

impl DeepView for StageOrStages {
    type V = StageOrStagesV;

    open spec fn deep_view(&self) -> StageOrStagesV {
        match self {
            StageOrStages::Stage(s) => StageOrStagesV::Stage(s.deep_view()),
            StageOrStages::Stages(v) => StageOrStagesV::Stages(v.deep_view()),
        }
    }
}

/// The progress-counter record shared by every level of the hierarchy.
/// The durations come as ISO 8601 strings on the wire; absent means
/// "unknown", never zero.
#[derive(Debug)]
pub struct Stats {
    pub todo: u32,
    pub doing: u32,
    pub succeeded: u32,
    pub failed: u32,
    pub aborted: u32,
    pub aborting: u32,
    pub cancelled: u32,
    pub min_ts: Option<String>,
    pub max_ts: Option<String>,
    pub name: String,
    pub remaining_time: Option<DurationVal>,
    pub took: Option<DurationVal>,
    pub total: u32,
    pub active: u32,
    pub finished: u32,
}

pub struct StatsV {
    pub todo: u32,
    pub doing: u32,
    pub succeeded: u32,
    pub failed: u32,
    pub aborted: u32,
    pub aborting: u32,
    pub cancelled: u32,
    pub min_ts: Option<Seq<char>>,
    pub max_ts: Option<Seq<char>>,
    pub name: Seq<char>,
    pub remaining_time: Option<DurationVal>,
    pub took: Option<DurationVal>,
    pub total: u32,
    pub active: u32,
    pub finished: u32,
}

impl DeepView for Stats {
    type V = StatsV;

    open spec fn deep_view(&self) -> StatsV {
        StatsV {
            todo: self.todo,
            doing: self.doing,
            succeeded: self.succeeded,
            failed: self.failed,
            aborted: self.aborted,
            aborting: self.aborting,
            cancelled: self.cancelled,
            min_ts: self.min_ts.deep_view(),
            max_ts: self.max_ts.deep_view(),
            name: self.name@,
            remaining_time: self.remaining_time,
            took: self.took,
            total: self.total,
            active: self.active,
            finished: self.finished,
        }
    }
}

impl Clone for Stats {
    fn clone(&self) -> (r: Self)
        ensures
            r.deep_view() == self.deep_view(),
    {
        Stats {
            todo: self.todo,
            doing: self.doing,
            succeeded: self.succeeded,
            failed: self.failed,
            aborted: self.aborted,
            aborting: self.aborting,
            cancelled: self.cancelled,
            min_ts: match &self.min_ts {
                Some(s) => Some(s.clone()),
                None => None,
            },
            max_ts: match &self.max_ts {
                Some(s) => Some(s.clone()),
                None => None,
            },
            name: self.name.clone(),
            remaining_time: self.remaining_time,
            took: self.took,
            total: self.total,
            active: self.active,
            finished: self.finished,
        }
    }
}

/// One queue of a batch; its tasks share the counter record.
#[derive(Debug)]
pub struct StatusQueue {
    pub stats: Stats,
    pub tasks: Vec<Stats>,
}

pub struct StatusQueueV {
    pub stats: StatsV,
    pub tasks: Seq<StatsV>,
}

impl DeepView for StatusQueue {
    type V = StatusQueueV;

    open spec fn deep_view(&self) -> StatusQueueV {
        StatusQueueV { stats: self.stats.deep_view(), tasks: self.tasks.deep_view() }
    }
}

/// One batch of a result row.
#[derive(Debug)]
pub struct StatusBatch {
    pub stats: Stats,
    pub queues: Vec<StatusQueue>,
}

pub struct StatusBatchV {
    pub stats: StatsV,
    pub queues: Seq<StatusQueueV>,
}

impl DeepView for StatusBatch {
    type V = StatusBatchV;

    open spec fn deep_view(&self) -> StatusBatchV {
        StatusBatchV { stats: self.stats.deep_view(), queues: self.queues.deep_view() }
    }
}

/// One row of the status snapshot: a job or collection being
/// processed. The counter record sits at the top level of the wire
/// object; `collection` is absent for rows without an associated
/// dataset (a raw export job).
#[derive(Debug)]
pub struct StatusResult {
    pub stats: Stats,
    pub batches: Vec<StatusBatch>,
    pub collection: Option<Collection>,
    pub stages: Option<StageOrStages>,
}

pub struct StatusResultV {
    pub stats: StatsV,
    pub batches: Seq<StatusBatchV>,
    pub collection: Option<CollectionV>,
    pub stages: Option<StageOrStagesV>,
}

impl DeepView for StatusResult {
    type V = StatusResultV;

    open spec fn deep_view(&self) -> StatusResultV {
        StatusResultV {
            stats: self.stats.deep_view(),
            batches: self.batches.deep_view(),
            collection: self.collection.deep_view(),
            stages: self.stages.deep_view(),
        }
    }
}

/// The full snapshot of one poll; replaces the prior snapshot
/// wholesale on every successful fetch.
#[derive(Debug)]
pub struct Status {
    pub results: Vec<StatusResult>,
    pub total: u32,
}

pub struct StatusV {
    pub results: Seq<StatusResultV>,
    pub total: u32,
}

impl DeepView for Status {
    type V = StatusV;

    open spec fn deep_view(&self) -> StatusV {
        StatusV { results: self.results.deep_view(), total: self.total }
    }
}

/// A status snapshot is empty when it lists no rows.
pub open spec fn status_empty(s: Status) -> bool {
    s.results@.len() == 0 && s.total == 0
}

impl Default for Status {
    fn default() -> (r: Status)
        ensures
            status_empty(r),
    {
        Status { results: Vec::new(), total: 0 }
    }
}

/// The server application's description of itself.
#[derive(Debug)]
pub struct MetadataApp {
    pub title: Option<String>,
    pub version: Option<String>,
    pub ftm_version: Option<String>,
}

pub struct MetadataAppV {
    pub title: Option<Seq<char>>,
    pub version: Option<Seq<char>>,
    pub ftm_version: Option<Seq<char>>,
}

impl DeepView for MetadataApp {
    type V = MetadataAppV;

    open spec fn deep_view(&self) -> MetadataAppV {
        MetadataAppV {
            title: self.title.deep_view(),
            version: self.version.deep_view(),
            ftm_version: self.ftm_version.deep_view(),
        }
    }
}

/// The server's metadata snapshot.
#[derive(Debug)]
pub struct Metadata {
    pub status: String,
    pub maintenance: bool,
    pub app: MetadataApp,
}

pub struct MetadataV {
    pub status: Seq<char>,
    pub maintenance: bool,
    pub app: MetadataAppV,
}

impl DeepView for Metadata {
    type V = MetadataV;

    open spec fn deep_view(&self) -> MetadataV {
        MetadataV {
            status: self.status@,
            maintenance: self.maintenance,
            app: self.app.deep_view(),
        }
    }
}

/// A metadata snapshot is empty when every member has its neutral value.
pub open spec fn metadata_empty(m: Metadata) -> bool {
    m.status@.len() == 0 && !m.maintenance && m.app.title is None && m.app.version is None
        && m.app.ftm_version is None
}

impl Default for Metadata {
    fn default() -> (r: Metadata)
        ensures
            metadata_empty(r),
    {
        Metadata {
            status: String::new(),
            maintenance: false,
            app: MetadataApp { title: None, version: None, ftm_version: None },
        }
    }
}

/// The elements of a string-array member, in order.
pub open spec fn spec_str_seq(a: Seq<JsonView>, k: Seq<char>) -> Result<
    Seq<Seq<char>>,
    JsonErrorV,
>
    decreases a.len(),
{
    if a.len() == 0 {
        Ok(Seq::empty())
    } else {
        match a[0] {
            JsonView::Str(s) => match spec_str_seq(a.drop_first(), k) {
                Ok(t) => Ok(seq![s] + t),
                Err(e) => Err(e),
            },
            _ => Err(JsonErrorV::WrongType(k)),
        }
    }
}

fn str_list_from(arr: &Vec<serde_json::Value>, i: usize, k: &str) -> (r: Result<
    Vec<String>,
    JsonError,
>)
    requires
        i <= arr@.len(),
    ensures
        ({
            let views = jviews(arr@).skip(i as int);
            &&& (r matches Ok(xs) ==> spec_str_seq(views, k@) == Ok::<_, JsonErrorV>(
                xs.deep_view(),
            ))
            &&& (r matches Err(e) ==> spec_str_seq(views, k@) == Err::<Seq<Seq<char>>, _>(e@))
        }),
    decreases arr@.len() - i,
{
    let ghost views = jviews(arr@).skip(i as int);
    if i == arr.len() {
        let xs: Vec<String> = Vec::new();
        proof {
            assert(xs.deep_view() =~= Seq::<Seq<char>>::empty());
        }
        return Ok(xs);
    }
    let elem = &arr[i];
    proof {
        assert(views[0] == jview(arr@[i as int]));
    }
    let head = match crate::json::j_as_str(elem) {
        Some(s) => s.to_owned(),
        None => {
            return Err(JsonError::WrongType(k.to_owned()));
        },
    };
    proof {
        assert(views.drop_first() =~= jviews(arr@).skip(i as int + 1));
    }
    let rest = match str_list_from(arr, i + 1, k) {
        Ok(t) => t,
        Err(e) => {
            return Err(e);
        },
    };
    let ghost pre = rest@;
    let mut out = rest;
    out.insert(0, head);
    proof {
        lemma_deep_insert_front(pre, out@, head);
    }
    Ok(out)
}

/// A mandatory string-array member.
pub open spec fn spec_req_str_list(m: Map<Seq<char>, JsonView>, k: Seq<char>) -> Result<
    Seq<Seq<char>>,
    JsonErrorV,
> {
    match spec_req_arr(m, k) {
        Ok(a) => spec_str_seq(a, k),
        Err(e) => Err(e),
    }
}

fn req_str_list(v: &serde_json::Value, k: &str) -> (r: Result<Vec<String>, JsonError>)
    requires
        jview(*v) is Obj,
    ensures
        res_matches(r, spec_req_str_list(jview(*v)->Obj_0, k@)),
{
    let arr = match req_array(v, k) {
        Ok(a) => a,
        Err(e) => {
            return Err(e);
        },
    };
    proof {
        assert(jviews(arr@).skip(0) =~= jviews(arr@));
    }
    str_list_from(arr, 0, k)
}

/// The structure of a `links` member.
pub open spec fn spec_links(j: JsonView) -> Result<LinksV, JsonErrorV> {
    if !(j is Obj) {
        Err(JsonErrorV::NotAnObject)
    } else {
        let m = j->Obj_0;
        let self_r = if m.contains_key("self"@) {
            spec_req_str(m, "self"@)
        } else {
            spec_req_str(m, "self_"@)
        };
        match self_r {
            Err(e) => Err(e),
            Ok(self_) => match spec_req_str(m, "xref_export"@) {
                Err(e) => Err(e),
                Ok(xref_export) => match spec_req_str(m, "reconcile"@) {
                    Err(e) => Err(e),
                    Ok(reconcile) => match spec_req_str(m, "ui"@) {
                        Err(e) => Err(e),
                        Ok(ui) => Ok(LinksV { self_, xref_export, reconcile, ui }),
                    },
                },
            },
        }
    }
}

fn links_from(v: &serde_json::Value) -> (r: Result<Links, JsonError>)
    ensures
        res_matches(r, spec_links(jview(*v))),
{
    if !j_is_object(v) {
        return Err(JsonError::NotAnObject);
    }
    let has_self = j_get(v, "self").is_some();
    let self_ = match (if has_self {
        req_str(v, "self")
    } else {
        req_str(v, "self_")
    }) {
        Ok(x) => x,
        Err(e) => {
            return Err(e);
        },
    };
    let xref_export = match req_str(v, "xref_export") {
        Ok(x) => x,
        Err(e) => {
            return Err(e);
        },
    };
    let reconcile = match req_str(v, "reconcile") {
        Ok(x) => x,
        Err(e) => {
            return Err(e);
        },
    };
    let ui = match req_str(v, "ui") {
        Ok(x) => x,
        Err(e) => {
            return Err(e);
        },
    };
    Ok(Links { self_, xref_export, reconcile, ui })
}

/// The counter record read off one object of the hierarchy.
pub open spec fn spec_stats(m: Map<Seq<char>, JsonView>) -> Result<StatsV, JsonErrorV> {
    match spec_req_u32(m, "todo"@) {
        Err(e) => Err(e),
        Ok(todo) => match spec_req_u32(m, "doing"@) {
            Err(e) => Err(e),
            Ok(doing) => match spec_req_u32(m, "succeeded"@) {
                Err(e) => Err(e),
                Ok(succeeded) => match spec_req_u32(m, "failed"@) {
                    Err(e) => Err(e),
                    Ok(failed) => match spec_req_u32(m, "aborted"@) {
                        Err(e) => Err(e),
                        Ok(aborted) => match spec_req_u32(m, "aborting"@) {
                            Err(e) => Err(e),
                            Ok(aborting) => match spec_req_u32(m, "cancelled"@) {
                                Err(e) => Err(e),
                                Ok(cancelled) => match spec_req_u32(m, "total"@) {
                                    Err(e) => Err(e),
                                    Ok(total) => match spec_req_u32(m, "active"@) {
                                        Err(e) => Err(e),
                                        Ok(active) => match spec_req_u32(m, "finished"@) {
                                            Err(e) => Err(e),
                                            Ok(finished) => match spec_opt_str(m, "min_ts"@) {
                                                Err(e) => Err(e),
                                                Ok(min_ts) => match spec_opt_str(m, "max_ts"@) {
                                                    Err(e) => Err(e),
                                                    Ok(max_ts) => match spec_req_str(m, "name"@) {
                                                        Err(e) => Err(e),
                                                        Ok(name) => match spec_opt_duration(
                                                            m,
                                                            "remaining_time"@,
                                                        ) {
                                                            Err(e) => Err(e),
                                                            Ok(remaining_time) => match spec_opt_duration(
                                                                m,
                                                                "took"@,
                                                            ) {
                                                                Err(e) => Err(e),
                                                                Ok(took) => Ok(
                                                                    StatsV {
                                                                        todo,
                                                                        doing,
                                                                        succeeded,
                                                                        failed,
                                                                        aborted,
                                                                        aborting,
                                                                        cancelled,
                                                                        min_ts,
                                                                        max_ts,
                                                                        name,
                                                                        remaining_time,
                                                                        took,
                                                                        total,
                                                                        active,
                                                                        finished,
                                                                    },
                                                                ),
                                                            },
                                                        },
                                                    },
                                                },
                                            },
                                        },
                                    },
                                },
                            },
                        },
                    },
                },
            },
        },
    }
}

fn stats_from(v: &serde_json::Value) -> (r: Result<Stats, JsonError>)
    requires
        jview(*v) is Obj,
    ensures
        res_matches(r, spec_stats(jview(*v)->Obj_0)),
{
    let todo = match req_u32(v, "todo") {
        Ok(x) => x,
        Err(e) => {
            return Err(e);
        },
    };
    let doing = match req_u32(v, "doing") {
        Ok(x) => x,
        Err(e) => {
            return Err(e);
        },
    };
    let succeeded = match req_u32(v, "succeeded") {
        Ok(x) => x,
        Err(e) => {
            return Err(e);
        },
    };
    let failed = match req_u32(v, "failed") {
        Ok(x) => x,
        Err(e) => {
            return Err(e);
        },
    };
    let aborted = match req_u32(v, "aborted") {
        Ok(x) => x,
        Err(e) => {
            return Err(e);
        },
    };
    let aborting = match req_u32(v, "aborting") {
        Ok(x) => x,
        Err(e) => {
            return Err(e);
        },
    };
    let cancelled = match req_u32(v, "cancelled") {
        Ok(x) => x,
        Err(e) => {
            return Err(e);
        },
    };
    let total = match req_u32(v, "total") {
        Ok(x) => x,
        Err(e) => {
            return Err(e);
        },
    };
    let active = match req_u32(v, "active") {
        Ok(x) => x,
        Err(e) => {
            return Err(e);
        },
    };
    let finished = match req_u32(v, "finished") {
        Ok(x) => x,
        Err(e) => {
            return Err(e);
        },
    };
    let min_ts = match opt_str(v, "min_ts") {
        Ok(x) => x,
        Err(e) => {
            return Err(e);
        },
    };
    let max_ts = match opt_str(v, "max_ts") {
        Ok(x) => x,
        Err(e) => {
            return Err(e);
        },
    };
    let name = match req_str(v, "name") {
        Ok(x) => x,
        Err(e) => {
            return Err(e);
        },
    };
    let remaining_time = match opt_duration(v, "remaining_time") {
        Ok(x) => x,
        Err(e) => {
            return Err(e);
        },
    };
    let took = match opt_duration(v, "took") {
        Ok(x) => x,
        Err(e) => {
            return Err(e);
        },
    };
    Ok(
        Stats {
            todo,
            doing,
            succeeded,
            failed,
            aborted,
            aborting,
            cancelled,
            min_ts,
            max_ts,
            name,
            remaining_time,
            took,
            total,
            active,
            finished,
        },
    )
}

/// The structure of one stage object.
pub open spec fn spec_stage(j: JsonView) -> Result<StageV, JsonErrorV> {
    if !(j is Obj) {
        Err(JsonErrorV::NotAnObject)
    } else {
        let m = j->Obj_0;
        match spec_req_str(m, "job_id"@) {
            Err(e) => Err(e),
            Ok(job_id) => match spec_req_str(m, "stage"@) {
                Err(e) => Err(e),
                Ok(stage) => match spec_req_u32(m, "finished"@) {
                    Err(e) => Err(e),
                    Ok(finished) => match spec_req_u32(m, "running"@) {
                        Err(e) => Err(e),
                        Ok(running) => match spec_req_u32(m, "pending"@) {
                            Err(e) => Err(e),
                            Ok(pending) => Ok(
                                StageV { job_id, stage, finished, running, pending },
                            ),
                        },
                    },
                },
            },
        }
    }
}

fn stage_from(v: &serde_json::Value) -> (r: Result<Stage, JsonError>)
    ensures
        res_matches(r, spec_stage(jview(*v))),
{
    if !j_is_object(v) {
        return Err(JsonError::NotAnObject);
    }
    let job_id = match req_str(v, "job_id") {
        Ok(x) => x,
        Err(e) => {
            return Err(e);
        },
    };
    let stage = match req_str(v, "stage") {
        Ok(x) => x,
        Err(e) => {
            return Err(e);
        },
    };
    let finished = match req_u32(v, "finished") {
        Ok(x) => x,
        Err(e) => {
            return Err(e);
        },
    };
    let running = match req_u32(v, "running") {
        Ok(x) => x,
        Err(e) => {
            return Err(e);
        },
    };
    let pending = match req_u32(v, "pending") {
        Ok(x) => x,
        Err(e) => {
            return Err(e);
        },
    };
    Ok(Stage { job_id, stage, finished, running, pending })
}

/// The elements of a stage-array member, in order.
pub open spec fn spec_stage_seq(a: Seq<JsonView>) -> Result<Seq<StageV>, JsonErrorV>
    decreases a.len(),
{
    if a.len() == 0 {
        Ok(Seq::empty())
    } else {
        match spec_stage(a[0]) {
            Err(e) => Err(e),
            Ok(h) => match spec_stage_seq(a.drop_first()) {
                Ok(t) => Ok(seq![h] + t),
                Err(e) => Err(e),
            },
        }
    }
}

fn stage_list_from(arr: &Vec<serde_json::Value>, i: usize) -> (r: Result<Vec<Stage>, JsonError>)
    requires
        i <= arr@.len(),
    ensures
        ({
            let views = jviews(arr@).skip(i as int);
            &&& (r matches Ok(xs) ==> spec_stage_seq(views) == Ok::<_, JsonErrorV>(
                xs.deep_view(),
            ))
            &&& (r matches Err(e) ==> spec_stage_seq(views) == Err::<Seq<StageV>, _>(e@))
        }),
    decreases arr@.len() - i,
{
    let ghost views = jviews(arr@).skip(i as int);
    if i == arr.len() {
        let xs: Vec<Stage> = Vec::new();
        proof {
            assert(xs.deep_view() =~= Seq::<StageV>::empty());
        }
        return Ok(xs);
    }
    proof {
        assert(views[0] == jview(arr@[i as int]));
        assert(views.drop_first() =~= jviews(arr@).skip(i as int + 1));
    }
    let head = match stage_from(&arr[i]) {
        Ok(h) => h,
        Err(e) => {
            return Err(e);
        },
    };
    let rest = match stage_list_from(arr, i + 1) {
        Ok(t) => t,
        Err(e) => {
            return Err(e);
        },
    };
    let ghost pre = rest@;
    let mut out = rest;
    out.insert(0, head);
    proof {
        lemma_deep_insert_front(pre, out@, head);
    }
    Ok(out)
}

/// A member that is absent, one stage object, or a list of them.
pub open spec fn spec_stage_or_stages(m: Map<Seq<char>, JsonView>, k: Seq<char>) -> Result<
    Option<StageOrStagesV>,
    JsonErrorV,
> {
    if !m.contains_key(k) || m[k] is Null {
        Ok(None)
    } else {
        match m[k] {
            JsonView::Obj(_) => match spec_stage(m[k]) {
                Ok(s) => Ok(Some(StageOrStagesV::Stage(s))),
                Err(e) => Err(e),
            },
            JsonView::Arr(a) => match spec_stage_seq(a) {
                Ok(t) => Ok(Some(StageOrStagesV::Stages(t))),
                Err(e) => Err(e),
            },
            _ => Err(JsonErrorV::WrongType(k)),
        }
    }
}

fn stages_member_from(v: &serde_json::Value, k: &str) -> (r: Result<
    Option<StageOrStages>,
    JsonError,
>)
    requires
        jview(*v) is Obj,
    ensures
        res_matches(r, spec_stage_or_stages(jview(*v)->Obj_0, k@)),
{
    let f = match j_get(v, k) {
        None => {
            return Ok(None);
        },
        Some(f) => f,
    };
    if j_is_null(f) {
        return Ok(None);
    }
    if j_is_object(f) {
        match stage_from(f) {
            Ok(s) => Ok(Some(StageOrStages::Stage(s))),
            Err(e) => Err(e),
        }
    } else {
        match j_as_array(f) {
            Some(a) => {
                proof {
                    assert(jviews(a@).skip(0) =~= jviews(a@));
                }
                match stage_list_from(a, 0) {
                    Ok(t) => Ok(Some(StageOrStages::Stages(t))),
                    Err(e) => Err(e),
                }
            },
            None => Err(JsonError::WrongType(k.to_owned())),
        }
    }
}

/// The structure of a collection object.
pub open spec fn spec_collection(j: JsonView) -> Result<CollectionV, JsonErrorV> {
    if !(j is Obj) {
        Err(JsonErrorV::NotAnObject)
    } else {
        let m = j->Obj_0;
        match spec_req_str(m, "created_at"@) {
            Err(e) => Err(e),
            Ok(created_at) => match spec_req_str(m, "updated_at"@) {
                Err(e) => Err(e),
                Ok(updated_at) => match spec_req_str(m, "category"@) {
                    Err(e) => Err(e),
                    Ok(category) => match spec_req_str(m, "frequency"@) {
                        Err(e) => Err(e),
                        Ok(frequency) => match spec_req_str_list(m, "languages"@) {
                            Err(e) => Err(e),
                            Ok(languages) => match spec_req_str(m, "name"@) {
                                Err(e) => Err(e),
                                Ok(name) => match spec_req_str(m, "collection_id"@) {
                                    Err(e) => Err(e),
                                    Ok(collection_id) => match spec_req_str(
                                        m,
                                        "data_updated_at"@,
                                    ) {
                                        Err(e) => Err(e),
                                        Ok(data_updated_at) => match spec_req_str(m, "label"@) {
                                            Err(e) => Err(e),
                                            Ok(label) => match spec_req_bool(m, "casefile"@) {
                                                Err(e) => Err(e),
                                                Ok(casefile) => match spec_req_bool(m, "secret"@) {
                                                    Err(e) => Err(e),
                                                    Ok(secret) => match spec_opt_bool(m, "xref"@) {
                                                        Err(e) => Err(e),
                                                        Ok(xref) => match spec_opt_bool(
                                                            m,
                                                            "restricted"@,
                                                        ) {
                                                            Err(e) => Err(e),
                                                            Ok(restricted) => match spec_opt_bool(
                                                                m,
                                                                "contains_ai"@,
                                                            ) {
                                                                Err(e) => Err(e),
                                                                Ok(contains_ai) => match spec_req_bool(
                                                                    m,
                                                                    "taggable"@,
                                                                ) {
                                                                    Err(e) => Err(e),
                                                                    Ok(taggable) => match spec_req_str(
                                                                        m,
                                                                        "id"@,
                                                                    ) {
                                                                        Err(e) => Err(e),
                                                                        Ok(id) => match spec_req_bool(
                                                                            m,
                                                                            "writeable"@,
                                                                        ) {
                                                                            Err(e) => Err(e),
                                                                            Ok(writeable) => match (
                                                                            if m.contains_key(
                                                                                "links"@,
                                                                            ) {
                                                                                spec_links(
                                                                                    m["links"@],
                                                                                )
                                                                            } else {
                                                                                Err(
                                                                                    JsonErrorV::MissingField(
                                                                                        "links"@,
                                                                                    ),
                                                                                )
                                                                            }) {
                                                                                Err(e) => Err(e),
                                                                                Ok(links) => match spec_req_bool(
                                                                                    m,
                                                                                    "shallow"@,
                                                                                ) {
                                                                                    Err(e) => Err(
                                                                                        e,
                                                                                    ),
                                                                                    Ok(shallow) => Ok(
                                                                                        CollectionV {
                                                                                            created_at,
                                                                                            updated_at,
                                                                                            category,
                                                                                            frequency,
                                                                                            languages,
                                                                                            name,
                                                                                            collection_id,
                                                                                            data_updated_at,
                                                                                            label,
                                                                                            casefile,
                                                                                            secret,
                                                                                            xref,
                                                                                            restricted,
                                                                                            contains_ai,
                                                                                            taggable,
                                                                                            id,
                                                                                            writeable,
                                                                                            links,
                                                                                            shallow,
                                                                                        },
                                                                                    ),
                                                                                },
                                                                            },
                                                                        },
                                                                    },
                                                                },
                                                            },
                                                        },
                                                    },
                                                },
                                            },
                                        },
                                    },
                                },
                            },
                        },
                    },
                },
            },
        }
    }
}

fn collection_from(v: &serde_json::Value) -> (r: Result<Collection, JsonError>)
    ensures
        res_matches(r, spec_collection(jview(*v))),
{
    if !j_is_object(v) {
        return Err(JsonError::NotAnObject);
    }
    let created_at = match req_str(v, "created_at") {
        Ok(x) => x,
        Err(e) => {
            return Err(e);
        },
    };
    let updated_at = match req_str(v, "updated_at") {
        Ok(x) => x,
        Err(e) => {
            return Err(e);
        },
    };
    let category = match req_str(v, "category") {
        Ok(x) => x,
        Err(e) => {
            return Err(e);
        },
    };
    let frequency = match req_str(v, "frequency") {
        Ok(x) => x,
        Err(e) => {
            return Err(e);
        },
    };
    let languages = match req_str_list(v, "languages") {
        Ok(x) => x,
        Err(e) => {
            return Err(e);
        },
    };
    let name = match req_str(v, "name") {
        Ok(x) => x,
        Err(e) => {
            return Err(e);
        },
    };
    let collection_id = match req_str(v, "collection_id") {
        Ok(x) => x,
        Err(e) => {
            return Err(e);
        },
    };
    let data_updated_at = match req_str(v, "data_updated_at") {
        Ok(x) => x,
        Err(e) => {
            return Err(e);
        },
    };
    let label = match req_str(v, "label") {
        Ok(x) => x,
        Err(e) => {
            return Err(e);
        },
    };
    let casefile = match req_bool(v, "casefile") {
        Ok(x) => x,
        Err(e) => {
            return Err(e);
        },
    };
    let secret = match req_bool(v, "secret") {
        Ok(x) => x,
        Err(e) => {
            return Err(e);
        },
    };
    let xref = match opt_bool(v, "xref") {
        Ok(x) => x,
        Err(e) => {
            return Err(e);
        },
    };
    let restricted = match opt_bool(v, "restricted") {
        Ok(x) => x,
        Err(e) => {
            return Err(e);
        },
    };
    let contains_ai = match opt_bool(v, "contains_ai") {
        Ok(x) => x,
        Err(e) => {
            return Err(e);
        },
    };
    let taggable = match req_bool(v, "taggable") {
        Ok(x) => x,
        Err(e) => {
            return Err(e);
        },
    };
    let id = match req_str(v, "id") {
        Ok(x) => x,
        Err(e) => {
            return Err(e);
        },
    };
    let writeable = match req_bool(v, "writeable") {
        Ok(x) => x,
        Err(e) => {
            return Err(e);
        },
    };
    let links = match (match j_get(v, "links") {
        None => Err(JsonError::MissingField("links".to_owned())),
        Some(f) => links_from(f),
    }) {
        Ok(x) => x,
        Err(e) => {
            return Err(e);
        },
    };
    let shallow = match req_bool(v, "shallow") {
        Ok(x) => x,
        Err(e) => {
            return Err(e);
        },
    };
    Ok(
        Collection {
            created_at,
            updated_at,
            category,
            frequency,
            languages,
            name,
            collection_id,
            data_updated_at,
            label,
            casefile,
            secret,
            xref,
            restricted,
            contains_ai,
            taggable,
            id,
            writeable,
            links,
            shallow,
        },
    )
}

/// An optional collection member: absent or `null` means the row has
/// no associated dataset.
pub open spec fn spec_opt_collection(m: Map<Seq<char>, JsonView>, k: Seq<char>) -> Result<
    Option<CollectionV>,
    JsonErrorV,
> {
    if !m.contains_key(k) || m[k] is Null {
        Ok(None)
    } else {
        match spec_collection(m[k]) {
            Ok(c) => Ok(Some(c)),
            Err(e) => Err(e),
        }
    }
}

fn opt_collection_from(v: &serde_json::Value, k: &str) -> (r: Result<
    Option<Collection>,
    JsonError,
>)
    requires
        jview(*v) is Obj,
    ensures
        res_matches(r, spec_opt_collection(jview(*v)->Obj_0, k@)),
{
    let f = match j_get(v, k) {
        None => {
            return Ok(None);
        },
        Some(f) => f,
    };
    if j_is_null(f) {
        return Ok(None);
    }
    match collection_from(f) {
        Ok(c) => Ok(Some(c)),
        Err(e) => Err(e),
    }
}

/// One task: a bare counter record.
pub open spec fn spec_task(j: JsonView) -> Result<StatsV, JsonErrorV> {
    if !(j is Obj) {
        Err(JsonErrorV::NotAnObject)
    } else {
        spec_stats(j->Obj_0)
    }
}

fn task_from(v: &serde_json::Value) -> (r: Result<Stats, JsonError>)
    ensures
        res_matches(r, spec_task(jview(*v))),
{
    if !j_is_object(v) {
        return Err(JsonError::NotAnObject);
    }
    stats_from(v)
}

pub open spec fn spec_task_seq(a: Seq<JsonView>) -> Result<Seq<StatsV>, JsonErrorV>
    decreases a.len(),
{
    if a.len() == 0 {
        Ok(Seq::empty())
    } else {
        match spec_task(a[0]) {
            Err(e) => Err(e),
            Ok(h) => match spec_task_seq(a.drop_first()) {
                Ok(t) => Ok(seq![h] + t),
                Err(e) => Err(e),
            },
        }
    }
}

fn task_list_from(arr: &Vec<serde_json::Value>, i: usize) -> (r: Result<Vec<Stats>, JsonError>)
    requires
        i <= arr@.len(),
    ensures
        ({
            let views = jviews(arr@).skip(i as int);
            &&& (r matches Ok(xs) ==> spec_task_seq(views) == Ok::<_, JsonErrorV>(
                xs.deep_view(),
            ))
            &&& (r matches Err(e) ==> spec_task_seq(views) == Err::<Seq<StatsV>, _>(e@))
        }),
    decreases arr@.len() - i,
{
    let ghost views = jviews(arr@).skip(i as int);
    if i == arr.len() {
        let xs: Vec<Stats> = Vec::new();
        proof {
            assert(xs.deep_view() =~= Seq::<StatsV>::empty());
        }
        return Ok(xs);
    }
    proof {
        assert(views[0] == jview(arr@[i as int]));
        assert(views.drop_first() =~= jviews(arr@).skip(i as int + 1));
    }
    let head = match task_from(&arr[i]) {
        Ok(h) => h,
        Err(e) => {
            return Err(e);
        },
    };
    let rest = match task_list_from(arr, i + 1) {
        Ok(t) => t,
        Err(e) => {
            return Err(e);
        },
    };
    let ghost pre = rest@;
    let mut out = rest;
    out.insert(0, head);
    proof {
        lemma_deep_insert_front(pre, out@, head);
    }
    Ok(out)
}

/// One queue: its counter record plus its tasks; a missing or `null`
/// task list counts as empty.
pub open spec fn spec_queue(j: JsonView) -> Result<StatusQueueV, JsonErrorV> {
    if !(j is Obj) {
        Err(JsonErrorV::NotAnObject)
    } else {
        let m = j->Obj_0;
        match spec_stats(m) {
            Err(e) => Err(e),
            Ok(stats) => match spec_opt_arr(m, "tasks"@) {
                Err(e) => Err(e),
                Ok(a) => match spec_task_seq(a) {
                    Err(e) => Err(e),
                    Ok(tasks) => Ok(StatusQueueV { stats, tasks }),
                },
            },
        }
    }
}

fn queue_from(v: &serde_json::Value) -> (r: Result<StatusQueue, JsonError>)
    ensures
        res_matches(r, spec_queue(jview(*v))),
{
    if !j_is_object(v) {
        return Err(JsonError::NotAnObject);
    }
    let stats = match stats_from(v) {
        Ok(x) => x,
        Err(e) => {
            return Err(e);
        },
    };
    let tasks = match (match opt_array(v, "tasks") {
        Ok(Some(a)) => {
            proof {
                assert(jviews(a@).skip(0) =~= jviews(a@));
            }
            task_list_from(a, 0)
        },
        Ok(None) => {
            let xs: Vec<Stats> = Vec::new();
            proof {
                assert(xs.deep_view() =~= Seq::<StatsV>::empty());
            }
            Ok(xs)
        },
        Err(e) => Err(e),
    }) {
        Ok(x) => x,
        Err(e) => {
            return Err(e);
        },
    };
    Ok(StatusQueue { stats, tasks })
}

pub open spec fn spec_queue_seq(a: Seq<JsonView>) -> Result<Seq<StatusQueueV>, JsonErrorV>
    decreases a.len(),
{
    if a.len() == 0 {
        Ok(Seq::empty())
    } else {
        match spec_queue(a[0]) {
            Err(e) => Err(e),
            Ok(h) => match spec_queue_seq(a.drop_first()) {
                Ok(t) => Ok(seq![h] + t),
                Err(e) => Err(e),
            },
        }
    }
}

fn queue_list_from(arr: &Vec<serde_json::Value>, i: usize) -> (r: Result<
    Vec<StatusQueue>,
    JsonError,
>)
    requires
        i <= arr@.len(),
    ensures
        ({
            let views = jviews(arr@).skip(i as int);
            &&& (r matches Ok(xs) ==> spec_queue_seq(views) == Ok::<_, JsonErrorV>(
                xs.deep_view(),
            ))
            &&& (r matches Err(e) ==> spec_queue_seq(views) == Err::<Seq<StatusQueueV>, _>(e@))
        }),
    decreases arr@.len() - i,
{
    let ghost views = jviews(arr@).skip(i as int);
    if i == arr.len() {
        let xs: Vec<StatusQueue> = Vec::new();
        proof {
            assert(xs.deep_view() =~= Seq::<StatusQueueV>::empty());
        }
        return Ok(xs);
    }
    proof {
        assert(views[0] == jview(arr@[i as int]));
        assert(views.drop_first() =~= jviews(arr@).skip(i as int + 1));
    }
    let head = match queue_from(&arr[i]) {
        Ok(h) => h,
        Err(e) => {
            return Err(e);
        },
    };
    let rest = match queue_list_from(arr, i + 1) {
        Ok(t) => t,
        Err(e) => {
            return Err(e);
        },
    };
    let ghost pre = rest@;
    let mut out = rest;
    out.insert(0, head);
    proof {
        lemma_deep_insert_front(pre, out@, head);
    }
    Ok(out)
}

/// One batch: its counter record plus its queues; a missing or `null`
/// queue list counts as empty.
pub open spec fn spec_batch(j: JsonView) -> Result<StatusBatchV, JsonErrorV> {
    if !(j is Obj) {
        Err(JsonErrorV::NotAnObject)
    } else {
        let m = j->Obj_0;
        match spec_stats(m) {
            Err(e) => Err(e),
            Ok(stats) => match spec_opt_arr(m, "queues"@) {
                Err(e) => Err(e),
                Ok(a) => match spec_queue_seq(a) {
                    Err(e) => Err(e),
                    Ok(queues) => Ok(StatusBatchV { stats, queues }),
                },
            },
        }
    }
}

fn batch_from(v: &serde_json::Value) -> (r: Result<StatusBatch, JsonError>)
    ensures
        res_matches(r, spec_batch(jview(*v))),
{
    if !j_is_object(v) {
        return Err(JsonError::NotAnObject);
    }
    let stats = match stats_from(v) {
        Ok(x) => x,
        Err(e) => {
            return Err(e);
        },
    };
    let queues = match (match opt_array(v, "queues") {
        Ok(Some(a)) => {
            proof {
                assert(jviews(a@).skip(0) =~= jviews(a@));
            }
            queue_list_from(a, 0)
        },
        Ok(None) => {
            let xs: Vec<StatusQueue> = Vec::new();
            proof {
                assert(xs.deep_view() =~= Seq::<StatusQueueV>::empty());
            }
            Ok(xs)
        },
        Err(e) => Err(e),
    }) {
        Ok(x) => x,
        Err(e) => {
            return Err(e);
        },
    };
    Ok(StatusBatch { stats, queues })
}

pub open spec fn spec_batch_seq(a: Seq<JsonView>) -> Result<Seq<StatusBatchV>, JsonErrorV>
    decreases a.len(),
{
    if a.len() == 0 {
        Ok(Seq::empty())
    } else {
        match spec_batch(a[0]) {
            Err(e) => Err(e),
            Ok(h) => match spec_batch_seq(a.drop_first()) {
                Ok(t) => Ok(seq![h] + t),
                Err(e) => Err(e),
            },
        }
    }
}

fn batch_list_from(arr: &Vec<serde_json::Value>, i: usize) -> (r: Result<
    Vec<StatusBatch>,
    JsonError,
>)
    requires
        i <= arr@.len(),
    ensures
        ({
            let views = jviews(arr@).skip(i as int);
            &&& (r matches Ok(xs) ==> spec_batch_seq(views) == Ok::<_, JsonErrorV>(
                xs.deep_view(),
            ))
            &&& (r matches Err(e) ==> spec_batch_seq(views) == Err::<Seq<StatusBatchV>, _>(e@))
        }),
    decreases arr@.len() - i,
{
    let ghost views = jviews(arr@).skip(i as int);
    if i == arr.len() {
        let xs: Vec<StatusBatch> = Vec::new();
        proof {
            assert(xs.deep_view() =~= Seq::<StatusBatchV>::empty());
        }
        return Ok(xs);
    }
    proof {
        assert(views[0] == jview(arr@[i as int]));
        assert(views.drop_first() =~= jviews(arr@).skip(i as int + 1));
    }
    let head = match batch_from(&arr[i]) {
        Ok(h) => h,
        Err(e) => {
            return Err(e);
        },
    };
    let rest = match batch_list_from(arr, i + 1) {
        Ok(t) => t,
        Err(e) => {
            return Err(e);
        },
    };
    let ghost pre = rest@;
    let mut out = rest;
    out.insert(0, head);
    proof {
        lemma_deep_insert_front(pre, out@, head);
    }
    Ok(out)
}

/// One result row: the counter record at the top level of the object,
/// plus batches, an optional collection, and the optional stage member.
pub open spec fn spec_status_result(j: JsonView) -> Result<StatusResultV, JsonErrorV> {
    if !(j is Obj) {
        Err(JsonErrorV::NotAnObject)
    } else {
        let m = j->Obj_0;
        match spec_stats(m) {
            Err(e) => Err(e),
            Ok(stats) => match spec_opt_arr(m, "batches"@) {
                Err(e) => Err(e),
                Ok(a) => match spec_batch_seq(a) {
                    Err(e) => Err(e),
                    Ok(batches) => match spec_opt_collection(m, "collection"@) {
                        Err(e) => Err(e),
                        Ok(collection) => match spec_stage_or_stages(m, "stages"@) {
                            Err(e) => Err(e),
                            Ok(stages) => Ok(
                                StatusResultV { stats, batches, collection, stages },
                            ),
                        },
                    },
                },
            },
        }
    }
}

fn status_result_from(v: &serde_json::Value) -> (r: Result<StatusResult, JsonError>)
    ensures
        res_matches(r, spec_status_result(jview(*v))),
{
    if !j_is_object(v) {
        return Err(JsonError::NotAnObject);
    }
    let stats = match stats_from(v) {
        Ok(x) => x,
        Err(e) => {
            return Err(e);
        },
    };
    let batches = match (match opt_array(v, "batches") {
        Ok(Some(a)) => {
            proof {
                assert(jviews(a@).skip(0) =~= jviews(a@));
            }
            batch_list_from(a, 0)
        },
        Ok(None) => {
            let xs: Vec<StatusBatch> = Vec::new();
            proof {
                assert(xs.deep_view() =~= Seq::<StatusBatchV>::empty());
            }
            Ok(xs)
        },
        Err(e) => Err(e),
    }) {
        Ok(x) => x,
        Err(e) => {
            return Err(e);
        },
    };
    let collection = match opt_collection_from(v, "collection") {
        Ok(x) => x,
        Err(e) => {
            return Err(e);
        },
    };
    let stages = match stages_member_from(v, "stages") {
        Ok(x) => x,
        Err(e) => {
            return Err(e);
        },
    };
    Ok(StatusResult { stats, batches, collection, stages })
}

pub open spec fn spec_result_seq(a: Seq<JsonView>) -> Result<Seq<StatusResultV>, JsonErrorV>
    decreases a.len(),
{
    if a.len() == 0 {
        Ok(Seq::empty())
    } else {
        match spec_status_result(a[0]) {
            Err(e) => Err(e),
            Ok(h) => match spec_result_seq(a.drop_first()) {
                Ok(t) => Ok(seq![h] + t),
                Err(e) => Err(e),
            },
        }
    }
}

fn result_list_from(arr: &Vec<serde_json::Value>, i: usize) -> (r: Result<
    Vec<StatusResult>,
    JsonError,
>)
    requires
        i <= arr@.len(),
    ensures
        ({
            let views = jviews(arr@).skip(i as int);
            &&& (r matches Ok(xs) ==> spec_result_seq(views) == Ok::<_, JsonErrorV>(
                xs.deep_view(),
            ))
            &&& (r matches Err(e) ==> spec_result_seq(views) == Err::<Seq<StatusResultV>, _>(e@))
        }),
    decreases arr@.len() - i,
{
    let ghost views = jviews(arr@).skip(i as int);
    if i == arr.len() {
        let xs: Vec<StatusResult> = Vec::new();
        proof {
            assert(xs.deep_view() =~= Seq::<StatusResultV>::empty());
        }
        return Ok(xs);
    }
    proof {
        assert(views[0] == jview(arr@[i as int]));
        assert(views.drop_first() =~= jviews(arr@).skip(i as int + 1));
    }
    let head = match status_result_from(&arr[i]) {
        Ok(h) => h,
        Err(e) => {
            return Err(e);
        },
    };
    let rest = match result_list_from(arr, i + 1) {
        Ok(t) => t,
        Err(e) => {
            return Err(e);
        },
    };
    let ghost pre = rest@;
    let mut out = rest;
    out.insert(0, head);
    proof {
        lemma_deep_insert_front(pre, out@, head);
    }
    Ok(out)
}

/// The structure of the status snapshot: a mandatory `results` array
/// and a mandatory `total` counter.
pub open spec fn spec_status(j: JsonView) -> Result<StatusV, JsonErrorV> {
    if !(j is Obj) {
        Err(JsonErrorV::NotAnObject)
    } else {
        let m = j->Obj_0;
        match spec_req_arr(m, "results"@) {
            Err(e) => Err(e),
            Ok(a) => match spec_result_seq(a) {
                Err(e) => Err(e),
                Ok(results) => match spec_req_u32(m, "total"@) {
                    Err(e) => Err(e),
                    Ok(total) => Ok(StatusV { results, total }),
                },
            },
        }
    }
}

/// Extracts a status snapshot from a parsed document.
pub fn status_from_json(v: &serde_json::Value) -> (r: Result<Status, JsonError>)
    ensures
        res_matches(r, spec_status(jview(*v))),
{
    if !j_is_object(v) {
        return Err(JsonError::NotAnObject);
    }
    let results = match (match req_array(v, "results") {
        Ok(a) => {
            proof {
                assert(jviews(a@).skip(0) =~= jviews(a@));
            }
            result_list_from(a, 0)
        },
        Err(e) => Err(e),
    }) {
        Ok(x) => x,
        Err(e) => {
            return Err(e);
        },
    };
    let total = match req_u32(v, "total") {
        Ok(x) => x,
        Err(e) => {
            return Err(e);
        },
    };
    Ok(Status { results, total })
}

/// The structure of the `app` member of the metadata snapshot.
pub open spec fn spec_metadata_app(j: JsonView) -> Result<MetadataAppV, JsonErrorV> {
    if !(j is Obj) {
        Err(JsonErrorV::NotAnObject)
    } else {
        let m = j->Obj_0;
        match spec_opt_str(m, "title"@) {
            Err(e) => Err(e),
            Ok(title) => match spec_opt_str(m, "version"@) {
                Err(e) => Err(e),
                Ok(version) => match spec_opt_str(m, "ftm_version"@) {
                    Err(e) => Err(e),
                    Ok(ftm_version) => Ok(MetadataAppV { title, version, ftm_version }),
                },
            },
        }
    }
}

fn metadata_app_from(v: &serde_json::Value) -> (r: Result<MetadataApp, JsonError>)
    ensures
        res_matches(r, spec_metadata_app(jview(*v))),
{
    if !j_is_object(v) {
        return Err(JsonError::NotAnObject);
    }
    let title = match opt_str(v, "title") {
        Ok(x) => x,
        Err(e) => {
            return Err(e);
        },
    };
    let version = match opt_str(v, "version") {
        Ok(x) => x,
        Err(e) => {
            return Err(e);
        },
    };
    let ftm_version = match opt_str(v, "ftm_version") {
        Ok(x) => x,
        Err(e) => {
            return Err(e);
        },
    };
    Ok(MetadataApp { title, version, ftm_version })
}

/// The structure of the metadata snapshot.
pub open spec fn spec_metadata(j: JsonView) -> Result<MetadataV, JsonErrorV> {
    if !(j is Obj) {
        Err(JsonErrorV::NotAnObject)
    } else {
        let m = j->Obj_0;
        match spec_req_str(m, "status"@) {
            Err(e) => Err(e),
            Ok(status) => match spec_req_bool(m, "maintenance"@) {
                Err(e) => Err(e),
                Ok(maintenance) => match (if m.contains_key("app"@) {
                    spec_metadata_app(m["app"@])
                } else {
                    Err(JsonErrorV::MissingField("app"@))
                }) {
                    Err(e) => Err(e),
                    Ok(app) => Ok(MetadataV { status, maintenance, app }),
                },
            },
        }
    }
}

/// Extracts a metadata snapshot from a parsed document.
pub fn metadata_from_json(v: &serde_json::Value) -> (r: Result<Metadata, JsonError>)
    ensures
        res_matches(r, spec_metadata(jview(*v))),
{
    if !j_is_object(v) {
        return Err(JsonError::NotAnObject);
    }
    let status = match req_str(v, "status") {
        Ok(x) => x,
        Err(e) => {
            return Err(e);
        },
    };
    let maintenance = match req_bool(v, "maintenance") {
        Ok(x) => x,
        Err(e) => {
            return Err(e);
        },
    };
    let app = match (match j_get(v, "app") {
        None => Err(JsonError::MissingField("app".to_owned())),
        Some(f) => metadata_app_from(f),
    }) {
        Ok(x) => x,
        Err(e) => {
            return Err(e);
        },
    };
    Ok(Metadata { status, maintenance, app })
}

/// The tasks of a queue sequence, in order.
pub open spec fn spec_queue_tasks(queues: Seq<StatusQueueV>) -> Seq<StatsV>
    decreases queues.len(),
{
    if queues.len() == 0 {
        Seq::empty()
    } else {
        queues[0].tasks + spec_queue_tasks(queues.drop_first())
    }
}

/// The tasks of a batch sequence, in order.
pub open spec fn spec_batch_tasks(batches: Seq<StatusBatchV>) -> Seq<StatsV>
    decreases batches.len(),
{
    if batches.len() == 0 {
        Seq::empty()
    } else {
        spec_queue_tasks(batches[0].queues) + spec_batch_tasks(batches.drop_first())
    }
}

/// Every task of one result row, its batch-queue-task hierarchy
/// flattened in order: what the row's detail view tabulates.
pub open spec fn spec_result_tasks(r: StatusResultV) -> Seq<StatsV> {
    spec_batch_tasks(r.batches)
}

/// Flattens one row's hierarchy into a single task-level table.
pub fn flattened_tasks(r: &StatusResult) -> (out: Vec<Stats>)
    ensures
        out.deep_view() == spec_result_tasks(r.deep_view()),
{
    let mut out: Vec<Stats> = Vec::new();
    proof {
        assert(out.deep_view() =~= Seq::<StatsV>::empty());
        assert(r.deep_view().batches.skip(0) =~= r.deep_view().batches);
    }
    let mut b: usize = 0;
    while b < r.batches.len()
        invariant
            b <= r.batches@.len(),
            spec_batch_tasks(r.deep_view().batches) =~= out.deep_view() + spec_batch_tasks(
                r.deep_view().batches.skip(b as int),
            ),
        decreases r.batches@.len() - b,
    {
        let ghost batches_v = r.deep_view().batches;
        let batch = &r.batches[b];
        proof {
            assert(batches_v.skip(b as int)[0] == r.batches@[b as int].deep_view());
            assert(batches_v.skip(b as int).drop_first() =~= batches_v.skip(b as int + 1));
            assert(spec_batch_tasks(batches_v.skip(b as int)) =~= spec_queue_tasks(
                batch.deep_view().queues,
            ) + spec_batch_tasks(batches_v.skip(b as int + 1)));
            assert(batch.deep_view().queues.skip(0) =~= batch.deep_view().queues);
        }
        let mut q: usize = 0;
        while q < batch.queues.len()
            invariant
                q <= batch.queues@.len(),
                batch.deep_view() == r.deep_view().batches[b as int],
                b < r.batches@.len(),
                spec_batch_tasks(r.deep_view().batches) =~= out.deep_view() + spec_queue_tasks(
                    batch.deep_view().queues.skip(q as int),
                ) + spec_batch_tasks(r.deep_view().batches.skip(b as int + 1)),
            decreases batch.queues@.len() - q,
        {
            let ghost queues_v = batch.deep_view().queues;
            let queue = &batch.queues[q];
            proof {
                assert(queues_v.skip(q as int)[0] == batch.queues@[q as int].deep_view());
                assert(queues_v.skip(q as int).drop_first() =~= queues_v.skip(q as int + 1));
                assert(spec_queue_tasks(queues_v.skip(q as int)) =~= queue.deep_view().tasks
                    + spec_queue_tasks(queues_v.skip(q as int + 1)));
                assert(queue.deep_view().tasks.skip(0) =~= queue.deep_view().tasks);
            }
            let mut t: usize = 0;
            while t < queue.tasks.len()
                invariant
                    t <= queue.tasks@.len(),
                    queue.deep_view() == batch.deep_view().queues[q as int],
                    batch.deep_view() == r.deep_view().batches[b as int],
                    b < r.batches@.len(),
                    q < batch.queues@.len(),
                    spec_batch_tasks(r.deep_view().batches) =~= out.deep_view()
                        + queue.deep_view().tasks.skip(t as int) + spec_queue_tasks(
                        batch.deep_view().queues.skip(q as int + 1),
                    ) + spec_batch_tasks(r.deep_view().batches.skip(b as int + 1)),
                decreases queue.tasks@.len() - t,
            {
                let ghost pre = out@;
                out.push(queue.tasks[t].clone());
                proof {
                    assert(out.deep_view() =~= Seq::new(pre.len(), |i: int| pre[i].deep_view())
                        + seq![queue.deep_view().tasks[t as int]]);
                    assert(queue.deep_view().tasks.skip(t as int) =~= seq![
                        queue.deep_view().tasks[t as int],
                    ] + queue.deep_view().tasks.skip(t as int + 1));
                }
                t = t + 1;
            }
            proof {
                assert(queue.deep_view().tasks.skip(queue.tasks@.len() as int) =~= Seq::<
                    StatsV,
                >::empty());
            }
            q = q + 1;
        }
        proof {
            assert(batch.deep_view().queues.skip(batch.queues@.len() as int) =~= Seq::<
                StatusQueueV,
            >::empty());
        }
        b = b + 1;
    }
    proof {
        assert(r.deep_view().batches.skip(r.batches@.len() as int) =~= Seq::<
            StatusBatchV,
        >::empty());
    }
    out
}

/// Why raw bytes did not yield a payload: they are not valid JSON, or
/// the document does not have the expected structure.
#[derive(Debug)]
pub enum DeserializationError {
    Syntax(String),
    Structure(JsonError),
}

pub enum DeserializationErrorV {
    Syntax(Seq<char>),
    Structure(JsonErrorV),
}

impl View for DeserializationError {
    type V = DeserializationErrorV;

    open spec fn view(&self) -> DeserializationErrorV {
        match self {
            DeserializationError::Syntax(m) => DeserializationErrorV::Syntax(m@),
            DeserializationError::Structure(e) => DeserializationErrorV::Structure(e@),
        }
    }
}

/// Parses a status snapshot from raw text: JSON parsing by serde_json,
/// extraction verified against [`spec_status`].
pub fn parse_status(s: &str) -> (r: Result<Status, DeserializationError>)
    ensures
        json_of(s@) is None ==> (r matches Err(e) && e@ is Syntax),
        json_of(s@) matches Some(j) ==> (match r {
            Ok(st) => spec_status(j) == Ok::<StatusV, JsonErrorV>(st.deep_view()),
            Err(e) => e@ matches DeserializationErrorV::Structure(je) && spec_status(j)
                == Err::<StatusV, JsonErrorV>(je),
        }),
{
    match parse_json_text(s) {
        Err(msg) => Err(DeserializationError::Syntax(msg)),
        Ok(v) => match status_from_json(&v) {
            Ok(st) => Ok(st),
            Err(je) => Err(DeserializationError::Structure(je)),
        },
    }
}

/// Parses a metadata snapshot from raw text.
pub fn parse_metadata(s: &str) -> (r: Result<Metadata, DeserializationError>)
    ensures
        json_of(s@) is None ==> (r matches Err(e) && e@ is Syntax),
        json_of(s@) matches Some(j) ==> (match r {
            Ok(md) => spec_metadata(j) == Ok::<MetadataV, JsonErrorV>(md.deep_view()),
            Err(e) => e@ matches DeserializationErrorV::Structure(je) && spec_metadata(j)
                == Err::<MetadataV, JsonErrorV>(je),
        }),
{
    match parse_json_text(s) {
        Err(msg) => Err(DeserializationError::Syntax(msg)),
        Ok(v) => match metadata_from_json(&v) {
            Ok(md) => Ok(md),
            Err(je) => Err(DeserializationError::Structure(je)),
        },
    }
}

/// Prepending to a sequence prepends to its element-wise deep view.
pub proof fn lemma_deep_insert_front<T: DeepView>(pre: Seq<T>, post: Seq<T>, h: T)
    requires
        post == pre.insert(0, h),
    ensures
        Seq::new(post.len(), |i: int| post[i].deep_view()) =~= seq![h.deep_view()] + Seq::new(
            pre.len(),
            |i: int| pre[i].deep_view(),
        ),
{
}

} // verus!
