//! Release artwork: where the scanned cover of a release is found, how its
//! stored copy and thumbnail are made, and the record that points to them.
//!
//! Making a thumbnail alternates file-system work with decisions, so it is a
//! state machine here: [`ThumbnailJob::step`] takes the answer to the last
//! question it asked and returns the next piece of work to do.
use vstd::prelude::*;

verus! {

/// The width and the height, in pixels, of a thumbnail.
pub const THUMBNAIL_SIZE: u32 = 256;

/// The directory under which thumbnails are cached between runs.
pub const THUMBNAIL_CACHE: &'static str = "tmp/cache/";

/// The artwork record of a release: the identifiers of its stored full-size image
/// and of its thumbnail, as a JSON object.
pub open spec fn spec_artwork_data(original_id: Seq<char>, thumbnail_id: Seq<char>) -> Seq<char> {
    "{\"original\":{\"id\":\""@ + original_id + "\"},\"thumbnail\":{\"id\":\""@ + thumbnail_id
        + "\"}}"@
}

/// Returns the artwork record of a release.
pub fn artwork_data(original_id: &str, thumbnail_id: &str) -> (data: String)
    ensures
        data@ == spec_artwork_data(original_id@, thumbnail_id@),
        data@.len() == original_id@.len() + thumbnail_id@.len() + 44,
        data@.subrange(19, 19 + original_id@.len() as int) == original_id@,
        data@.subrange(
            41 + original_id@.len() as int,
            41 + original_id@.len() as int + thumbnail_id@.len() as int,
        ) == thumbnail_id@,
{
    proof {
        lemma_artwork_data_holds_ids(original_id@, thumbnail_id@);
    }
    let mut data = "{\"original\":{\"id\":\"".to_owned();
    data.append(original_id);
    data.append("\"},\"thumbnail\":{\"id\":\"");
    data.append(thumbnail_id);
    data.append("\"}}");
    data
}

/// The artwork record is the fixed JSON text `{"original":{"id":"…"},
/// "thumbnail":{"id":"…"}}` with both identifiers put in whole: the original
/// id stands right after the 19 characters `{"original":{"id":"` and is
/// followed by a quote, the thumbnail id stands right after the 22 further
/// characters `"},"thumbnail":{"id":"` and is followed by a quote, and the
/// record ends with `"}}`.
pub proof fn lemma_artwork_data_holds_ids(original_id: Seq<char>, thumbnail_id: Seq<char>)
    ensures
        ({
            let data = spec_artwork_data(original_id, thumbnail_id);
            let o = original_id.len() as int;
            let t = thumbnail_id.len() as int;
            &&& data.len() == o + t + 44
            &&& data.subrange(0, 19) == "{\"original\":{\"id\":\""@
            &&& data.subrange(19, 19 + o) == original_id
            &&& data.subrange(19 + o, 41 + o) == "\"},\"thumbnail\":{\"id\":\""@
            &&& data[19 + o] == '"'
            &&& data.subrange(41 + o, 41 + o + t) == thumbnail_id
            &&& data.subrange(41 + o + t, 44 + o + t) == "\"}}"@
            &&& data[41 + o + t] == '"'
        }),
{
    let head = "{\"original\":{\"id\":\""@;
    let middle = "\"},\"thumbnail\":{\"id\":\""@;
    let tail = "\"}}"@;
    reveal_strlit("{\"original\":{\"id\":\"");
    reveal_strlit("\"},\"thumbnail\":{\"id\":\"");
    reveal_strlit("\"}}");
    let data = spec_artwork_data(original_id, thumbnail_id);
    let o = original_id.len() as int;
    let t = thumbnail_id.len() as int;
    assert(head.len() == 19);
    assert(middle.len() == 22);
    assert(tail.len() == 3);
    assert(data =~= head + original_id + middle + thumbnail_id + tail);
    assert(data.subrange(0, 19) =~= head);
    assert(data.subrange(19, 19 + o) =~= original_id);
    assert(data.subrange(19 + o, 41 + o) =~= middle);
    assert(data.subrange(41 + o, 41 + o + t) =~= thumbnail_id);
    assert(data.subrange(41 + o + t, 44 + o + t) =~= tail);
    assert(data[19 + o] == middle[0]);
    assert(data[41 + o + t] == tail[0]);
}

/// One place where the artwork of a release may be found.
pub struct ArtworkCandidate {
    /// The artwork's path relative to the album attachments.
    pub pathname: String,
    /// The artwork's path in the catalogue.
    pub src: String,
    /// The path of its cached thumbnail.
    pub thumbnail_src: String,
}

/// Every path that making the stored artwork of one release involves.
pub struct ThumbnailPlan {
    /// The artwork of the release in its first format.
    pub primary: ArtworkCandidate,
    /// The artwork of the release in any format.
    pub fallback: ArtworkCandidate,
    /// Where the full-size image is stored.
    pub original_dst: String,
    /// Where the thumbnail is stored.
    pub thumbnail_dst: String,
    /// The cache directory for the album's thumbnails.
    pub cache_dir: String,
}

/// The directory that holds the album attachments of a catalogue.
pub open spec fn spec_attachments_prefix(prefix: Seq<char>) -> Seq<char> {
    prefix + "/-attachments/albums/"@
}

/// The artwork of a release in its first format, relative to the attachments.
pub open spec fn spec_primary_pathname(
    album_id: Seq<char>,
    disambiguation: Seq<char>,
    first_format: Seq<char>,
) -> Seq<char> {
    album_id + "/"@ + disambiguation + "-"@ + first_format + ".jpg"@
}

/// The artwork of a release in any format, relative to the attachments.
pub open spec fn spec_fallback_pathname(album_id: Seq<char>, disambiguation: Seq<char>) -> Seq<char> {
    album_id + "/"@ + disambiguation + ".jpg"@
}

/// Where a file named by an identifier is stored.
pub open spec fn spec_stored_path(dst_prefix: Seq<char>, file_id: Seq<char>) -> Seq<char> {
    dst_prefix + "/"@ + file_id + ".jpg"@
}

/// Whether `c` is the candidate for `pathname` in the catalogue at `prefix`.
pub open spec fn candidate_at(c: ArtworkCandidate, prefix: Seq<char>, pathname: Seq<char>) -> bool {
    &&& c.pathname@ == pathname
    &&& c.src@ == spec_attachments_prefix(prefix) + pathname
    &&& c.thumbnail_src@ == THUMBNAIL_CACHE@ + pathname
}

fn candidate(attachments_prefix: &str, pathname: String) -> (c: ArtworkCandidate)
    ensures
        c.pathname@ == pathname@,
        c.src@ == attachments_prefix@ + pathname@,
        c.thumbnail_src@ == THUMBNAIL_CACHE@ + pathname@,
{
    let mut src = attachments_prefix.to_owned();
    src.append(pathname.as_str());
    let mut thumbnail_src = THUMBNAIL_CACHE.to_owned();
    thumbnail_src.append(pathname.as_str());
    ArtworkCandidate { pathname, src, thumbnail_src }
}

fn stored_path(dst_prefix: &str, file_id: &str) -> (path: String)
    ensures
        path@ == spec_stored_path(dst_prefix@, file_id@),
{
    let mut path = dst_prefix.to_owned();
    path.append("/");
    path.append(file_id);
    path.append(".jpg");
    path
}

/// Lays out the paths for storing the artwork of one release.
pub fn thumbnail_plan(
    prefix: &str,
    album_id: &str,
    disambiguation: &str,
    first_format: &str,
    original_id: &str,
    thumbnail_id: &str,
    dst_prefix: &str,
) -> (plan: ThumbnailPlan)
    ensures
        candidate_at(
            plan.primary,
            prefix@,
            spec_primary_pathname(album_id@, disambiguation@, first_format@),
        ),
        candidate_at(plan.fallback, prefix@, spec_fallback_pathname(album_id@, disambiguation@)),
        plan.original_dst@ == spec_stored_path(dst_prefix@, original_id@),
        plan.thumbnail_dst@ == spec_stored_path(dst_prefix@, thumbnail_id@),
        plan.cache_dir@ == THUMBNAIL_CACHE@ + album_id@,
{
    let mut attachments_prefix = prefix.to_owned();
    attachments_prefix.append("/-attachments/albums/");

    let mut primary = album_id.to_owned();
    primary.append("/");
    primary.append(disambiguation);
    primary.append("-");
    primary.append(first_format);
    primary.append(".jpg");

    let mut fallback = album_id.to_owned();
    fallback.append("/");
    fallback.append(disambiguation);
    fallback.append(".jpg");

    let mut cache_dir = THUMBNAIL_CACHE.to_owned();
    cache_dir.append(album_id);

    ThumbnailPlan {
        primary: candidate(attachments_prefix.as_str(), primary),
        fallback: candidate(attachments_prefix.as_str(), fallback),
        original_dst: stored_path(dst_prefix, original_id),
        thumbnail_dst: stored_path(dst_prefix, thumbnail_id),
        cache_dir,
    }
}

/// How far a thumbnail job has come.
#[derive(Clone, Copy)]
pub enum ThumbnailStage {
    /// Nothing has been done yet.
    Start,
    /// Asked whether the primary artwork exists.
    ProbingPrimary,
    /// Asked whether the fallback artwork exists.
    ProbingFallback,
    /// Stored the full-size image, taken from the fallback artwork or not.
    CopiedOriginal { fallback: bool },
    /// Asked whether the thumbnail is cached.
    ProbingThumbnail { fallback: bool },
    /// Made the cache directory for the thumbnail.
    CreatedCacheDir { fallback: bool },
    /// Made the thumbnail.
    Resized { fallback: bool },
    /// Stored the thumbnail.
    CopiedThumbnail,
    /// Recorded the stored files; nothing is left to do.
    Done,
    /// No artwork was found; nothing is left to do.
    Failed,
}

/// Which of the two stored files a copy makes.
pub enum CopyKind {
    Original,
    Thumbnail,
}

/// The next piece of work of a thumbnail job.
pub enum ThumbnailAction {
    /// Find out whether the file exists, and pass the answer to the next step.
    Probe(String),
    /// Copy a file.
    Copy { from: String, to: String, kind: CopyKind },
    /// Create a directory and its parents.
    CreateDirAll(String),
    /// Write a scaled copy of an image.
    Resize { from: String, to: String, width: u32, height: u32 },
    /// Record the identifiers of the stored files for the release.
    UpdateArtwork { release_id: i32, original_id: String, thumbnail_id: String },
    /// Neither artwork file exists: the release cannot be imported.
    MissingArtwork(String),
    /// The job is over.
    Finished,
}

/// Stores the artwork of one release: copies the full-size image into the store,
/// makes (or takes from the cache) a thumbnail, stores that, and records both.
pub struct ThumbnailJob {
    pub plan: ThumbnailPlan,
    pub release_id: i32,
    pub original_id: String,
    pub thumbnail_id: String,
    pub stage: ThumbnailStage,
}

/// Whether a job in `stage` has nothing left to do.
pub open spec fn is_finished(stage: ThumbnailStage) -> bool {
    stage is Done || stage is Failed
}

/// The candidate that the stored full-size image was taken from.
pub open spec fn chosen(plan: ThumbnailPlan, fallback: bool) -> ArtworkCandidate {
    if fallback {
        plan.fallback
    } else {
        plan.primary
    }
}

/// The stage after a step from `stage`, given the answer to the last probe.
pub open spec fn next_stage(stage: ThumbnailStage, exists: bool) -> ThumbnailStage {
    match stage {
        ThumbnailStage::Start => ThumbnailStage::ProbingPrimary,
        ThumbnailStage::ProbingPrimary => if exists {
            ThumbnailStage::CopiedOriginal { fallback: false }
        } else {
            ThumbnailStage::ProbingFallback
        },
        ThumbnailStage::ProbingFallback => if exists {
            ThumbnailStage::CopiedOriginal { fallback: true }
        } else {
            ThumbnailStage::Failed
        },
        ThumbnailStage::CopiedOriginal { fallback } => ThumbnailStage::ProbingThumbnail { fallback },
        ThumbnailStage::ProbingThumbnail { fallback } => if exists {
            ThumbnailStage::CopiedThumbnail
        } else {
            ThumbnailStage::CreatedCacheDir { fallback }
        },
        ThumbnailStage::CreatedCacheDir { fallback } => ThumbnailStage::Resized { fallback },
        ThumbnailStage::Resized { .. } => ThumbnailStage::CopiedThumbnail,
        ThumbnailStage::CopiedThumbnail => ThumbnailStage::Done,
        ThumbnailStage::Done => ThumbnailStage::Done,
        ThumbnailStage::Failed => ThumbnailStage::Failed,
    }
}

/// Whether `a` asks whether `path` exists.
pub open spec fn is_probe(a: ThumbnailAction, path: String) -> bool {
    a matches ThumbnailAction::Probe(p) && p@ == path@
}

/// Whether `a` copies `from` to `to`, making the stored file `kind`.
pub open spec fn is_copy(a: ThumbnailAction, from: String, to: String, original: bool) -> bool {
    &&& a matches ThumbnailAction::Copy { from: f, to: t, kind: k }
    &&& f@ == from@
    &&& t@ == to@
    &&& (k is Original <==> original)
}

/// The work that a step of `job` returns, given the answer to the last probe.
pub open spec fn step_action(job: ThumbnailJob, exists: bool, a: ThumbnailAction) -> bool {
    let plan = job.plan;
    match job.stage {
        ThumbnailStage::Start => is_probe(a, plan.primary.src),
        ThumbnailStage::ProbingPrimary => if exists {
            is_copy(a, plan.primary.src, plan.original_dst, true)
        } else {
            is_probe(a, plan.fallback.src)
        },
        ThumbnailStage::ProbingFallback => if exists {
            is_copy(a, plan.fallback.src, plan.original_dst, true)
        } else {
            a matches ThumbnailAction::MissingArtwork(p) && p@ == plan.fallback.src@
        },
        ThumbnailStage::CopiedOriginal { fallback } => is_probe(
            a,
            chosen(plan, fallback).thumbnail_src,
        ),
        ThumbnailStage::ProbingThumbnail { fallback } => if exists {
            is_copy(a, chosen(plan, fallback).thumbnail_src, plan.thumbnail_dst, false)
        } else {
            a matches ThumbnailAction::CreateDirAll(d) && d@ == plan.cache_dir@
        },
        ThumbnailStage::CreatedCacheDir { fallback } => {
            &&& a matches ThumbnailAction::Resize { from, to, width, height }
            &&& from@ == chosen(plan, fallback).src@
            &&& to@ == chosen(plan, fallback).thumbnail_src@
            &&& width == THUMBNAIL_SIZE
            &&& height == THUMBNAIL_SIZE
        },
        ThumbnailStage::Resized { fallback } => is_copy(
            a,
            chosen(plan, fallback).thumbnail_src,
            plan.thumbnail_dst,
            false,
        ),
        ThumbnailStage::CopiedThumbnail => {
            &&& a matches ThumbnailAction::UpdateArtwork { release_id, original_id, thumbnail_id }
            &&& release_id == job.release_id
            &&& original_id@ == job.original_id@
            &&& thumbnail_id@ == job.thumbnail_id@
        },
        ThumbnailStage::Done => a is Finished,
        ThumbnailStage::Failed => a is Finished,
    }
}

impl ThumbnailJob {
    /// A job that stores the artwork of release `release_id` of album
    /// `album_id`, found in the catalogue at `prefix`, under the store
    /// directory `dst_prefix`, with the given file identifiers.
    pub fn new(
        prefix: &str,
        release_id: i32,
        album_id: &str,
        disambiguation: &str,
        first_format: &str,
        original_id: String,
        thumbnail_id: String,
        dst_prefix: &str,
    ) -> (job: ThumbnailJob)
        ensures
            candidate_at(
                job.plan.primary,
                prefix@,
                spec_primary_pathname(album_id@, disambiguation@, first_format@),
            ),
            candidate_at(
                job.plan.fallback,
                prefix@,
                spec_fallback_pathname(album_id@, disambiguation@),
            ),
            job.plan.original_dst@ == spec_stored_path(dst_prefix@, original_id@),
            job.plan.thumbnail_dst@ == spec_stored_path(dst_prefix@, thumbnail_id@),
            job.plan.cache_dir@ == THUMBNAIL_CACHE@ + album_id@,
            job.release_id == release_id,
            job.original_id == original_id,
            job.thumbnail_id == thumbnail_id,
            job.stage is Start,
    {
        let plan = thumbnail_plan(
            prefix,
            album_id,
            disambiguation,
            first_format,
            original_id.as_str(),
            thumbnail_id.as_str(),
            dst_prefix,
        );
        ThumbnailJob { plan, release_id, original_id, thumbnail_id, stage: ThumbnailStage::Start }
    }

    /// Advances the job by one step. `exists` is the answer to the last
    /// [`ThumbnailAction::Probe`]; after any other action it is not read.
    pub fn step(&mut self, exists: bool) -> (action: ThumbnailAction)
        ensures
            final(self).plan == old(self).plan,
            final(self).release_id == old(self).release_id,
            final(self).original_id == old(self).original_id,
            final(self).thumbnail_id == old(self).thumbnail_id,
            final(self).stage == next_stage(old(self).stage, exists),
            step_action(*old(self), exists, action),
    {
        match self.stage {
            ThumbnailStage::Start => {
                self.stage = ThumbnailStage::ProbingPrimary;
                ThumbnailAction::Probe(self.plan.primary.src.clone())
            },
            ThumbnailStage::ProbingPrimary => {
                if exists {
                    self.stage = ThumbnailStage::CopiedOriginal { fallback: false };
                    ThumbnailAction::Copy {
                        from: self.plan.primary.src.clone(),
                        to: self.plan.original_dst.clone(),
                        kind: CopyKind::Original,
                    }
                } else {
                    self.stage = ThumbnailStage::ProbingFallback;
                    ThumbnailAction::Probe(self.plan.fallback.src.clone())
                }
            },
            ThumbnailStage::ProbingFallback => {
                if exists {
                    self.stage = ThumbnailStage::CopiedOriginal { fallback: true };
                    ThumbnailAction::Copy {
                        from: self.plan.fallback.src.clone(),
                        to: self.plan.original_dst.clone(),
                        kind: CopyKind::Original,
                    }
                } else {
                    self.stage = ThumbnailStage::Failed;
                    ThumbnailAction::MissingArtwork(self.plan.fallback.src.clone())
                }
            },
            ThumbnailStage::CopiedOriginal { fallback } => {
                self.stage = ThumbnailStage::ProbingThumbnail { fallback };
                let c = if fallback {
                    &self.plan.fallback
                } else {
                    &self.plan.primary
                };
                ThumbnailAction::Probe(c.thumbnail_src.clone())
            },
            ThumbnailStage::ProbingThumbnail { fallback } => {
                if exists {
                    self.stage = ThumbnailStage::CopiedThumbnail;
                    let c = if fallback {
                        &self.plan.fallback
                    } else {
                        &self.plan.primary
                    };
                    ThumbnailAction::Copy {
                        from: c.thumbnail_src.clone(),
                        to: self.plan.thumbnail_dst.clone(),
                        kind: CopyKind::Thumbnail,
                    }
                } else {
                    self.stage = ThumbnailStage::CreatedCacheDir { fallback };
                    ThumbnailAction::CreateDirAll(self.plan.cache_dir.clone())
                }
            },
            ThumbnailStage::CreatedCacheDir { fallback } => {
                self.stage = ThumbnailStage::Resized { fallback };
                let c = if fallback {
                    &self.plan.fallback
                } else {
                    &self.plan.primary
                };
                ThumbnailAction::Resize {
                    from: c.src.clone(),
                    to: c.thumbnail_src.clone(),
                    width: THUMBNAIL_SIZE,
                    height: THUMBNAIL_SIZE,
                }
            },
            ThumbnailStage::Resized { fallback } => {
                self.stage = ThumbnailStage::CopiedThumbnail;
                let c = if fallback {
                    &self.plan.fallback
                } else {
                    &self.plan.primary
                };
                ThumbnailAction::Copy {
                    from: c.thumbnail_src.clone(),
                    to: self.plan.thumbnail_dst.clone(),
                    kind: CopyKind::Thumbnail,
                }
            },
            ThumbnailStage::CopiedThumbnail => {
                self.stage = ThumbnailStage::Done;
                ThumbnailAction::UpdateArtwork {
                    release_id: self.release_id,
                    original_id: self.original_id.clone(),
                    thumbnail_id: self.thumbnail_id.clone(),
                }
            },
            ThumbnailStage::Done => ThumbnailAction::Finished,
            ThumbnailStage::Failed => ThumbnailAction::Finished,
        }
    }
}

/// The number of steps that a job in `stage` takes at most before it is
/// finished.
pub open spec fn steps_left(stage: ThumbnailStage) -> nat {
    match stage {
        ThumbnailStage::Start => 8,
        ThumbnailStage::ProbingPrimary => 7,
        ThumbnailStage::ProbingFallback => 6,
        ThumbnailStage::CopiedOriginal { .. } => 5,
        ThumbnailStage::ProbingThumbnail { .. } => 4,
        ThumbnailStage::CreatedCacheDir { .. } => 3,
        ThumbnailStage::Resized { .. } => 2,
        ThumbnailStage::CopiedThumbnail => 1,
        ThumbnailStage::Done => 0,
        ThumbnailStage::Failed => 0,
    }
}

/// Every thumbnail job finishes, whatever the file system answers: each step
/// of an unfinished job brings it closer to the end, and a finished job stays
/// finished.
pub proof fn lemma_thumbnail_job_finishes(stage: ThumbnailStage, exists: bool)
    ensures
        !is_finished(stage) ==> steps_left(next_stage(stage, exists)) < steps_left(stage),
        is_finished(stage) ==> next_stage(stage, exists) == stage,
        is_finished(stage) <==> steps_left(stage) == 0,
{
}

/// The stored full-size image is the primary artwork when that exists, the fallback
/// when only that exists, and the job fails when neither exists.
pub proof fn lemma_original_source(any: bool, primary_exists: bool, fallback_exists: bool)
    ensures
        ({
            let probing = next_stage(ThumbnailStage::Start, any);
            let after_primary = next_stage(probing, primary_exists);
            let after_fallback = next_stage(after_primary, fallback_exists);
            &&& primary_exists ==> after_primary == ThumbnailStage::CopiedOriginal {
                fallback: false,
            }
            &&& !primary_exists && fallback_exists ==> after_fallback
                == ThumbnailStage::CopiedOriginal { fallback: true }
            &&& !primary_exists && !fallback_exists ==> after_fallback is Failed
        }),
{
}

/// A thumbnail is made (resized from the stored artwork) only when it is not
/// cached; a cached thumbnail is copied as it is.
pub proof fn lemma_resize_only_when_uncached(fallback: bool, cached: bool)
    ensures
        ({
            let probing = ThumbnailStage::ProbingThumbnail { fallback };
            &&& cached ==> next_stage(probing, cached) is CopiedThumbnail
            &&& !cached ==> next_stage(probing, cached) == ThumbnailStage::CreatedCacheDir {
                fallback,
            }
        }),
{
}

/// The thumbnail is made from the very file that was stored as the full-size
/// image: when the artwork was found at a candidate (the primary one when it
/// exists, else the fallback), the full-size image is copied from that
/// candidate, the 256×256 thumbnail is resized from that same candidate into
/// its cache path, and the thumbnail is stored from that cache path.
pub proof fn lemma_thumbnail_made_from_stored_image(
    found: ThumbnailJob,
    cache: ThumbnailJob,
    resized: ThumbnailJob,
    fallback: bool,
    e1: bool,
    e2: bool,
    copy: ThumbnailAction,
    resize: ThumbnailAction,
    store: ThumbnailAction,
)
    requires
        cache.plan == found.plan,
        resized.plan == found.plan,
        found.stage == (if fallback {
            ThumbnailStage::ProbingFallback
        } else {
            ThumbnailStage::ProbingPrimary
        }),
        cache.stage == (ThumbnailStage::CreatedCacheDir { fallback }),
        resized.stage == (ThumbnailStage::Resized { fallback }),
        step_action(found, true, copy),
        step_action(cache, e1, resize),
        step_action(resized, e2, store),
    ensures
        next_stage(found.stage, true) == (ThumbnailStage::CopiedOriginal { fallback }),
        next_stage(ThumbnailStage::CopiedOriginal { fallback }, e1) == (
        ThumbnailStage::ProbingThumbnail { fallback }),
        ({
            let src = if fallback {
                found.plan.fallback
            } else {
                found.plan.primary
            };
            &&& (copy matches ThumbnailAction::Copy { from, to, kind } && from@ == src.src@ && to@
                == found.plan.original_dst@ && kind is Original)
            &&& (resize matches ThumbnailAction::Resize { from, to, width, height } && from@
                == src.src@ && to@ == src.thumbnail_src@ && width == 256 && height == 256)
            &&& (store matches ThumbnailAction::Copy { from, to, kind } && from@
                == src.thumbnail_src@ && to@ == found.plan.thumbnail_dst@ && kind is Thumbnail)
        }),
{
}

/// A cached thumbnail of the candidate that the artwork was found at is
/// stored as it is, without resizing anything.
pub proof fn lemma_cached_thumbnail_reused(
    job: ThumbnailJob,
    fallback: bool,
    store: ThumbnailAction,
)
    requires
        job.stage == (ThumbnailStage::ProbingThumbnail { fallback }),
        step_action(job, true, store),
    ensures
        ({
            let src = if fallback {
                job.plan.fallback
            } else {
                job.plan.primary
            };
            store matches ThumbnailAction::Copy { from, to, kind } && from@ == src.thumbnail_src@
                && to@ == job.plan.thumbnail_dst@ && kind is Thumbnail
        }),
        next_stage(job.stage, true) is CopiedThumbnail,
{
}

/// The job looks for the primary artwork first and for the fallback artwork
/// only when the primary one is missing, and reports the fallback path as
/// missing when neither exists.
pub proof fn lemma_artwork_probes(
    start: ThumbnailJob,
    primary: ThumbnailJob,
    fallback: ThumbnailJob,
    e: bool,
    a0: ThumbnailAction,
    a1: ThumbnailAction,
    a2: ThumbnailAction,
)
    requires
        start.stage is Start,
        primary.stage is ProbingPrimary,
        fallback.stage is ProbingFallback,
        primary.plan == start.plan,
        fallback.plan == start.plan,
        step_action(start, e, a0),
        step_action(primary, false, a1),
        step_action(fallback, false, a2),
    ensures
        a0 matches ThumbnailAction::Probe(p) && p@ == start.plan.primary.src@,
        a1 matches ThumbnailAction::Probe(p) && p@ == start.plan.fallback.src@,
        a2 matches ThumbnailAction::MissingArtwork(p) && p@ == start.plan.fallback.src@,
        next_stage(start.stage, e) is ProbingPrimary,
        next_stage(primary.stage, false) is ProbingFallback,
        next_stage(fallback.stage, false) is Failed,
{
}

/// When no thumbnail is cached, the job first creates the album's cache
/// directory; once both files are stored it records exactly the release and
/// the two file identifiers that it was made for.
pub proof fn lemma_cache_dir_and_record(
    uncached: ThumbnailJob,
    stored: ThumbnailJob,
    fallback: bool,
    e: bool,
    mkdir: ThumbnailAction,
    record: ThumbnailAction,
)
    requires
        uncached.stage == (ThumbnailStage::ProbingThumbnail { fallback }),
        stored.stage is CopiedThumbnail,
        step_action(uncached, false, mkdir),
        step_action(stored, e, record),
    ensures
        mkdir matches ThumbnailAction::CreateDirAll(d) && d@ == uncached.plan.cache_dir@,
        record matches ThumbnailAction::UpdateArtwork { release_id, original_id, thumbnail_id }
            && release_id == stored.release_id && original_id@ == stored.original_id@
            && thumbnail_id@ == stored.thumbnail_id@,
        next_stage(stored.stage, e) is Done,
{
}

/// Both artwork candidates of a release lie in the album's directory and are
/// JPEG files, and they are different files: the primary one names the first
/// format after the disambiguation, the fallback one does not.
pub proof fn lemma_candidate_pathnames(
    album_id: Seq<char>,
    disambiguation: Seq<char>,
    first_format: Seq<char>,
)
    ensures
        ({
            let primary = spec_primary_pathname(album_id, disambiguation, first_format);
            let fallback = spec_fallback_pathname(album_id, disambiguation);
            let dir = album_id + "/"@ + disambiguation;
            &&& primary.subrange(0, dir.len() as int) == dir
            &&& fallback.subrange(0, dir.len() as int) == dir
            &&& primary.subrange(primary.len() - 4, primary.len() as int) == ".jpg"@
            &&& fallback.subrange(fallback.len() - 4, fallback.len() as int) == ".jpg"@
            &&& primary.len() == fallback.len() + first_format.len() + 1
            &&& primary != fallback
        }),
{
    reveal_strlit("/");
    reveal_strlit("-");
    reveal_strlit(".jpg");
    let primary = spec_primary_pathname(album_id, disambiguation, first_format);
    let fallback = spec_fallback_pathname(album_id, disambiguation);
    let dir = album_id + "/"@ + disambiguation;
    assert(primary =~= dir + "-"@ + first_format + ".jpg"@);
    assert(fallback =~= dir + ".jpg"@);
    assert(primary.subrange(0, dir.len() as int) =~= dir);
    assert(fallback.subrange(0, dir.len() as int) =~= dir);
    assert(primary.subrange(primary.len() - 4, primary.len() as int) =~= ".jpg"@);
    assert(fallback.subrange(fallback.len() - 4, fallback.len() as int) =~= ".jpg"@);
}

/// Files stored under different identifiers get different paths, so the
/// full-size image and the thumbnail never overwrite each other.
pub proof fn lemma_stored_paths_distinct(dst_prefix: Seq<char>, id1: Seq<char>, id2: Seq<char>)
    requires
        id1 != id2,
    ensures
        spec_stored_path(dst_prefix, id1) != spec_stored_path(dst_prefix, id2),
{
    reveal_strlit("/");
    reveal_strlit(".jpg");
    let p1 = spec_stored_path(dst_prefix, id1);
    let p2 = spec_stored_path(dst_prefix, id2);
    let n: int = dst_prefix.len() as int + 1;
    assert(p1 =~= (dst_prefix + "/"@) + id1 + ".jpg"@);
    assert(p2 =~= (dst_prefix + "/"@) + id2 + ".jpg"@);
    if p1 == p2 {
        assert(id1 =~= p1.subrange(n, p1.len() - 4));
        assert(id2 =~= p2.subrange(n, p2.len() - 4));
    }
}

} // verus!
