use vstd::prelude::*;
use vstd::string::*;
use crate::config::Config;
use crate::watcher::views;
use crate::text::{seconds, seconds_spec};
use std::collections::HashMap;

verus! {

/// `<save_dir>/<stream>`: where the packager writes a stream's files.
pub open spec fn output_dir_spec(save_dir: Seq<char>, stream_name: Seq<char>) -> Seq<char> {
    save_dir + "/"@ + stream_name
}

/// The public base URL that playlist entries are rewritten to.
pub open spec fn base_url_spec(bucket: Seq<char>, region: Seq<char>, stream_name: Seq<char>) -> Seq<
    char,
> {
    "https://"@ + bucket + ".s3."@ + region + ".amazonaws.com/hls_output/"@ + stream_name + "/"@
}

/// The packager's command line (without the program name): FLV on standard
/// input, H.264/AAC, fragmented-MP4 LL-HLS event playlist cut at the
/// configured part duration (in seconds), with a fixed
/// `init.mp4` and `segment_%d.m4s` pattern under `dir`.
pub open spec fn packager_args_spec(dir: Seq<char>, base_url: Seq<char>, part_duration_ms: u64) -> Seq<
    Seq<char>,
> {
    seq![
        "-i"@, "pipe:0"@,
        "-c:v"@, "libx264"@,
        "-preset"@, "veryfast"@,
        "-tune"@, "zerolatency"@,
        "-g"@, "30"@,
        "-keyint_min"@, "30"@,
        "-sc_threshold"@, "0"@,
        "-c:a"@, "aac"@,
        "-b:a"@, "128k"@,
        "-ar"@, "44100"@,
        "-ac"@, "2"@,
        "-f"@, "hls"@,
        "-hls_time"@, seconds_spec(part_duration_ms as nat),
        "-hls_list_size"@, "0"@,
        "-hls_flags"@, "delete_segments+program_date_time+temp_file+independent_segments+split_by_time"@,
        "-hls_segment_type"@, "fmp4"@,
        "-hls_fmp4_init_filename"@, "init.mp4"@,
        "-hls_segment_filename"@, dir + "/segment_%d.m4s"@,
        "-hls_playlist_type"@, "event"@,
        "-hls_allow_cache"@, "0"@,
        "-hls_start_number_source"@, "datetime"@,
        "-hls_base_url"@, base_url,
        dir + "/playlist.m3u8"@
    ]
}

/// Where the packager writes a stream's files.
pub fn output_dir(save_dir: &str, stream_name: &str) -> (r: String)
    ensures
        r@ == output_dir_spec(save_dir@, stream_name@),
{
    let mut s = String::from_str(save_dir);
    s.append("/");
    s.append(stream_name);
    s
}

/// The base URL under which the object store serves a stream's files.
pub fn hls_base_url(bucket: &str, region: &str, stream_name: &str) -> (r: String)
    ensures
        r@ == base_url_spec(bucket@, region@, stream_name@),
{
    let mut s = String::from_str("https://");
    s.append(bucket);
    s.append(".s3.");
    s.append(region);
    s.append(".amazonaws.com/hls_output/");
    s.append(stream_name);
    s.append("/");
    s
}

fn push_lit(v: &mut Vec<String>, s: &str)
    ensures
        views(final(v)@) == views(old(v)@).push(s@),
{
    v.push(String::from_str(s));
    assert(views(v@) =~= views(old(v)@).push(s@));
}

fn push_joined(v: &mut Vec<String>, a: &str, b: &str)
    ensures
        views(final(v)@) == views(old(v)@).push(a@ + b@),
{
    let mut s = String::from_str(a);
    s.append(b);
    v.push(s);
    assert(views(v@) =~= views(old(v)@).push(a@ + b@));
}

/// The packager's arguments for a stream, reproducible from the
/// configuration and the stream's name alone.
pub fn packager_args(config: &Config, stream_name: &str) -> (r: Vec<String>)
    ensures
        views(r@) == packager_args_spec(
            output_dir_spec(config.hls.save_dir@, stream_name@),
            base_url_spec(config.s3.bucket@, config.s3.region@, stream_name@),
            config.hls.part_duration_ms,
        ),
{
    let dir = output_dir(config.hls.save_dir.as_str(), stream_name);
    let base = hls_base_url(config.s3.bucket.as_str(), config.s3.region.as_str(), stream_name);
    let mut v: Vec<String> = Vec::new();
    push_lit(&mut v, "-i");
    push_lit(&mut v, "pipe:0");
    push_lit(&mut v, "-c:v");
    push_lit(&mut v, "libx264");
    push_lit(&mut v, "-preset");
    push_lit(&mut v, "veryfast");
    push_lit(&mut v, "-tune");
    push_lit(&mut v, "zerolatency");
    push_lit(&mut v, "-g");
    push_lit(&mut v, "30");
    push_lit(&mut v, "-keyint_min");
    push_lit(&mut v, "30");
    push_lit(&mut v, "-sc_threshold");
    push_lit(&mut v, "0");
    push_lit(&mut v, "-c:a");
    push_lit(&mut v, "aac");
    push_lit(&mut v, "-b:a");
    push_lit(&mut v, "128k");
    push_lit(&mut v, "-ar");
    push_lit(&mut v, "44100");
    push_lit(&mut v, "-ac");
    push_lit(&mut v, "2");
    push_lit(&mut v, "-f");
    push_lit(&mut v, "hls");
    push_lit(&mut v, "-hls_time");
    let part = seconds(config.hls.part_duration_ms);
    push_lit(&mut v, part.as_str());
    push_lit(&mut v, "-hls_list_size");
    push_lit(&mut v, "0");
    push_lit(&mut v, "-hls_flags");
    push_lit(
        &mut v,
        "delete_segments+program_date_time+temp_file+independent_segments+split_by_time",
    );
    push_lit(&mut v, "-hls_segment_type");
    push_lit(&mut v, "fmp4");
    push_lit(&mut v, "-hls_fmp4_init_filename");
    push_lit(&mut v, "init.mp4");
    push_lit(&mut v, "-hls_segment_filename");
    push_joined(&mut v, dir.as_str(), "/segment_%d.m4s");
    push_lit(&mut v, "-hls_playlist_type");
    push_lit(&mut v, "event");
    push_lit(&mut v, "-hls_allow_cache");
    push_lit(&mut v, "0");
    push_lit(&mut v, "-hls_start_number_source");
    push_lit(&mut v, "datetime");
    push_lit(&mut v, "-hls_base_url");
    push_lit(&mut v, base.as_str());
    push_joined(&mut v, dir.as_str(), "/playlist.m3u8");
    assert(views(v@) =~= packager_args_spec(dir@, base@, config.hls.part_duration_ms));
    v
}

/// Why a packager operation did not go through.
#[derive(Clone, Copy, PartialEq, Eq, Structural, Debug)]
pub enum PipelineError {
    /// Writing to the packager failed; it has been dropped.
    BrokenPipe,
    /// The session already has a packager.
    AlreadyRunning,
}

/// The live packagers, one per session id, each owning the writable end of
/// its child's standard input. Dropping a sink closes that input, which is
/// the child's signal to finish.
pub struct FfmpegPipelineManager<S> {
    pub pipelines: HashMap<u32, S>,
}

impl<S> FfmpegPipelineManager<S> {
    pub open spec fn live(&self) -> Map<u32, S> {
        self.pipelines@
    }

    pub fn new() -> (r: FfmpegPipelineManager<S>)
        ensures
            r.live() == Map::<u32, S>::empty(),
    {
        broadcast use vstd::std_specs::hash::group_hash_axioms;

        FfmpegPipelineManager { pipelines: HashMap::new() }
    }

    /// Takes ownership of a freshly started packager's input. A session that
    /// already has a packager keeps it, and the new sink is handed back.
    pub fn register(&mut self, stream_id: u32, stdin: S) -> (r: Result<(), S>)
        ensures
            old(self).live().dom().contains(stream_id) ==> r is Err && final(self).live() == old(self).live(),
            !old(self).live().dom().contains(stream_id) ==> r is Ok && final(self).live() == old(self).live().insert(stream_id, stdin),
    {
        broadcast use vstd::std_specs::hash::group_hash_axioms;

        if self.pipelines.contains_key(&stream_id) {
            Err(stdin)
        } else {
            self.pipelines.insert(stream_id, stdin);
            Ok(())
        }
    }

    /// Lends out the packager input of a session for one write; `None` when
    /// the session has no packager, so writing after a stop does nothing.
    pub fn begin_write(&mut self, stream_id: u32) -> (r: Option<S>)
        ensures
            r.is_some() == old(self).live().dom().contains(stream_id),
            r.is_some() ==> r->0 == old(self).live()[stream_id],
            final(self).live() == old(self).live().remove(stream_id),
    {
        broadcast use vstd::std_specs::hash::group_hash_axioms;

        self.pipelines.remove(&stream_id)
    }

    /// Takes the input back after a write. If the write or its flush failed,
    /// the packager is dropped for good and the caller gets `BrokenPipe`.
    pub fn finish_write(&mut self, stream_id: u32, stdin: S, written: bool) -> (r: Result<
        (),
        PipelineError,
    >)
        requires
            !old(self).live().dom().contains(stream_id),
        ensures
            written ==> r is Ok && final(self).live() == old(self).live().insert(stream_id, stdin),
            !written ==> r == Err::<(), PipelineError>(PipelineError::BrokenPipe) && final(self).live() == old(self).live(),
    {
        broadcast use vstd::std_specs::hash::group_hash_axioms;

        if written {
            self.pipelines.insert(stream_id, stdin);
            Ok(())
        } else {
            Err(PipelineError::BrokenPipe)
        }
    }

    /// Drops a session's packager, closing its input; whether there was one.
    pub fn stop_pipeline(&mut self, stream_id: u32) -> (r: bool)
        ensures
            r == old(self).live().dom().contains(stream_id),
            final(self).live() == old(self).live().remove(stream_id),
    {
        broadcast use vstd::std_specs::hash::group_hash_axioms;

        self.pipelines.remove(&stream_id).is_some()
    }

    /// Drops every packager.
    pub fn stop_all_pipelines(&mut self)
        ensures
            final(self).live() == Map::<u32, S>::empty(),
    {
        broadcast use vstd::std_specs::hash::group_hash_axioms;

        self.pipelines.clear();
    }

    pub fn has_pipeline(&self, stream_id: u32) -> (r: bool)
        ensures
            r == self.live().dom().contains(stream_id),
    {
        broadcast use vstd::std_specs::hash::group_hash_axioms;

        self.pipelines.contains_key(&stream_id)
    }

    pub fn active_pipeline_count(&self) -> (r: usize)
        ensures
            r == self.live().len(),
    {
        broadcast use vstd::std_specs::hash::group_hash_axioms;

        self.pipelines.len()
    }
}

} // verus!
