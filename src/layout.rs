//! Where an item's files live, and the arguments the muxer is run with.
use vstd::prelude::*;

verus! {

/// The files of one content item: two intermediates and the muxed output.
#[derive(Debug)]
pub struct DownloadTarget {
    pub base_name: String,
    pub video_path: String,
    pub audio_path: String,
    pub output_path: String,
}

/// `dir/name` followed by `suffix`.
pub open spec fn path_in(dir: Seq<char>, name: Seq<char>, suffix: Seq<char>) -> Seq<char> {
    dir + "/"@ + name + suffix
}

/// The three paths of a target are pairwise different.
pub open spec fn distinct_paths(t: DownloadTarget) -> bool {
    &&& t.video_path@ != t.audio_path@
    &&& t.video_path@ != t.output_path@
    &&& t.audio_path@ != t.output_path@
}

/// The target of the item named `name` in the directory `dir`.
pub open spec fn is_target_of(t: DownloadTarget, dir: Seq<char>, name: Seq<char>) -> bool {
    &&& t.base_name@ == name
    &&& t.video_path@ == path_in(dir, name, "_video.m4s"@)
    &&& t.audio_path@ == path_in(dir, name, "_audio.m4s"@)
    &&& t.output_path@ == path_in(dir, name, ".mp4"@)
}

fn path_of(dir: &str, name: &str, suffix: &str) -> (r: String)
    ensures
        r@ == path_in(dir@, name@, suffix@),
{
    String::from_str(dir).concat("/").concat(name).concat(suffix)
}

/// The files of the item named `name` in `dir`: `name_video.m4s`,
/// `name_audio.m4s` and `name.mp4`.
pub fn download_target(dir: &str, name: &str) -> (t: DownloadTarget)
    ensures
        is_target_of(t, dir@, name@),
        distinct_paths(t),
{
    let t = DownloadTarget {
        base_name: String::from_str(name),
        video_path: path_of(dir, name, "_video.m4s"),
        audio_path: path_of(dir, name, "_audio.m4s"),
        output_path: path_of(dir, name, ".mp4"),
    };
    proof {
        reveal_strlit("_video.m4s");
        reveal_strlit("_audio.m4s");
        reveal_strlit(".mp4");
        let p = dir@ + "/"@ + name@;
        assert(t.video_path@.len() != t.output_path@.len());
        assert(t.audio_path@.len() != t.output_path@.len());
        assert(t.video_path@[p.len() as int + 1] == 'v');
        assert(t.audio_path@[p.len() as int + 1] == 'a');
    }
    t
}

/// The muxer's arguments: copy the video stream, encode the audio as AAC.
pub open spec fn mux_arguments(t: DownloadTarget) -> Seq<Seq<char>> {
    seq![
        "-loglevel"@,
        "error"@,
        "-i"@,
        t.video_path@,
        "-i"@,
        t.audio_path@,
        "-c:v"@,
        "copy"@,
        "-c:a"@,
        "aac"@,
        t.output_path@,
    ]
}

/// The argument list for the external muxer on the files of `t`.
pub fn mux_args(t: &DownloadTarget) -> (r: Vec<String>)
    ensures
        r@.map_values(|a: String| a@) == mux_arguments(*t),
{
    let mut r: Vec<String> = Vec::new();
    r.push(String::from_str("-loglevel"));
    r.push(String::from_str("error"));
    r.push(String::from_str("-i"));
    r.push(t.video_path.clone());
    r.push(String::from_str("-i"));
    r.push(t.audio_path.clone());
    r.push(String::from_str("-c:v"));
    r.push(String::from_str("copy"));
    r.push(String::from_str("-c:a"));
    r.push(String::from_str("aac"));
    r.push(t.output_path.clone());
    assert(r@.map_values(|a: String| a@) =~= mux_arguments(*t));
    r
}

} // verus!
