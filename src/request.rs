use vstd::prelude::*;
use crate::error::{BoxError, ErrorKind};

verus! {

/// Which stream of a video to fetch.
#[derive(Clone, Copy, PartialEq, Eq, Structural, Debug)]
pub enum Quality {
    Best,
    Worst,
}

pub open spec fn quality_of(worst_quality: bool) -> Quality {
    if worst_quality {
        Quality::Worst
    } else {
        Quality::Best
    }
}

pub fn quality_from_flag(worst_quality: bool) -> (q: Quality)
    ensures
        q == quality_of(worst_quality),
{
    if worst_quality {
        Quality::Worst
    } else {
        Quality::Best
    }
}

/// One video to download: its identifier, the stream wanted, and where to put it.
pub struct DownloadRequest {
    pub identifier: String,
    pub quality: Quality,
    pub output_dir: String,
}

/// The requests made from `videos`, one per identifier and in their order.
pub open spec fn planned(
    reqs: Seq<DownloadRequest>,
    videos: Seq<String>,
    worst_quality: bool,
    output: String,
) -> bool {
    &&& reqs.len() == videos.len()
    &&& forall|i: int|
        0 <= i < reqs.len() ==> {
            &&& (#[trigger] reqs[i]).identifier == videos[i]
            &&& reqs[i].quality == quality_of(worst_quality)
            &&& reqs[i].output_dir == output
        }
}

/// Turns the command line's values into one request per identifier.
/// An empty list is refused at once with a `NoInput` error.
pub fn plan_requests(videos: &Vec<String>, worst_quality: bool, output: &String) -> (r: Result<
    Vec<DownloadRequest>,
    BoxError,
>)
    ensures
        r is Err <==> videos@.len() == 0,
        r matches Err(e) ==> e.kind == ErrorKind::NoInput,
        r matches Ok(reqs) ==> planned(reqs@, videos@, worst_quality, *output),
{
    if videos.len() == 0 {
        return Err(BoxError::no_input());
    }
    let quality = quality_from_flag(worst_quality);
    let mut reqs: Vec<DownloadRequest> = Vec::new();
    let mut i: usize = 0;
    while i < videos.len()
        invariant
            i <= videos@.len(),
            quality == quality_of(worst_quality),
            planned(reqs@, videos@.take(i as int), worst_quality, *output),
        decreases videos@.len() - i,
    {
        reqs.push(
            DownloadRequest {
                identifier: videos[i].clone(),
                quality,
                output_dir: output.clone(),
            },
        );
        i = i + 1;
    }
    assert(videos@.take(videos@.len() as int) =~= videos@);
    Ok(reqs)
}

} // verus!
