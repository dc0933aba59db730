use vstd::prelude::*;
use crate::icon::IconImage;
use crate::process::ProcessInfo;

verus! {

/// A message from a background worker to the consumer: a full process snapshot, which
/// replaces the previous one, or the icon extracted for a pid.
pub enum BackgroundMessage {
    Processes(Vec<ProcessInfo>),
    Icon((u32, IconImage)),
}

/// What the icon worker emits for one request: the extracted icon under the request's pid,
/// or nothing when extraction failed.
pub open spec fn icon_emission(pid: u32, icon: Option<IconImage>) -> Option<(u32, IconImage)> {
    match icon {
        Some(img) => Some((pid, img)),
        None => None,
    }
}

/// The message the icon worker sends for the request of `pid` whose extraction gave `icon`.
pub fn icon_message(pid: u32, icon: Option<IconImage>) -> (r: Option<BackgroundMessage>)
    ensures
        match icon_emission(pid, icon) {
            Some((p, img)) => r matches Some(BackgroundMessage::Icon((q, m))) && q == p && m
                == img,
            None => r is None,
        },
{
    match icon {
        Some(img) => Some(BackgroundMessage::Icon((pid, img))),
        None => None,
    }
}

/// The icons the worker emits, in order, for the requests `reqs` whose extractions gave
/// `icons` (one result per request).
pub open spec fn emissions(reqs: Seq<(u32, String)>, icons: Seq<Option<IconImage>>) -> Seq<
    (u32, IconImage),
>
    recommends
        reqs.len() == icons.len(),
    decreases reqs.len(),
{
    if reqs.len() == 0 || icons.len() == 0 {
        Seq::empty()
    } else {
        let rest = emissions(reqs.drop_last(), icons.drop_last());
        match icon_emission(reqs.last().0, icons.last()) {
            Some(e) => rest.push(e),
            None => rest,
        }
    }
}

/// How many of the requests are for `pid`.
pub open spec fn requests_for(reqs: Seq<(u32, String)>, pid: u32) -> nat
    decreases reqs.len(),
{
    if reqs.len() == 0 {
        0
    } else {
        requests_for(reqs.drop_last(), pid) + if reqs.last().0 == pid {
            1nat
        } else {
            0nat
        }
    }
}

/// How many of the emitted icons are for `pid`.
pub open spec fn emissions_for(out: Seq<(u32, IconImage)>, pid: u32) -> nat
    decreases out.len(),
{
    if out.len() == 0 {
        0
    } else {
        emissions_for(out.drop_last(), pid) + if out.last().0 == pid {
            1nat
        } else {
            0nat
        }
    }
}

/// The icon worker emits no more results for a pid than requests were queued for it.
pub proof fn lemma_no_duplicate_emission(
    reqs: Seq<(u32, String)>,
    icons: Seq<Option<IconImage>>,
    pid: u32,
)
    requires
        reqs.len() == icons.len(),
    ensures
        emissions_for(emissions(reqs, icons), pid) <= requests_for(reqs, pid),
    decreases reqs.len(),
{
    if reqs.len() > 0 {
        lemma_no_duplicate_emission(reqs.drop_last(), icons.drop_last(), pid);
        let rest = emissions(reqs.drop_last(), icons.drop_last());
        match icon_emission(reqs.last().0, icons.last()) {
            Some(e) => {
                assert(rest.push(e).drop_last() == rest);
            },
            None => {},
        }
    }
}

} // verus!
