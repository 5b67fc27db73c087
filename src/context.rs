use vstd::prelude::*;
use crate::events::Transition;
use crate::volume::VolumeRecord;

verus! {

/// What a page is handed on activation: the volume to select, and where to go back to.
#[derive(Debug)]
pub struct AppContext {
    pub docker_volume: Option<VolumeRecord>,
    pub continuation: Option<Box<Transition>>,
}

impl AppContext {
    /// A context that names no volume and has nowhere to return to.
    pub fn empty() -> (r: Self)
        ensures
            r.docker_volume is None,
            r.continuation is None,
    {
        AppContext { docker_volume: None, continuation: None }
    }
}

/// The context of a drill-down into `v`: it names `v`, and returns to the volume page with
/// `v` named again.
pub open spec fn drill_down_context(v: VolumeRecord) -> AppContext {
    AppContext {
        docker_volume: Some(v),
        continuation: Some(
            Box::new(Transition::ToVolumePage(AppContext { docker_volume: Some(v), continuation: None })),
        ),
    }
}

pub fn make_drill_down_context(v: &VolumeRecord) -> (r: AppContext)
    ensures
        r == drill_down_context(*v),
{
    let back = AppContext { docker_volume: Some(v.duplicate()), continuation: None };
    AppContext {
        docker_volume: Some(v.duplicate()),
        continuation: Some(Box::new(Transition::ToVolumePage(back))),
    }
}

} // verus!
