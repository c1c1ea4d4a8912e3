//! One run over an image as a state machine: the caller performs each action
//! on the GPU and hands back what happened; the session decides what comes
//! next.

use crate::acquire::{
    adapter_answered, adapter_request, adapter_request_spec, device_answered,
    device_request_spec, AdapterRequest, DeviceRequest,
};
use crate::dispatch::{dispatch_plan_spec, plan_dispatch, DispatchPlan};
use crate::error::GpuError;
use crate::layout::{
    image_bytes, image_bytes_spec, is_valid_size, lemma_valid_size_bytes_fit, readback_bytes,
    readback_bytes_spec, valid_size,
};
use crate::readback::{
    map_request, map_request_spec, pixels_of_readback, read_pixels, MapRequest,
};
use crate::steps::{dispatch_steps, dispatch_steps_spec, Step};
use vstd::prelude::*;

verus! {

/// How far a run has come.
#[derive(Clone, Copy, Debug, PartialEq, Eq)]
pub enum Phase {
    /// Nothing has been asked of the GPU yet.
    Idle,
    /// An adapter has been asked for.
    AwaitingAdapter,
    /// A device has been asked of the adapter.
    AwaitingDevice,
    /// The dispatch has been handed out and is being submitted.
    AwaitingSubmit,
    /// The readback buffer is being mapped.
    AwaitingMap,
    /// The run has delivered its pixels or has failed.
    Done,
}

/// What the caller reports to the session.
#[derive(Debug)]
pub enum Event<'a> {
    /// The run is to begin.
    Started,
    /// The adapter request was answered, with an adapter or without one.
    AdapterAnswered { found: bool },
    /// The device request was answered: granted, or refused with a reason.
    DeviceAnswered { outcome: Result<(), String> },
    /// The commands of the dispatch were submitted to the queue.
    Submitted,
    /// The map request was answered: with the mapped bytes of the whole
    /// readback buffer, or with nothing where mapping failed.
    MapAnswered { mapped: Option<&'a [u8]> },
}

/// What the session asks the caller to do next.
#[derive(Debug, PartialEq, Eq)]
pub enum Action {
    /// Ask the platform for an adapter.
    RequestAdapter(AdapterRequest),
    /// Ask the adapter for a device and its queue.
    RequestDevice(DeviceRequest),
    /// Carry out the steps in their order, with the values of the plan.
    Dispatch { plan: DispatchPlan, steps: Vec<Step> },
    /// Map the readback buffer as the request says and drive the device
    /// until the mapping is answered.
    MapReadback(MapRequest),
    /// Unmap the readback buffer and return these pixels.
    Deliver(Vec<u8>),
    /// Give up with this error.
    Fail(GpuError),
}

/// An image of `width` by `height` pixels in `pixel_bytes` bytes of RGBA8.
pub open spec fn valid_image(width: u32, height: u32, pixel_bytes: usize) -> bool {
    &&& valid_size(width, height)
    &&& pixel_bytes == image_bytes_spec(width as nat, height as nat)
}

/// One run over one image.
pub struct Session {
    phase: Phase,
    width: u32,
    height: u32,
}

impl Session {
    #[verifier::type_invariant]
    spec fn well_formed(self) -> bool {
        valid_size(self.width, self.height)
    }

    /// How far the run has come.
    pub closed spec fn phase_spec(self) -> Phase {
        self.phase
    }

    /// The image's width in pixels.
    pub closed spec fn width_spec(self) -> u32 {
        self.width
    }

    /// The image's height in pixels.
    pub closed spec fn height_spec(self) -> u32 {
        self.height
    }

    /// Begins a run over an image of `width` by `height` pixels that is held
    /// in `pixel_bytes` bytes, if that is an image.
    pub fn new(width: u32, height: u32, pixel_bytes: usize) -> (session: Option<Session>)
        ensures
            session is Some <==> valid_image(width, height, pixel_bytes),
            session matches Some(s) ==> s.phase_spec() == Phase::Idle && s.width_spec() == width
                && s.height_spec() == height,
    {
        if !is_valid_size(width, height) {
            return None;
        }
        proof {
            lemma_valid_size_bytes_fit(width, height);
        }
        if pixel_bytes as u64 != image_bytes(width, height) {
            return None;
        }
        Some(Session { phase: Phase::Idle, width, height })
    }

    /// How far the run has come.
    pub fn phase(&self) -> (phase: Phase)
        ensures
            phase == self.phase_spec(),
    {
        self.phase
    }

    /// Takes in what happened and says what to do next. An event that the
    /// current phase does not await, or mapped bytes that are not of the
    /// readback buffer's size, are answered with `None` and change nothing.
    pub fn step(&mut self, event: Event<'_>) -> (action: Option<Action>)
        ensures
            final(self).width_spec() == old(self).width_spec(),
            final(self).height_spec() == old(self).height_spec(),
            old(self).phase_spec() == Phase::Done ==> action is None,
            action is None <==> final(self).phase_spec() == old(self).phase_spec(),
            action matches Some(Action::Deliver(_)) ==> old(self).phase_spec()
                == Phase::AwaitingMap,
            match (old(self).phase_spec(), event) {
                (Phase::Idle, Event::Started) => {
                    &&& final(self).phase_spec() == Phase::AwaitingAdapter
                    &&& action == Some(Action::RequestAdapter(adapter_request_spec()))
                },
                (Phase::AwaitingAdapter, Event::AdapterAnswered { found: true }) => {
                    &&& final(self).phase_spec() == Phase::AwaitingDevice
                    &&& action == Some(Action::RequestDevice(device_request_spec()))
                },
                (Phase::AwaitingAdapter, Event::AdapterAnswered { found: false }) => {
                    &&& final(self).phase_spec() == Phase::Done
                    &&& action == Some(Action::Fail(GpuError::NoAdapter))
                },
                (Phase::AwaitingDevice, Event::DeviceAnswered { outcome: Ok(_) }) => {
                    &&& final(self).phase_spec() == Phase::AwaitingSubmit
                    &&& action matches Some(Action::Dispatch { plan, steps })
                    &&& plan == dispatch_plan_spec(old(self).width_spec(), old(self).height_spec())
                    &&& steps@ == dispatch_steps_spec()
                },
                (Phase::AwaitingDevice, Event::DeviceAnswered { outcome: Err(reason) }) => {
                    &&& final(self).phase_spec() == Phase::Done
                    &&& action matches Some(Action::Fail(GpuError::DeviceRequestFailed(text)))
                    &&& text@ == reason@
                },
                (Phase::AwaitingSubmit, Event::Submitted) => {
                    &&& final(self).phase_spec() == Phase::AwaitingMap
                    &&& action == Some(
                        Action::MapReadback(
                            map_request_spec(old(self).width_spec(), old(self).height_spec()),
                        ),
                    )
                },
                (Phase::AwaitingMap, Event::MapAnswered { mapped: None }) => {
                    &&& final(self).phase_spec() == Phase::Done
                    &&& action == Some(Action::Fail(GpuError::ReadbackFailed))
                },
                (Phase::AwaitingMap, Event::MapAnswered { mapped: Some(bytes) }) => {
                    if bytes@.len() == readback_bytes_spec(
                        old(self).width_spec() as nat,
                        old(self).height_spec() as nat,
                    ) {
                        &&& final(self).phase_spec() == Phase::Done
                        &&& action matches Some(Action::Deliver(pixels))
                        &&& pixels@ == pixels_of_readback(
                            old(self).width_spec() as nat,
                            old(self).height_spec() as nat,
                            bytes@,
                        )
                        &&& pixels@.len() == 4 * old(self).width_spec() * old(self).height_spec()
                    } else {
                        &&& final(self).phase_spec() == Phase::AwaitingMap
                        &&& action is None
                    }
                },
                _ => {
                    &&& final(self).phase_spec() == old(self).phase_spec()
                    &&& action is None
                },
            },
    {
        proof {
            use_type_invariant(&*self);
        }
        match (self.phase, event) {
            (Phase::Idle, Event::Started) => {
                self.phase = Phase::AwaitingAdapter;
                Some(Action::RequestAdapter(adapter_request()))
            },
            (Phase::AwaitingAdapter, Event::AdapterAnswered { found }) => {
                match adapter_answered(found) {
                    Ok(request) => {
                        self.phase = Phase::AwaitingDevice;
                        Some(Action::RequestDevice(request))
                    },
                    Err(error) => {
                        self.phase = Phase::Done;
                        Some(Action::Fail(error))
                    },
                }
            },
            (Phase::AwaitingDevice, Event::DeviceAnswered { outcome }) => {
                match device_answered(outcome) {
                    Ok(_) => {
                        self.phase = Phase::AwaitingSubmit;
                        Some(
                            Action::Dispatch {
                                plan: plan_dispatch(self.width, self.height),
                                steps: dispatch_steps(),
                            },
                        )
                    },
                    Err(error) => {
                        self.phase = Phase::Done;
                        Some(Action::Fail(error))
                    },
                }
            },
            (Phase::AwaitingSubmit, Event::Submitted) => {
                self.phase = Phase::AwaitingMap;
                Some(Action::MapReadback(map_request(self.width, self.height)))
            },
            (Phase::AwaitingMap, Event::MapAnswered { mapped }) => {
                let whole = match mapped {
                    Some(bytes) => bytes.len() as u64 == readback_bytes(self.width, self.height),
                    None => true,
                };
                if !whole {
                    return None;
                }
                self.phase = Phase::Done;
                match read_pixels(self.width, self.height, mapped) {
                    Ok(pixels) => Some(Action::Deliver(pixels)),
                    Err(error) => Some(Action::Fail(error)),
                }
            },
            _ => None,
        }
    }
}

} // verus!
