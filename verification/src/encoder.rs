//! The sequential encoder: two injectors driven back to back.

use vstd::prelude::*;

use crate::injector::config_or_zero;
use crate::injector::InjectorView;
use crate::injector::InnerHic;

verus! {

/// Mathematical model of a [`Hic`]: the two injectors and the flag that
/// selects which of them is driven.
pub struct EncoderView {
    /// True while the preamble ("pubkey") injector is the one driven.
    pub on_pubkey: bool,
    /// The preamble injector.
    pub pubkey: InjectorView,
    /// The main-payload injector.
    pub payload: InjectorView,
}

impl EncoderView {
    /// Well-formedness: both injectors are well formed.
    pub open spec fn wf(self) -> bool {
        &&& self.pubkey.wf()
        &&& self.payload.wf()
    }

    /// The injector every call is delegated to.
    pub open spec fn current(self) -> InjectorView {
        if self.on_pubkey {
            self.pubkey
        } else {
            self.payload
        }
    }

    /// This encoder with the currently selected injector replaced by `iv`.
    pub open spec fn with_current(self, iv: InjectorView) -> EncoderView {
        if self.on_pubkey {
            EncoderView { pubkey: iv, ..self }
        } else {
            EncoderView { payload: iv, ..self }
        }
    }

    /// Starting a probe first switches from the preamble to the main payload
    /// if the preamble is exhausted -- the only place the switch happens --
    /// and then starts a probe on the selected injector.
    pub open spec fn start_probe(self) -> EncoderView {
        let switched = if self.on_pubkey && self.pubkey.done() {
            EncoderView { on_pubkey: false, ..self }
        } else {
            self
        };
        switched.with_current(switched.current().start_probe())
    }
}

/// A sequential encoder. It embeds an optional preamble payload ("pubkey")
/// and then a main payload into one carrier stream, delegating every call to
/// whichever of its two injectors is selected, and switching from the first
/// to the second at probe start once the first is exhausted.
pub struct Hic {
    on_pubkey: bool,
    pubkey: InnerHic,
    payload: InnerHic,
}

impl View for Hic {
    type V = EncoderView;

    closed spec fn view(&self) -> EncoderView {
        EncoderView { on_pubkey: self.on_pubkey, pubkey: self.pubkey@, payload: self.payload@ }
    }
}

impl Hic {
    /// Builds an encoder from a preamble injector and a main-payload
    /// injector, starting on the preamble.
    pub fn new(pubkey: InnerHic, payload: InnerHic) -> (r: Self)
        ensures
            r@ == (EncoderView { on_pubkey: true, pubkey: pubkey@, payload: payload@ }),
    {
        Self { on_pubkey: true, pubkey, payload }
    }

    /// Builds an encoder without a preamble: an empty preamble injector, the
    /// selection flag already on the main payload, and the main injector
    /// built over `data` with the given padding and offset.
    pub fn just_data(data: Vec<u8>, steps_to_skip: Option<usize>, offset: Option<usize>) -> (r: Self)
        ensures
            !r@.on_pubkey,
            r@.pubkey == InjectorView::initial(Seq::<u8>::empty(), 0, 0),
            r@.payload == InjectorView::initial(
                data@,
                config_or_zero(steps_to_skip),
                config_or_zero(offset),
            ),
            r@.wf(),
    {
        Self {
            on_pubkey: false,
            pubkey: InnerHic::new(Vec::new(), None, None),
            payload: InnerHic::new(data, steps_to_skip, offset),
        }
    }

    /// Switches from the preamble to the main payload if the preamble is
    /// exhausted, then starts a probe on the selected injector.
    pub fn start_pre_encoding(&mut self)
        ensures
            final(self)@ == old(self)@.start_probe(),
    {
        if self.pubkey.is_done() && self.on_pubkey {
            self.on_pubkey = false;
        }

        if self.on_pubkey {
            self.pubkey.start_pre_encoding();
        } else {
            self.payload.start_pre_encoding();
        }
    }

    /// Stops the probe on the selected injector, rolling it back to its
    /// checkpoint. The selected injector must be probing.
    pub fn stop_pre_encoding(&mut self)
        requires
            old(self)@.current().probing,
        ensures
            final(self)@ == old(self)@.with_current(old(self)@.current().stop_probe()),
    {
        if self.on_pubkey {
            self.pubkey.stop_pre_encoding();
        } else {
            self.payload.stop_pre_encoding();
        }
    }

    /// Enters committed mode on the selected injector.
    pub fn start_final_encoding(&mut self)
        ensures
            final(self)@ == old(self)@.with_current(old(self)@.current().start_commit()),
    {
        if self.on_pubkey {
            self.pubkey.start_final_encoding();
        } else {
            self.payload.start_final_encoding();
        }
    }

    /// Leaves committed mode on the selected injector.
    pub fn stop_final_encoding(&mut self)
        ensures
            final(self)@ == old(self)@.with_current(old(self)@.current().stop_commit()),
    {
        if self.on_pubkey {
            self.pubkey.stop_final_encoding();
        } else {
            self.payload.stop_final_encoding();
        }
    }

    /// Whether the selected injector will attempt embedding.
    pub fn is_enabled(&self) -> (r: bool)
        ensures
            r == self@.current().enabled(),
    {
        if self.on_pubkey {
            self.pubkey.is_enabled()
        } else {
            self.payload.is_enabled()
        }
    }

    /// Whether the selected injector has embedded its whole payload.
    pub fn is_done(&self) -> (r: bool)
        ensures
            r == self@.current().done(),
    {
        if self.on_pubkey {
            self.pubkey.is_done()
        } else {
            self.payload.is_done()
        }
    }

    /// Feeds one carrier value through the selected injector.
    pub fn inject_in_angle(&mut self, angle: u32) -> (new_angle: u32)
        requires
            old(self)@.wf(),
        ensures
            final(self)@ == old(self)@.with_current(old(self)@.current().inject_next(angle)),
            new_angle == old(self)@.current().inject_result(angle),
            final(self)@.wf(),
    {
        if self.on_pubkey {
            self.pubkey.inject_in_angle(angle)
        } else {
            self.payload.inject_in_angle(angle)
        }
    }
}

} // verus!
