//! The single-payload bit injector and its mathematical model.

use vstd::prelude::*;

verus! {

/// The reserved carrier value that never carries a hidden bit: its odd/even
/// partner lies outside the valid range of the carrier domain.
pub const SENTINEL_ANGLE: u32 = 6;

/// Mathematical model of an [`InnerHic`]: the payload, the two mode flags,
/// the cursor, the padding and offset configuration with their counters, and
/// the checkpoint taken when a probe begins.
pub struct InjectorView {
    /// The payload bytes; bits are consumed byte by byte, least-significant
    /// bit of each byte first.
    pub data: Seq<u8>,
    /// True between a probe start and the matching probe stop.
    pub probing: bool,
    /// True between a commit start and the matching commit stop.
    pub committed: bool,
    /// Index of the payload byte the cursor stands on; equal to
    /// `data.len()` once the whole payload has been embedded.
    pub byte_index: nat,
    /// Bit position inside the current payload byte, always below 8.
    pub bit_index: nat,
    /// Carrier values still to pass through before the next embedding
    /// attempt; counts down to zero.
    pub padding_counter: nat,
    /// Configured padding interval: untouched carrier values between two
    /// consecutive embedding attempts.
    pub padding: nat,
    /// Carrier values passed through so far on account of the start offset;
    /// counts up to `offset` and then stays there.
    pub offset_counter: nat,
    /// Configured start offset: leading carrier values always passed through
    /// before any embedding logic runs.
    pub offset: nat,
    /// Checkpointed `byte_index`, restored when a probe stops.
    pub saved_byte_index: nat,
    /// Checkpointed `bit_index`, restored when a probe stops.
    pub saved_bit_index: nat,
    /// Checkpointed `padding_counter`, restored when a probe stops.
    pub saved_padding_counter: nat,
    /// Checkpointed `offset_counter`, restored when a probe stops.
    pub saved_offset_counter: nat,
}

impl InjectorView {
    /// Well-formedness: the cursor and its checkpoint stay inside the
    /// payload, and bit positions stay inside a byte.
    pub open spec fn wf(self) -> bool {
        &&& self.bit_index < 8
        &&& self.byte_index <= self.data.len()
        &&& self.saved_bit_index < 8
        &&& self.saved_byte_index <= self.data.len()
    }

    /// The state of a freshly constructed injector: cursor at the origin,
    /// counters zeroed, both mode flags off.
    pub open spec fn initial(data: Seq<u8>, padding: nat, offset: nat) -> InjectorView {
        InjectorView {
            data,
            probing: false,
            committed: false,
            byte_index: 0,
            bit_index: 0,
            padding_counter: 0,
            padding,
            offset_counter: 0,
            offset,
            saved_byte_index: 0,
            saved_bit_index: 0,
            saved_padding_counter: 0,
            saved_offset_counter: 0,
        }
    }

    /// An injector attempts embedding iff at least one mode flag is set.
    pub open spec fn enabled(self) -> bool {
        self.probing || self.committed
    }

    /// The payload is exhausted once the cursor has moved past its last byte.
    pub open spec fn done(self) -> bool {
        self.byte_index >= self.data.len()
    }

    /// The payload bit under the cursor: bit `bit_index` of byte
    /// `byte_index`, counted from the least-significant end.
    pub open spec fn cursor_bit(self) -> u32 {
        ((self.data[self.byte_index as int] as u32) >> self.bit_index) & 1
    }

    /// The cursor moved forward by one bit, rolling over into the next byte
    /// after the most-significant bit.
    pub open spec fn advanced_cursor(self) -> InjectorView {
        if self.bit_index == 7 {
            InjectorView { byte_index: self.byte_index + 1, bit_index: 0, ..self }
        } else {
            InjectorView { bit_index: self.bit_index + 1, ..self }
        }
    }

    /// Starting a probe checkpoints the cursor and both counters and raises
    /// the probing flag.
    pub open spec fn start_probe(self) -> InjectorView {
        InjectorView {
            probing: true,
            saved_byte_index: self.byte_index,
            saved_bit_index: self.bit_index,
            saved_padding_counter: self.padding_counter,
            saved_offset_counter: self.offset_counter,
            ..self
        }
    }

    /// Stopping a probe rolls the cursor and both counters back to the
    /// checkpoint and clears the probing flag.
    pub open spec fn stop_probe(self) -> InjectorView {
        InjectorView {
            probing: false,
            byte_index: self.saved_byte_index,
            bit_index: self.saved_bit_index,
            padding_counter: self.saved_padding_counter,
            offset_counter: self.saved_offset_counter,
            ..self
        }
    }

    /// Starting a commit only raises the committed flag.
    pub open spec fn start_commit(self) -> InjectorView {
        InjectorView { committed: true, ..self }
    }

    /// Stopping a commit only clears the committed flag; nothing is rolled
    /// back.
    pub open spec fn stop_commit(self) -> InjectorView {
        InjectorView { committed: false, ..self }
    }

    /// The carrier value with its lowest bit overwritten by the payload bit
    /// under the cursor.
    pub open spec fn embedded_angle(self, angle: u32) -> u32 {
        ((angle / 2) * 2 + self.cursor_bit()) as u32
    }

    /// Which action one injection call takes from this state on this angle.
    pub open spec fn is_pass_through(self, angle: u32) -> bool {
        ||| !self.enabled()
        ||| self.offset_counter < self.offset
        ||| self.done()
        ||| self.padding_counter > 0
        ||| angle == SENTINEL_ANGLE
    }

    /// The value one injection call returns: the angle itself on every
    /// pass-through, otherwise the angle with the payload bit embedded.
    pub open spec fn inject_result(self, angle: u32) -> u32 {
        if self.is_pass_through(angle) {
            angle
        } else {
            self.embedded_angle(angle)
        }
    }

    /// The state after one injection call.
    pub open spec fn inject_next(self, angle: u32) -> InjectorView {
        if !self.enabled() {
            self
        } else if self.offset_counter < self.offset {
            InjectorView { offset_counter: self.offset_counter + 1, ..self }
        } else if self.done() {
            self
        } else if self.padding_counter > 0 {
            InjectorView { padding_counter: (self.padding_counter - 1) as nat, ..self }
        } else if angle == SENTINEL_ANGLE {
            InjectorView { padding_counter: self.padding, ..self }
        } else {
            InjectorView { padding_counter: self.padding, ..self.advanced_cursor() }
        }
    }
}

/// A single-payload bit injector. It is driven one carrier value at a time
/// through [`InnerHic::inject_in_angle`]; probe and commit phases are
/// entered and left through the four phase-control methods.
pub struct InnerHic {
    /// The payload to embed.
    pub data: Vec<u8>,

    pre_encoding: bool,
    booked_byte_index: usize,
    booked_bit_index: usize,
    booked_skipped_steps: usize,
    booked_offset: usize,

    final_encoding: bool,
    current_byte_index: usize,
    current_bit_index: usize,

    current_padding: usize,
    padding: usize,

    current_offset: usize,
    offset: usize,
}

impl View for InnerHic {
    type V = InjectorView;

    closed spec fn view(&self) -> InjectorView {
        InjectorView {
            data: self.data@,
            probing: self.pre_encoding,
            committed: self.final_encoding,
            byte_index: self.current_byte_index as nat,
            bit_index: self.current_bit_index as nat,
            padding_counter: self.current_padding as nat,
            padding: self.padding as nat,
            offset_counter: self.current_offset as nat,
            offset: self.offset as nat,
            saved_byte_index: self.booked_byte_index as nat,
            saved_bit_index: self.booked_bit_index as nat,
            saved_padding_counter: self.booked_skipped_steps as nat,
            saved_offset_counter: self.booked_offset as nat,
        }
    }
}

/// The padding or offset configuration an optional argument stands for:
/// the value given, or zero when none was.
pub open spec fn config_or_zero(c: Option<usize>) -> nat {
    match c {
        Some(v) => v as nat,
        None => 0,
    }
}

impl InnerHic {
    /// Builds an injector over `data`, with `steps_to_skip` carrier values
    /// passed through between consecutive embedding attempts (default 0) and
    /// `offset` leading carrier values always passed through (default 0).
    pub fn new(data: Vec<u8>, steps_to_skip: Option<usize>, offset: Option<usize>) -> (r: Self)
        ensures
            r@ == InjectorView::initial(data@, config_or_zero(steps_to_skip), config_or_zero(offset)),
            r@.wf(),
    {
        InnerHic {
            data,

            pre_encoding: false,
            booked_byte_index: 0,
            booked_bit_index: 0,
            booked_skipped_steps: 0,
            booked_offset: 0,

            final_encoding: false,

            current_byte_index: 0,
            current_bit_index: 0,

            current_padding: 0,
            padding: match steps_to_skip {
                Some(p) => p,
                None => 0,
            },

            current_offset: 0,
            offset: match offset {
                Some(o) => o,
                None => 0,
            },
        }
    }

    /// Whether the injector will attempt embedding: some mode flag is set.
    pub fn is_enabled(&self) -> (r: bool)
        ensures
            r == self@.enabled(),
    {
        self.pre_encoding || self.final_encoding
    }

    /// Whether the whole payload has been embedded.
    pub fn is_done(&self) -> (r: bool)
        ensures
            r == self@.done(),
    {
        self.current_byte_index >= self.data.len()
    }

    /// Checkpoints the cursor and both counters, then enters probing mode.
    pub fn start_pre_encoding(&mut self)
        ensures
            final(self)@ == old(self)@.start_probe(),
    {
        self.booked_byte_index = self.current_byte_index;
        self.booked_bit_index = self.current_bit_index;

        self.booked_skipped_steps = self.current_padding;
        self.booked_offset = self.current_offset;

        self.pre_encoding = true;
    }

    /// Rolls the cursor and both counters back to the checkpoint taken when
    /// probing began, then leaves probing mode. Calling this without a
    /// matching probe start is a caller error, ruled out by the
    /// precondition.
    pub fn stop_pre_encoding(&mut self)
        requires
            old(self)@.probing,
        ensures
            final(self)@ == old(self)@.stop_probe(),
    {
        self.current_byte_index = self.booked_byte_index;
        self.current_bit_index = self.booked_bit_index;

        self.current_padding = self.booked_skipped_steps;
        self.current_offset = self.booked_offset;

        self.pre_encoding = false;
    }

    /// Enters committed mode; cursor advances made in it are permanent.
    pub fn start_final_encoding(&mut self)
        ensures
            final(self)@ == old(self)@.start_commit(),
    {
        self.final_encoding = true;
    }

    /// Leaves committed mode; nothing is rolled back.
    pub fn stop_final_encoding(&mut self)
        ensures
            final(self)@ == old(self)@.stop_commit(),
    {
        self.final_encoding = false;
    }

    /// Feeds one carrier value through the injector. Inactive, offset,
    /// exhausted, padding and sentinel calls return the angle unchanged;
    /// otherwise the angle comes back with its lowest bit overwritten by the
    /// next payload bit and the cursor moves one bit forward.
    pub fn inject_in_angle(&mut self, angle: u32) -> (new_angle: u32)
        requires
            old(self)@.wf(),
        ensures
            final(self)@ == old(self)@.inject_next(angle),
            new_angle == old(self)@.inject_result(angle),
            final(self)@.wf(),
    {
        if !self.is_enabled() {
            return angle;
        }

        if self.current_offset < self.offset {
            self.current_offset += 1;
            return angle;
        }

        if self.is_done() {
            return angle;
        }

        if self.current_padding > 0 {
            self.current_padding -= 1;
            return angle;
        }

        self.current_padding = self.padding;

        if angle == SENTINEL_ANGLE {
            return angle;
        }

        let sub_angle = (angle / 2) * 2;

        let shifted: u32 = (self.data[self.current_byte_index] as u32) >> self.current_bit_index;
        let injected_value: u32 = shifted & 1;
        assert(shifted & 1 <= 1) by (bit_vector);
        self.current_bit_index += 1;
        if self.current_bit_index == 8 {
            proof {
                // The payload length fits in usize, so the byte index,
                // still below it here, can be incremented.
                assert(self.data@.len() == self.data.len());
            }
            self.current_byte_index += 1;
            self.current_bit_index = 0;
        }

        sub_angle + injected_value
    }
}

} // verus!
