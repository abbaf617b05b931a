//! The laws of the injection engine, stated over the mathematical models and
//! proved once and for all.

use vstd::prelude::*;

use crate::encoder::EncoderView;
use crate::injector::InjectorView;
use crate::injector::SENTINEL_ANGLE;

verus! {

/// The injector state after feeding the carrier values of `angles` through
/// it, one call each, in order.
pub open spec fn inject_all_next(m: InjectorView, angles: Seq<u32>) -> InjectorView
    decreases angles.len(),
{
    if angles.len() == 0 {
        m
    } else {
        inject_all_next(m.inject_next(angles[0]), angles.drop_first())
    }
}

/// The values returned while feeding the carrier values of `angles` through
/// the injector, one call each, in order.
pub open spec fn inject_all_results(m: InjectorView, angles: Seq<u32>) -> Seq<u32>
    decreases angles.len(),
{
    if angles.len() == 0 {
        Seq::<u32>::empty()
    } else {
        seq![m.inject_result(angles[0])] + inject_all_results(
            m.inject_next(angles[0]),
            angles.drop_first(),
        )
    }
}

/// Pass-through when inactive: with both mode flags off, an injection call
/// returns its carrier value unchanged and leaves the whole state unchanged.
/// A freshly constructed injector is in such a state.
pub proof fn lemma_pass_through_when_inactive(m: InjectorView, angle: u32)
    requires
        !m.enabled(),
    ensures
        m.inject_result(angle) == angle,
        m.inject_next(angle) == m,
{
}

/// Sentinel invariance: an active injector with offset and padding exhausted
/// and payload bits still to embed returns the sentinel carrier value
/// unchanged and does not move the cursor on it.
pub proof fn lemma_sentinel_invariance(m: InjectorView)
    requires
        m.enabled(),
        m.offset_counter >= m.offset,
        m.padding_counter == 0,
        !m.done(),
    ensures
        m.inject_result(SENTINEL_ANGLE) == SENTINEL_ANGLE,
        m.inject_next(SENTINEL_ANGLE).byte_index == m.byte_index,
        m.inject_next(SENTINEL_ANGLE).bit_index == m.bit_index,
{
}

/// Bit fidelity: when a call really embeds, the returned value carries the
/// payload bit under the cursor as its lowest bit, over the even base of the
/// carrier value -- so reading the low bits of the output stream back, in
/// order, recovers exactly the embedded bit sequence.
pub proof fn lemma_embedding_bit_fidelity(m: InjectorView, angle: u32)
    requires
        m.wf(),
        m.enabled(),
        m.offset_counter >= m.offset,
        m.padding_counter == 0,
        !m.done(),
        angle != SENTINEL_ANGLE,
    ensures
        m.inject_result(angle) % 2 == m.cursor_bit(),
        m.inject_result(angle) / 2 == angle / 2,
{
    let byte: u32 = m.data[m.byte_index as int] as u32;
    let shift: u32 = m.bit_index as u32;
    assert((byte >> shift) & 1 <= 1) by (bit_vector);
    assert(byte >> m.bit_index == byte >> shift);
    let base: int = (angle / 2) * 2;
    let bit: u32 = m.cursor_bit();
    assert(base + bit <= u32::MAX);
    assert((base + bit) % 2 == bit as int && (base + bit) / 2 == angle / 2) by (nonlinear_arith)
        requires
            base == (angle / 2) * 2,
            bit <= 1,
    ;
}

/// Offset delay: while the offset counter has not reached the configured
/// offset, injection calls on an active injector return their carrier values
/// unchanged and only count the offset up -- in particular the first
/// `offset` calls after construction never touch the cursor.
pub proof fn lemma_offset_delay(m: InjectorView, angles: Seq<u32>)
    requires
        m.enabled(),
        m.offset_counter + angles.len() <= m.offset,
    ensures
        inject_all_results(m, angles) =~= angles,
        inject_all_next(m, angles) == (InjectorView {
            offset_counter: m.offset_counter + angles.len(),
            ..m
        }),
    decreases angles.len(),
{
    if angles.len() == 0 {
    } else {
        lemma_offset_delay(m.inject_next(angles[0]), angles.drop_first());
    }
}

/// Padding spacing: after an embedding attempt has reset the padding counter
/// to the configured interval, exactly that many following calls on an
/// active, unexhausted injector pass their carrier values through unchanged
/// without touching the cursor, and the call after them attempts embedding
/// again on every non-sentinel carrier value.
pub proof fn lemma_padding_spacing(m: InjectorView, angles: Seq<u32>)
    requires
        m.enabled(),
        m.offset_counter >= m.offset,
        !m.done(),
        angles.len() == m.padding_counter,
    ensures
        inject_all_results(m, angles) =~= angles,
        inject_all_next(m, angles) == (InjectorView { padding_counter: 0, ..m }),
        forall|a: u32| a != SENTINEL_ANGLE ==> !inject_all_next(m, angles).is_pass_through(a),
    decreases angles.len(),
{
    if angles.len() == 0 {
    } else {
        lemma_padding_spacing(m.inject_next(angles[0]), angles.drop_first());
    }
}

/// Injection calls never touch the payload, the configuration, the mode
/// flags or the checkpoint: only the cursor and the two counters move.
pub proof fn lemma_inject_all_preserves_frame(m: InjectorView, angles: Seq<u32>)
    ensures
        inject_all_next(m, angles).data == m.data,
        inject_all_next(m, angles).probing == m.probing,
        inject_all_next(m, angles).committed == m.committed,
        inject_all_next(m, angles).padding == m.padding,
        inject_all_next(m, angles).offset == m.offset,
        inject_all_next(m, angles).saved_byte_index == m.saved_byte_index,
        inject_all_next(m, angles).saved_bit_index == m.saved_bit_index,
        inject_all_next(m, angles).saved_padding_counter == m.saved_padding_counter,
        inject_all_next(m, angles).saved_offset_counter == m.saved_offset_counter,
    decreases angles.len(),
{
    if angles.len() == 0 {
    } else {
        lemma_inject_all_preserves_frame(m.inject_next(angles[0]), angles.drop_first());
    }
}

/// Probe rollback idempotence: starting a probe, running any number of
/// injection calls on any carrier values, and stopping the probe leaves the
/// cursor and both counters exactly as they stood before the probe started,
/// with the probing flag off and the payload and configuration untouched.
pub proof fn lemma_probe_rollback(m: InjectorView, angles: Seq<u32>)
    ensures
        ({
            let probed = inject_all_next(m.start_probe(), angles);
            let restored = probed.stop_probe();
            &&& probed.probing
            &&& restored.byte_index == m.byte_index
            &&& restored.bit_index == m.bit_index
            &&& restored.padding_counter == m.padding_counter
            &&& restored.offset_counter == m.offset_counter
            &&& !restored.probing
            &&& restored.committed == m.committed
            &&& restored.data == m.data
            &&& restored.padding == m.padding
            &&& restored.offset == m.offset
        }),
{
    lemma_inject_all_preserves_frame(m.start_probe(), angles);
}

/// Exhaustion monotonicity: once the payload is exhausted, no sequence of
/// injection calls and no commit or probe start can un-exhaust it; only a
/// probe stop, rolling back to a checkpoint taken earlier, can.
pub proof fn lemma_exhaustion_monotonic(m: InjectorView, angles: Seq<u32>)
    requires
        m.done(),
    ensures
        inject_all_next(m, angles).done(),
        m.start_commit().done(),
        m.stop_commit().done(),
        m.start_probe().done(),
    decreases angles.len(),
{
    if angles.len() == 0 {
    } else {
        lemma_exhaustion_monotonic(m.inject_next(angles[0]), angles.drop_first());
    }
}

/// Sequential switch: when the preamble injector is exhausted and still
/// selected, the next probe start -- and only a probe start -- hands the
/// stream over to the main-payload injector and starts the probe there,
/// leaving the preamble injector as it is.
pub proof fn lemma_sequential_switch(e: EncoderView)
    requires
        e.on_pubkey,
        e.pubkey.done(),
    ensures
        !e.start_probe().on_pubkey,
        e.start_probe().payload == e.payload.start_probe(),
        e.start_probe().pubkey == e.pubkey,
{
}

} // verus!
