//! What holds of the frame loop over any run of it: the fence of a slot
//! gates every reuse of its command buffer, and a minimized window keeps
//! the loop off the device.

use crate::vk;
use crate::vk_engine::frame_data::{next_frame, FRAME_OVERLAP};
use crate::vk_engine::{
    rerecorded_buffer, rerecords, stopped_after, FrameAction, FrameError, FrameEvent, LoopAction,
    VulkanEngine, WindowEvent, MINIMIZED_SLEEP_MS,
};
use vstd::prelude::*;

verus! {

/// The engine after the host has reported `events` to `draw`, one by one.
pub open spec fn after_all(e: VulkanEngine, events: Seq<FrameEvent>) -> VulkanEngine
    decreases events.len(),
{
    if events.len() == 0 {
        e
    } else {
        after_all(e, events.drop_last()).draw_spec(events.last()).0
    }
}

/// What `draw` answers to the last of `events`, after the host has
/// reported those before it.
pub open spec fn last_answer(e: VulkanEngine, events: Seq<FrameEvent>) -> Result<
    FrameAction,
    FrameError,
> {
    after_all(e, events.drop_last()).draw_spec(events.last()).1
}

/// `draw` keeps an engine well-formed, whatever the host reports.
pub proof fn lemma_draw_keeps_wf(e: VulkanEngine, event: FrameEvent)
    requires
        e.wf(),
    ensures
        e.draw_spec(event).0.wf(),
{
}

/// An engine stays well-formed over any run of `draw`.
pub proof fn lemma_wf_always(e: VulkanEngine, events: Seq<FrameEvent>)
    requires
        e.wf(),
    ensures
        after_all(e, events).wf(),
    decreases events.len(),
{
    if events.len() > 0 {
        lemma_wf_always(e, events.drop_last());
        lemma_draw_keeps_wf(after_all(e, events.drop_last()), events.last());
    }
}

/// How the mark of a slot moves in one call of `draw`.
///
/// A slot becomes marked as in flight only when the host reports that the
/// submission of its command buffer succeeded, and every such report marks
/// it. The mark is taken off only when the host reports that the wait for
/// the fence of that slot succeeded. So a slot is marked from the
/// submission of its command buffer until the host has seen the fence of
/// that submission signalled.
pub proof fn lemma_mark_follows_fence(e: VulkanEngine, event: FrameEvent, k: int)
    requires
        e.wf(),
        0 <= k < FRAME_OVERLAP,
    ensures
        ({
            let after = e.draw_spec(event).0;
            &&& !e.in_flight[k] && after.in_flight[k] ==> e.is_initialized && e.phase is Submitting
                && event == FrameEvent::Done(vk::SUCCESS) && k == e.slot()
            &&& e.is_initialized && e.phase is Submitting && event == FrameEvent::Done(vk::SUCCESS)
                ==> after.in_flight[e.slot()]
            &&& e.in_flight[k] && !after.in_flight[k] ==> e.is_initialized
                && e.phase is WaitingFence && event == FrameEvent::Done(vk::SUCCESS) && k
                == e.slot()
        }),
{
}

/// The fence of a slot gates every reuse of its command buffer.
///
/// Over any run of `draw` from a well-formed engine: whenever `draw` hands
/// out a call that resets, begins or records a command buffer, it is the
/// command buffer of the slot of the frame in progress, and that slot is
/// not marked as in flight: the host has seen the fence of its last
/// submission signalled, or the slot was never submitted.
pub proof fn lemma_fence_gates_reuse(e: VulkanEngine, events: Seq<FrameEvent>)
    requires
        e.wf(),
        events.len() > 0,
    ensures
        ({
            let after = after_all(e, events);
            let answer = last_answer(e, events);
            answer is Ok && rerecords(answer->Ok_0) ==> rerecorded_buffer(answer->Ok_0)
                == after.current().main_command_buffer && !after.in_flight[after.slot()]
        }),
{
    lemma_wf_always(e, events.drop_last());
}

/// The wait for a fence is handed out only where a submission can signal
/// it: a slot whose fence was reset by a frame that never submitted is not
/// waited for, and is not in flight either. The mark of a reset fence is
/// set by a successful reset and taken off by a successful submission.
pub proof fn lemma_no_wait_on_a_dead_fence(e: VulkanEngine, event: FrameEvent)
    requires
        e.wf(),
    ensures
        ({
            let (after, answer) = e.draw_spec(event);
            &&& answer is Ok && answer->Ok_0 is WaitForFence ==> !e.fence_reset[e.slot()]
            &&& forall|k: int|
                0 <= k < FRAME_OVERLAP ==> #[trigger] after.fence_reset[k]
                    ==> !after.in_flight[k]
            &&& forall|k: int|
                0 <= k < FRAME_OVERLAP && !e.fence_reset[k] && #[trigger] after.fence_reset[k]
                    ==> e.phase is ResettingFence && event == FrameEvent::Done(vk::SUCCESS) && k
                    == e.slot()
            &&& forall|k: int|
                0 <= k < FRAME_OVERLAP && e.fence_reset[k] && !#[trigger] after.fence_reset[k]
                    ==> e.phase is Submitting && event == FrameEvent::Done(vk::SUCCESS) && k
                    == e.slot()
        }),
{
}

/// The engine before the host reports the event at position `n`.
pub open spec fn state_at(e: VulkanEngine, events: Seq<FrameEvent>, n: int) -> VulkanEngine {
    after_all(e, events.take(n))
}

/// Whether the event at position `n` reports the successful wait for the
/// fence of slot `k`.
pub open spec fn fence_seen_at(e: VulkanEngine, events: Seq<FrameEvent>, n: int, k: int) -> bool {
    let s = state_at(e, events, n);
    s.is_initialized && s.phase is WaitingFence && s.slot() == k && events[n] == FrameEvent::Done(
        vk::SUCCESS,
    )
}

/// Whether the event at position `n` reports the successful submission of
/// the command buffer of slot `k`.
pub open spec fn submitted_at(e: VulkanEngine, events: Seq<FrameEvent>, n: int, k: int) -> bool {
    let s = state_at(e, events, n);
    s.is_initialized && s.phase is Submitting && s.slot() == k && events[n] == FrameEvent::Done(
        vk::SUCCESS,
    )
}

/// Whether the answer to the event at position `n` is a call that resets,
/// begins or records the command buffer of slot `k`.
pub open spec fn reused_at(e: VulkanEngine, events: Seq<FrameEvent>, n: int, k: int) -> bool {
    let s = state_at(e, events, n);
    let answer = s.draw_spec(events[n]).1;
    answer is Ok && rerecords(answer->Ok_0) && s.slot() == k
}

proof fn lemma_state_steps(e: VulkanEngine, events: Seq<FrameEvent>, n: int)
    requires
        0 <= n < events.len(),
    ensures
        state_at(e, events, n + 1) == state_at(e, events, n).draw_spec(events[n]).0,
{
    assert(events.take(n + 1).drop_last() =~= events.take(n));
    assert(events.take(n + 1).last() == events[n]);
}

proof fn lemma_mark_cleared_between(
    e: VulkanEngine,
    events: Seq<FrameEvent>,
    a: int,
    b: int,
    k: int,
)
    requires
        e.wf(),
        0 <= a <= b <= events.len(),
        0 <= k < FRAME_OVERLAP,
        state_at(e, events, a).in_flight[k],
        !state_at(e, events, b).in_flight[k],
    ensures
        exists|m: int| a <= m < b && fence_seen_at(e, events, m, k),
    decreases b - a,
{
    if a < b {
        let before = state_at(e, events, b - 1);
        lemma_state_steps(e, events, b - 1);
        if before.in_flight[k] {
            lemma_wf_always(e, events.take(b - 1));
            lemma_mark_follows_fence(before, events[b - 1], k);
            assert(fence_seen_at(e, events, b - 1, k));
        } else {
            lemma_mark_cleared_between(e, events, a, b - 1, k);
        }
    }
}

/// Between the submission of a command buffer and its next reuse the host
/// has seen the fence of that submission signalled.
///
/// Over any run of `draw` from a well-formed engine: if the event at
/// position `i` reports that the command buffer of slot `k` was submitted,
/// and the answer to a later event at position `j` resets, begins or
/// records the command buffer of that slot, then an event between the two
/// reports the successful wait for the fence of slot `k`.
pub proof fn lemma_wait_between_submit_and_reuse(
    e: VulkanEngine,
    events: Seq<FrameEvent>,
    i: int,
    j: int,
    k: int,
)
    requires
        e.wf(),
        0 <= i < j < events.len(),
        0 <= k < FRAME_OVERLAP,
        submitted_at(e, events, i, k),
        reused_at(e, events, j, k),
    ensures
        exists|m: int| i < m < j && fence_seen_at(e, events, m, k),
{
    lemma_state_steps(e, events, i);
    lemma_wf_always(e, events.take(i));
    lemma_mark_follows_fence(state_at(e, events, i), events[i], k);
    lemma_wf_always(e, events.take(j));
    assert(!state_at(e, events, j).in_flight[k]);
    lemma_mark_cleared_between(e, events, i + 1, j, k);
}

/// A frame on a slot whose fence may be signalled begins with the wait for
/// that fence, and only a successful wait leads on.
pub proof fn lemma_frame_begins_with_wait(e: VulkanEngine)
    requires
        e.wf(),
        e.is_initialized,
        e.phase is Idle,
        !e.fence_reset[e.slot()],
    ensures
        e.draw_spec(FrameEvent::Start).1 == Ok::<FrameAction, FrameError>(
            FrameAction::WaitForFence {
                fence: e.current().render_fence,
                timeout: crate::vk_engine::FENCE_TIMEOUT_NS,
            },
        ),
        forall|code: i32|
            code != vk::SUCCESS ==> (#[trigger] e.draw_spec(FrameEvent::Start).0.draw_spec(
                FrameEvent::Done(code),
            )).1 is Err,
{
}

/// What the host reports over one frame in which every call succeeds and
/// the swapchain hands out the image `image_index`.
pub open spec fn smooth_frame(image_index: u32) -> Seq<FrameEvent> {
    let ok = FrameEvent::Done(vk::SUCCESS);
    seq![
        FrameEvent::Start,
        ok,
        ok,
        FrameEvent::Acquired { code: vk::SUCCESS, image_index },
        ok,
        ok,
        ok,
        ok,
        ok,
        ok,
    ]
}

proof fn lemma_after_push(e: VulkanEngine, events: Seq<FrameEvent>, event: FrameEvent)
    ensures
        after_all(e, events.push(event)) == after_all(e, events).draw_spec(event).0,
{
    assert(events.push(event).drop_last() =~= events);
}

/// A frame in which every call succeeds counts one frame and moves on to
/// the other slot.
///
/// From an engine between frames, such a frame waits once, for the fence
/// of its slot, and submits once, the command buffer of that slot with
/// that fence. It leaves the engine between frames again, with the slot
/// marked as in flight and the frame number advanced by one.
pub proof fn lemma_smooth_frame(e: VulkanEngine, image_index: u32)
    requires
        e.wf(),
        e.is_initialized,
        e.phase is Idle,
        !e.fence_reset[e.slot()],
        image_index < e.swapchain_images@.len(),
    ensures
        ({
            let events = smooth_frame(image_index);
            let after = after_all(e, events);
            &&& after.wf()
            &&& after.phase is Idle
            &&& after.frame_number == next_frame(e.frame_number)
            &&& after.slot() != e.slot()
            &&& after.in_flight[e.slot()]
            &&& last_answer(e, events.take(1)) == Ok::<FrameAction, FrameError>(
                FrameAction::WaitForFence {
                    fence: e.current().render_fence,
                    timeout: crate::vk_engine::FENCE_TIMEOUT_NS,
                },
            )
            &&& last_answer(e, events.take(8)) == Ok::<FrameAction, FrameError>(
                FrameAction::Submit {
                    queue: e.graphics_queue,
                    submit: e.frame_submit(),
                    fence: e.current().render_fence,
                },
            )
            &&& last_answer(e, events) == Ok::<FrameAction, FrameError>(FrameAction::FrameDone)
            &&& forall|n: int|
                0 < n <= events.len() && n != 1 ==> !(#[trigger] last_answer(
                    e,
                    events.take(n),
                ) matches Ok(FrameAction::WaitForFence { .. }))
            &&& forall|n: int|
                0 < n <= events.len() && n != 8 ==> !(#[trigger] last_answer(
                    e,
                    events.take(n),
                ) matches Ok(FrameAction::Submit { .. }))
        }),
{
    let ok = FrameEvent::Done(vk::SUCCESS);
    let acquired = FrameEvent::Acquired { code: vk::SUCCESS, image_index };
    let events = smooth_frame(image_index);
    let t0 = Seq::<FrameEvent>::empty();
    let t1 = t0.push(FrameEvent::Start);
    let t2 = t1.push(ok);
    let t3 = t2.push(ok);
    let t4 = t3.push(acquired);
    let t5 = t4.push(ok);
    let t6 = t5.push(ok);
    let t7 = t6.push(ok);
    let t8 = t7.push(ok);
    let t9 = t8.push(ok);
    let t10 = t9.push(ok);
    assert(t10 =~= events);
    assert(events.take(1) =~= t1);
    assert(events.take(2) =~= t2);
    assert(events.take(3) =~= t3);
    assert(events.take(4) =~= t4);
    assert(events.take(5) =~= t5);
    assert(events.take(6) =~= t6);
    assert(events.take(7) =~= t7);
    assert(events.take(8) =~= t8);
    assert(events.take(9) =~= t9);
    assert(events.take(10) =~= t10);
    assert(t1.drop_last() =~= t0);
    assert(t2.drop_last() =~= t1);
    assert(t3.drop_last() =~= t2);
    assert(t4.drop_last() =~= t3);
    assert(t5.drop_last() =~= t4);
    assert(t6.drop_last() =~= t5);
    assert(t7.drop_last() =~= t6);
    assert(t8.drop_last() =~= t7);
    assert(t9.drop_last() =~= t8);
    assert(t10.drop_last() =~= t9);
    let s0 = e;
    assert(after_all(e, t0) == s0);
    lemma_after_push(e, t0, FrameEvent::Start);
    let s1 = s0.draw_spec(FrameEvent::Start).0;
    lemma_after_push(e, t1, ok);
    let s2 = s1.draw_spec(ok).0;
    lemma_after_push(e, t2, ok);
    let s3 = s2.draw_spec(ok).0;
    lemma_after_push(e, t3, acquired);
    let s4 = s3.draw_spec(acquired).0;
    lemma_after_push(e, t4, ok);
    let s5 = s4.draw_spec(ok).0;
    lemma_after_push(e, t5, ok);
    let s6 = s5.draw_spec(ok).0;
    lemma_after_push(e, t6, ok);
    let s7 = s6.draw_spec(ok).0;
    lemma_after_push(e, t7, ok);
    let s8 = s7.draw_spec(ok).0;
    lemma_after_push(e, t8, ok);
    let s9 = s8.draw_spec(ok).0;
    lemma_after_push(e, t9, ok);
    let s10 = s9.draw_spec(ok).0;
    assert(after_all(e, events) == s10);
    lemma_wf_always(e, events);
}

/// The engine after some passes of the main loop, each over its own
/// events.
pub open spec fn after_passes(e: VulkanEngine, passes: Seq<Seq<WindowEvent>>) -> VulkanEngine
    decreases passes.len(),
{
    if passes.len() == 0 {
        e
    } else {
        after_passes(e, passes.drop_last()).after_events(passes.last())
    }
}

proof fn lemma_stays_stopped(stopped: bool, events: Seq<WindowEvent>)
    requires
        stopped,
        !events.contains(WindowEvent::Restored),
    ensures
        stopped_after(stopped, events),
    decreases events.len(),
{
    if events.len() > 0 {
        assert(events[events.len() - 1] == events.last());
        assert forall|j: int| 0 <= j < events.drop_last().len() implies events.drop_last()[j]
            != WindowEvent::Restored by {
            assert(events[j] == events.drop_last()[j]);
        }
        lemma_stays_stopped(stopped, events.drop_last());
    }
}

/// While the window stays minimized the loop does nothing but sleep.
///
/// From an engine with rendering stopped, over any number of passes in
/// which the window is not restored: every pass asks for a sleep, and the
/// engine ends where it began in the frame loop, with no call handed out
/// and no frame counted.
pub proof fn lemma_minimized_loop_sleeps(e: VulkanEngine, passes: Seq<Seq<WindowEvent>>)
    requires
        e.stop_rendering,
        forall|p: int|
            0 <= p < passes.len() ==> !(#[trigger] passes[p]).contains(WindowEvent::Restored),
    ensures
        after_passes(e, passes).stop_rendering,
        after_passes(e, passes).loop_action() == (LoopAction::Sleep { millis: MINIMIZED_SLEEP_MS }),
        after_passes(e, passes).frame_number == e.frame_number,
        after_passes(e, passes).phase == e.phase,
        after_passes(e, passes).in_flight == e.in_flight,
        after_passes(e, passes).fence_reset == e.fence_reset,
        after_passes(e, passes).image_index == e.image_index,
    decreases passes.len(),
{
    if passes.len() > 0 {
        assert forall|p: int| 0 <= p < passes.drop_last().len() implies !(
        #[trigger] passes.drop_last()[p]).contains(WindowEvent::Restored) by {
            assert(passes.drop_last()[p] == passes[p]);
        }
        lemma_minimized_loop_sleeps(e, passes.drop_last());
        lemma_stays_stopped(true, passes.last());
    }
}

} // verus!
