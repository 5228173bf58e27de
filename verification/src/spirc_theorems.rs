//! What holds of the protocol engine whatever it is fed: which frames it
//! ignores and which it answers, what it hands to the scrobble pipeline, and
//! how it shuts down.

use crate::config::{ConnectConfigView, SessionInfoView};
use crate::protocol::{FrameView, MessageType};
use crate::scrobbler::ScrobblerConfigView;
use crate::scrobbler_theorems::{lemma_repeated_track_fetched_once, metadata_fetches};
use crate::spirc::{
    lemma_progress_shrinks_backlog, Async, Polled, SpircCommand, SpircError, SpircTaskView,
    SpircView, FIRST_SEQUENCE_NUMBER,
};
use crate::util::SeqGenerator;
use vstd::prelude::*;

verus! {

/// A frame that this device sent itself changes nothing and has nothing sent.
pub proof fn lemma_own_frame_ignored(task: SpircTaskView, frame: FrameView, now: i64)
    requires
        frame.ident == task.ident,
    ensures
        task.handle_frame(frame, now) == task,
{
}

/// A frame that names recipients, and not this device among them, changes
/// nothing and has nothing sent.
pub proof fn lemma_frame_for_others_ignored(task: SpircTaskView, frame: FrameView, now: i64)
    requires
        frame.recipient.len() > 0,
        !frame.recipient.contains(task.ident),
    ensures
        task.handle_frame(frame, now) == task,
{
}

/// A `Hello` that is for this device is answered with exactly one frame: a
/// `Notify` to the sender of the `Hello` alone. Nothing else changes but the
/// sequence, which moves on by one.
pub proof fn lemma_hello_answered(task: SpircTaskView, frame: FrameView, now: i64)
    requires
        frame.typ == MessageType::Hello,
        task.addressed_by(frame),
    ensures
        ({
            let after = task.handle_frame(frame, now);
            let reply = task.frame(MessageType::Notify, seq![frame.ident], now);
            &&& after.sender == task.sender.push(reply)
            &&& reply.typ == MessageType::Notify
            &&& reply.recipient == seq![frame.ident]
            &&& reply.ident == task.ident
            &&& reply.seq_nr == task.sequence
            &&& after == (SpircTaskView {
                sender: after.sender,
                sequence: SeqGenerator::successor(task.sequence),
                ..task
            })
        }),
{
}

/// A `Notify` of a device that is not the active player changes nothing: the
/// scrobble pipeline does not hear of it.
pub proof fn lemma_inactive_notify_ignored(task: SpircTaskView, frame: FrameView, now: i64)
    requires
        frame.typ == MessageType::Notify,
        !frame.from_active_device(),
    ensures
        task.handle_frame(frame, now) == task,
{
}

/// Handling a frame never touches the frames that were sent before.
pub proof fn lemma_handle_frame_keeps_sent(task: SpircTaskView, frame: FrameView, now: i64)
    ensures
        task.sender.is_prefix_of(task.handle_frame(frame, now).sender),
{
}

/// An engine that is shut down does nothing but wait for its send queue to be
/// flushed: a poll changes neither the engine nor the handle, and the engine
/// is complete exactly when the queue is empty.
pub proof fn lemma_shut_down_waits_for_flush(task: SpircTaskView, handle: SpircView, now: i64)
    requires
        task.shutdown,
        !task.send_failed,
    ensures
        task.poll(handle, now) == (Polled {
            task,
            handle,
            outcome: Ok(
                if task.sender.len() == 0 {
                    Async::Ready
                } else {
                    Async::NotReady
                },
            ),
        }),
{
}

/// A request for shutdown that the engine takes up has a `Goodbye` broadcast
/// behind every frame that was sent before, and the engine does not complete
/// while any of them waits to be flushed.
pub proof fn lemma_shutdown_sends_goodbye(task: SpircTaskView, now: i64)
    ensures
        ({
            let after = task.handle_command(SpircCommand::Shutdown, now);
            &&& after.shutdown
            &&& after.sender == task.sender.push(
                task.frame(MessageType::Goodbye, Seq::empty(), now),
            )
            &&& !after.finished()
        }),
{
}

/// Every frame that the engine sends carries its device state, and carries
/// its playback state exactly where the device is the active player.
pub proof fn lemma_sent_frame_carries_state(
    task: SpircTaskView,
    typ: MessageType,
    recipient: Seq<Seq<char>>,
    now: i64,
)
    ensures
        ({
            let sent = task.send(typ, recipient, now);
            let frame = sent.sender.last();
            &&& sent.sender.len() == task.sender.len() + 1
            &&& frame.device_state == Some(task.device)
            &&& frame.state is Some <==> task.device.is_active
            &&& frame.state is Some ==> frame.state == Some(task.state)
            &&& frame.ident == task.ident
            &&& frame.state_update_id == now
        }),
{
}

/// Frames are numbered one after the other in the order in which they are
/// sent.
pub proof fn lemma_frames_numbered_in_order(
    task: SpircTaskView,
    first: MessageType,
    second: MessageType,
    to_first: Seq<Seq<char>>,
    to_second: Seq<Seq<char>>,
    t1: i64,
    t2: i64,
)
    ensures
        ({
            let sent = task.send(first, to_first, t1).send(second, to_second, t2);
            let n = task.sender.len() as int;
            &&& sent.sender.len() == n + 2
            &&& sent.sender[n].seq_nr == task.sequence
            &&& sent.sender[n + 1].seq_nr == SeqGenerator::successor(task.sequence)
            &&& task.sequence < u32::MAX ==> sent.sender[n + 1].seq_nr == task.sequence + 1
        }),
{
}

/// Three `Notify` frames of an active device that give a track, the same
/// track again and then another one as playing have the metadata of each
/// asked for exactly once.
pub proof fn lemma_notified_track_fetched_once(
    task: SpircTaskView,
    f1: FrameView,
    f2: FrameView,
    f3: FrameView,
    t1: i64,
    t2: i64,
    t3: i64,
)
    requires
        task.addressed_by(f1) && f1.playing_track() is Some,
        task.addressed_by(f2) && f2.playing_track() is Some,
        task.addressed_by(f3) && f3.playing_track() is Some,
        f1.playing_track() == f2.playing_track(),
        f1.playing_track() != f3.playing_track(),
        task.scrobbler.current_track_id != f1.playing_track(),
    ensures
        metadata_fetches(
            task.handle_frame(f1, t1).handle_frame(f2, t2).handle_frame(f3, t3).scrobbler.requests,
        ) == metadata_fetches(task.scrobbler.requests).push(f1.playing_track()->0).push(
            f3.playing_track()->0,
        ),
{
    lemma_repeated_track_fetched_once(
        task.scrobbler,
        f1.playing_track()->0,
        f3.playing_track()->0,
        t1,
        t2,
        t3,
    );
}

/// Within one round a frame is handled before a command is carried out: where
/// a `Hello` that is for this device and a request for shutdown wait
/// together, the answer to the `Hello` goes out before the `Goodbye`.
pub proof fn lemma_frame_before_command(task: SpircTaskView, handle: SpircView, now: i64)
    requires
        !task.shutdown,
        task.subscription.len() > 0,
        task.subscription[0].typ == MessageType::Hello,
        task.addressed_by(task.subscription[0]),
        handle.commands.len() > 0,
    ensures
        ({
            let after = task.work(handle, now).task;
            let answered = task.send(MessageType::Notify, seq![task.subscription[0].ident], now);
            &&& after.shutdown
            &&& after.sender == task.sender.push(
                task.frame(MessageType::Notify, seq![task.subscription[0].ident], now),
            ).push(answered.frame(MessageType::Goodbye, Seq::empty(), now))
            &&& after.subscription == task.subscription.drop_first()
            &&& task.work(handle, now).handle == handle.received().close()
        }),
{
}

/// An engine that was just made has sent exactly one frame: a `Hello` to
/// everybody, with the first sequence number. No frame waits to be handled,
/// and the engine is not shut down.
pub proof fn lemma_new_engine_says_hello(
    config: ConnectConfigView,
    session: SessionInfoView,
    scrobbler_config: ScrobblerConfigView,
    now: i64,
)
    ensures
        ({
            let task = SpircTaskView::initial(config, session, scrobbler_config).hello(now);
            &&& task.sender.len() == 1
            &&& task.sender[0].typ == MessageType::Hello
            &&& task.sender[0].seq_nr == FIRST_SEQUENCE_NUMBER
            &&& task.sender[0].recipient.len() == 0
            &&& task.sender[0].ident == session.device_id
            &&& task.subscription.len() == 0
            &&& !task.shutdown
        }),
{
}

/// How many of `frames` are of kind `typ`.
pub open spec fn count_of(frames: Seq<FrameView>, typ: MessageType) -> nat
    decreases frames.len(),
{
    if frames.len() == 0 {
        0
    } else {
        count_of(frames.drop_last(), typ) + if frames.last().typ == typ {
            1nat
        } else {
            0nat
        }
    }
}

/// One more frame adds to the count exactly where it is of the kind counted.
pub proof fn lemma_count_of_push(frames: Seq<FrameView>, frame: FrameView, typ: MessageType)
    ensures
        count_of(frames.push(frame), typ) == count_of(frames, typ) + if frame.typ == typ {
            1nat
        } else {
            0nat
        },
{
    assert(frames.push(frame).drop_last() =~= frames);
}

/// One round of the scheduling loop drops none of the frames that were sent
/// and changes none of them: what it sends joins the queue behind them.
pub proof fn lemma_turn_keeps_sent(task: SpircTaskView, handle: SpircView, now: i64)
    ensures
        task.sender.is_prefix_of(task.turn(handle, now).task.sender),
{
}

/// A poll drops none of the frames that were sent and changes none of them,
/// however many rounds it takes.
pub proof fn lemma_poll_keeps_sent(task: SpircTaskView, handle: SpircView, now: i64)
    ensures
        task.sender.is_prefix_of(task.poll(handle, now).task.sender),
    decreases task.backlog(handle),
{
    let turn = task.turn(handle, now);
    lemma_turn_keeps_sent(task, handle, now);
    if turn.report == Ok::<bool, SpircError>(true) && !turn.task.finished() {
        lemma_progress_shrinks_backlog(task, handle, now);
        lemma_poll_keeps_sent(turn.task, turn.handle, now);
        let last = turn.task.poll(turn.handle, now).task;
        assert(task.sender =~= last.sender.subrange(0, task.sender.len() as int)) by {
            assert(turn.task.sender =~= last.sender.subrange(0, turn.task.sender.len() as int));
            assert(task.sender =~= turn.task.sender.subrange(0, task.sender.len() as int));
        }
    }
}

/// A poll says `Goodbye` at most once: once where it takes up a request for
/// shutdown, and never where the engine is shut down already or no request
/// waits.
pub proof fn lemma_goodbye_sent_once(task: SpircTaskView, handle: SpircView, now: i64)
    ensures
        ({
            let before = count_of(task.sender, MessageType::Goodbye);
            let after = count_of(task.poll(handle, now).task.sender, MessageType::Goodbye);
            &&& before <= after <= before + 1
            &&& task.shutdown || handle.commands.len() == 0 ==> after == before
        }),
    decreases task.backlog(handle),
{
    let turn = task.turn(handle, now);
    let goodbye = MessageType::Goodbye;
    if !task.shutdown && !(task.subscription.len() == 0 && task.subscription_terminated) {
        let framed = task.subscription.len() > 0;
        let t1 = if framed {
            SpircTaskView {
                subscription: task.subscription.drop_first(),
                ..task
            }.handle_frame(task.subscription[0], now)
        } else {
            task
        };
        if t1.sender != task.sender {
            lemma_count_of_push(
                task.sender,
                task.frame(MessageType::Notify, seq![task.subscription[0].ident], now),
                goodbye,
            );
        }
        assert(count_of(t1.sender, goodbye) == count_of(task.sender, goodbye));
        if handle.commands.len() > 0 {
            lemma_count_of_push(t1.sender, t1.frame(goodbye, Seq::empty(), now), goodbye);
        }
    }
    if turn.report == Ok::<bool, SpircError>(true) && !turn.task.finished() {
        lemma_progress_shrinks_backlog(task, handle, now);
        lemma_goodbye_sent_once(turn.task, turn.handle, now);
    }
}

} // verus!
