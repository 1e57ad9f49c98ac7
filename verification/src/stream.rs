use vstd::prelude::*;
use vstd::string::*;

use crate::util::MessageType;

verus! {

/// The address on which the SRT source listens for the broadcaster.
pub const SRT_URI: &'static str = "srt://127.0.0.1:7001?mode=listener";

/// The stream id that the SRT source accepts until the key is first changed.
pub const INITIAL_STREAM_ID: &'static str = "penis";

/// How many HLS segments the sink keeps on disk.
pub const HLS_MAX_FILES: u32 = 7;

/// The target duration, in seconds, of an HLS segment.
pub const HLS_TARGET_DURATION: u32 = 3;

/// The states that the stream worker puts elements in.
#[derive(Clone, Copy, Debug, PartialEq, Eq, Structural)]
pub enum ElementState {
    Playing,
    Null,
}

/// A change that the stream worker makes to the pipeline.
pub enum StreamAction {
    /// Put the whole pipeline in this state.
    SetPipelineState(ElementState),
    /// Put the SRT source in this state.
    SetSourceState(ElementState),
    /// Set the stream id that the SRT source accepts.
    SetSourceStreamId(String),
}

/// Whether `actions` are the changes that `msg` makes, in order: starting or stopping sets
/// the whole pipeline's state; a new key stops the source, sets its stream id to the key
/// and starts the source again.
pub open spec fn stream_actions_match(msg: MessageType, actions: Seq<StreamAction>) -> bool {
    match msg {
        MessageType::STARTSTREAM => actions == seq![StreamAction::SetPipelineState(ElementState::Playing)],
        MessageType::STOPSTREAM => actions == seq![StreamAction::SetPipelineState(ElementState::Null)],
        MessageType::KEYCHANGE(id) => actions.len() == 3
            && actions[0] == StreamAction::SetSourceState(ElementState::Null)
            && (actions[1] matches StreamAction::SetSourceStreamId(s) && s@ == id@)
            && actions[2] == StreamAction::SetSourceState(ElementState::Playing),
    }
}

/// What the stream worker does with a message.
pub fn stream_actions(msg: MessageType) -> (actions: Vec<StreamAction>)
    ensures
        stream_actions_match(msg, actions@),
{
    let mut actions: Vec<StreamAction> = Vec::new();
    match msg {
        MessageType::STARTSTREAM => {
            actions.push(StreamAction::SetPipelineState(ElementState::Playing));
        },
        MessageType::STOPSTREAM => {
            actions.push(StreamAction::SetPipelineState(ElementState::Null));
        },
        MessageType::KEYCHANGE(id) => {
            actions.push(StreamAction::SetSourceState(ElementState::Null));
            actions.push(StreamAction::SetSourceStreamId(id));
            actions.push(StreamAction::SetSourceState(ElementState::Playing));
        },
    }
    actions
}

/// What the stream worker last did to its pipeline: the state it last put the whole
/// pipeline in, the state it last put the SRT source in, and the stream id it last gave
/// the source.
pub struct WorkerState {
    pub pipeline: ElementState,
    pub source: ElementState,
    pub stream_id: Seq<char>,
}

/// The worker right after it set up the pipeline: the pipeline and the source playing,
/// the source accepting `INITIAL_STREAM_ID`.
pub open spec fn initial_worker() -> WorkerState {
    WorkerState {
        pipeline: ElementState::Playing,
        source: ElementState::Playing,
        stream_id: INITIAL_STREAM_ID@,
    }
}

/// The worker after one change.
pub open spec fn apply_action(w: WorkerState, a: StreamAction) -> WorkerState {
    match a {
        StreamAction::SetPipelineState(st) => WorkerState { pipeline: st, ..w },
        StreamAction::SetSourceState(st) => WorkerState { source: st, ..w },
        StreamAction::SetSourceStreamId(id) => WorkerState { stream_id: id@, ..w },
    }
}

/// The worker after a series of changes, made in order.
pub open spec fn apply_actions(w: WorkerState, actions: Seq<StreamAction>) -> WorkerState
    decreases actions.len(),
{
    if actions.len() == 0 {
        w
    } else {
        apply_action(apply_actions(w, actions.drop_last()), actions.last())
    }
}

/// The worker after the changes of a series of messages, each series made in order.
pub open spec fn apply_all(w: WorkerState, batches: Seq<Seq<StreamAction>>) -> WorkerState
    decreases batches.len(),
{
    if batches.len() == 0 {
        w
    } else {
        apply_actions(apply_all(w, batches.drop_last()), batches.last())
    }
}

/// The worker after one message, in a few words: starting or stopping sets the pipeline's
/// state; a new key leaves the source playing with that key as its stream id.
pub open spec fn after_message(w: WorkerState, msg: MessageType) -> WorkerState {
    match msg {
        MessageType::STARTSTREAM => WorkerState { pipeline: ElementState::Playing, ..w },
        MessageType::STOPSTREAM => WorkerState { pipeline: ElementState::Null, ..w },
        MessageType::KEYCHANGE(k) => WorkerState { source: ElementState::Playing, stream_id: k@, ..w },
    }
}

/// The key of the last key change among `msgs`, or `init` where there is none.
pub open spec fn last_stream_id(msgs: Seq<MessageType>, init: Seq<char>) -> Seq<char>
    decreases msgs.len(),
{
    if msgs.len() == 0 {
        init
    } else {
        match msgs.last() {
            MessageType::KEYCHANGE(k) => k@,
            _ => last_stream_id(msgs.drop_last(), init),
        }
    }
}

/// The pipeline's state as the last start or stop among `msgs` left it: stopped after a
/// stop, playing after a start or where there is neither.
pub open spec fn last_pipeline_state(msgs: Seq<MessageType>) -> ElementState
    decreases msgs.len(),
{
    if msgs.len() == 0 {
        ElementState::Playing
    } else {
        match msgs.last() {
            MessageType::STARTSTREAM => ElementState::Playing,
            MessageType::STOPSTREAM => ElementState::Null,
            MessageType::KEYCHANGE(_) => last_pipeline_state(msgs.drop_last()),
        }
    }
}

/// The changes that `stream_actions` gives for a message take the worker to `after_message`.
pub proof fn lemma_message_actions(w: WorkerState, msg: MessageType, actions: Seq<StreamAction>)
    requires
        stream_actions_match(msg, actions),
    ensures
        apply_actions(w, actions) == after_message(w, msg),
{
    reveal_with_fuel(apply_actions, 4);
    match msg {
        MessageType::KEYCHANGE(k) => {
            assert(actions.drop_last().drop_last().drop_last() =~= Seq::<StreamAction>::empty());
            assert(actions.drop_last().drop_last().last() == actions[0]);
            assert(actions.drop_last().last() == actions[1]);
        },
        _ => {
            assert(actions.drop_last() =~= Seq::<StreamAction>::empty());
        },
    }
}

/// Whether a pad's name begins with `video`.
pub open spec fn has_video_prefix(name: Seq<char>) -> bool {
    name.len() >= 5 && name.subrange(0, 5) == "video"@
}

/// Whether a pad that the demuxer adds is linked to the H.264 parser: exactly the pads
/// whose name begins with `video`.
pub fn links_video_pad(name: &str) -> (r: bool)
    ensures
        r == has_video_prefix(name@),
{
    let prefix = "video";
    proof {
        reveal_strlit("video");
    }
    let n = name.unicode_len();
    if n < 5 {
        return false;
    }
    let mut i: usize = 0;
    while i < 5
        invariant
            i <= 5,
            n == name@.len(),
            n >= 5,
            prefix@ == "video"@,
            prefix@.len() == 5,
            forall|j: int| 0 <= j < i ==> name@[j] == prefix@[j],
        decreases 5 - i,
    {
        if name.get_char(i) != prefix.get_char(i) {
            assert(name@.subrange(0, 5)[i as int] != prefix@[i as int]);
            return false;
        }
        i = i + 1;
    }
    assert(name@.subrange(0, 5) =~= prefix@);
    true
}

} // verus!
