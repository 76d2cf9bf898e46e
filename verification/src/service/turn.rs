//! Sequences one turn of the conversation.
//!
//! A turn is driven from outside: the caller hands in what happened (an
//! [`Event`]) and is told what to do next (an [`Action`]). The executor does
//! the deciding in between. It appends to the history, builds the request,
//! splits the reply, and walks the segments one by one: expression first,
//! then synthesis, then playback, and only then the next segment.
//!
//! At most one turn is in flight. A trigger that arrives while a turn runs is
//! answered with [`Action::Ignored`] and changes nothing, as is any other
//! event that does not fit the point the turn has reached.
//!
//! A segment whose expression is already shown, and is not the baseline, has
//! nothing to send: the executor goes straight to its synthesis.
//!
//! A failure of the model ends the turn before anything is appended for the
//! assistant. A failure of synthesis or playback ends the turn and leaves the
//! remaining segments unspoken. A failure to send the expression ends
//! nothing: the segment is spoken all the same, and the expression counts as
//! not applied.

use crate::history::{appended, window_of, History};
use crate::model::conversation::{Message, MessageView, Role};
use crate::model::emotion::Emotion;
use crate::model::gemini_dto::{Content, ContentView};
use crate::service::avatar::{plan_of, BlendCommand, EmotionState};
use crate::service::prompt::{build, build_spontaneous_prompt, request_of, EMOTION_GUIDE};
use crate::service::segment::{Segment, SegmentView, TagScanner};
use vstd::prelude::*;

verus! {

/// What starts a turn.
#[derive(Debug)]
pub enum Trigger {
    /// A viewer wrote this message.
    UserMessage(String),
    /// The idle timer fired.
    Spontaneous,
}

/// The mathematical content of a [`Trigger`].
pub enum TriggerView {
    UserMessage(Seq<char>),
    Spontaneous,
}

impl View for Trigger {
    type V = TriggerView;

    open spec fn view(&self) -> TriggerView {
        match self {
            Trigger::UserMessage(text) => TriggerView::UserMessage(text@),
            Trigger::Spontaneous => TriggerView::Spontaneous,
        }
    }
}

/// Why a turn ended early. Each variant carries the failure's text.
#[derive(Debug)]
pub enum TurnError {
    /// The model backend failed.
    Model(String),
    /// Speech synthesis failed.
    Synthesis(String),
    /// Audio playback failed.
    Playback(String),
}

/// The mathematical content of a [`TurnError`].
pub enum TurnErrorView {
    Model(Seq<char>),
    Synthesis(Seq<char>),
    Playback(Seq<char>),
}

impl View for TurnError {
    type V = TurnErrorView;

    open spec fn view(&self) -> TurnErrorView {
        match self {
            TurnError::Model(text) => TurnErrorView::Model(text@),
            TurnError::Synthesis(text) => TurnErrorView::Synthesis(text@),
            TurnError::Playback(text) => TurnErrorView::Playback(text@),
        }
    }
}

/// What happened outside since the last action was handed out.
#[derive(Debug)]
pub enum Event {
    /// A trigger was selected.
    Start(Trigger),
    /// The model answered with this text.
    Replied(String),
    /// The model call failed.
    ModelFailed(String),
    /// The expression commands were sent.
    Expressed,
    /// The expression commands could not be sent.
    ExpressionFailed(String),
    /// Speech was synthesized into these bytes.
    Synthesized(Vec<u8>),
    /// Speech synthesis failed.
    SynthesisFailed(String),
    /// The audio was played to its end.
    Played,
    /// Audio playback failed.
    PlaybackFailed(String),
}

/// The mathematical content of an [`Event`].
pub enum EventView {
    Start(TriggerView),
    Replied(Seq<char>),
    ModelFailed(Seq<char>),
    Expressed,
    ExpressionFailed(Seq<char>),
    Synthesized(Seq<u8>),
    SynthesisFailed(Seq<char>),
    Played,
    PlaybackFailed(Seq<char>),
}

impl View for Event {
    type V = EventView;

    open spec fn view(&self) -> EventView {
        match self {
            Event::Start(trigger) => EventView::Start(trigger@),
            Event::Replied(text) => EventView::Replied(text@),
            Event::ModelFailed(text) => EventView::ModelFailed(text@),
            Event::Expressed => EventView::Expressed,
            Event::ExpressionFailed(text) => EventView::ExpressionFailed(text@),
            Event::Synthesized(audio) => EventView::Synthesized(audio@),
            Event::SynthesisFailed(text) => EventView::SynthesisFailed(text@),
            Event::Played => EventView::Played,
            Event::PlaybackFailed(text) => EventView::PlaybackFailed(text@),
        }
    }
}

/// What the caller is to do next.
#[derive(Debug)]
pub enum Action {
    /// Send this payload to the model; answer with [`Event::Replied`] or
    /// [`Event::ModelFailed`].
    Ask(Vec<Content>),
    /// Send these commands to the avatar, in order; answer with
    /// [`Event::Expressed`] or [`Event::ExpressionFailed`].
    Express(Vec<BlendCommand>),
    /// Synthesize this text with this speaker; answer with
    /// [`Event::Synthesized`] or [`Event::SynthesisFailed`].
    Synthesize { text: String, speaker: u16 },
    /// Play this audio to its end; answer with [`Event::Played`] or
    /// [`Event::PlaybackFailed`].
    Play(Vec<u8>),
    /// The turn is over, with this outcome. Wait for the next trigger.
    Finished(Result<(), TurnError>),
    /// The event did not fit; nothing was changed.
    Ignored,
}

/// The mathematical content of an [`Action`].
pub enum ActionView {
    Ask(Seq<ContentView>),
    Express(Seq<BlendCommand>),
    Synthesize { text: Seq<char>, speaker: u16 },
    Play(Seq<u8>),
    Finished(Result<(), TurnErrorView>),
    Ignored,
}

impl View for Action {
    type V = ActionView;

    open spec fn view(&self) -> ActionView {
        match self {
            Action::Ask(contents) => ActionView::Ask(contents.deep_view()),
            Action::Express(commands) => ActionView::Express(commands@),
            Action::Synthesize { text, speaker } => ActionView::Synthesize {
                text: text@,
                speaker: *speaker,
            },
            Action::Play(audio) => ActionView::Play(audio@),
            Action::Finished(Ok(())) => ActionView::Finished(Ok(())),
            Action::Finished(Err(e)) => ActionView::Finished(Err(e@)),
            Action::Ignored => ActionView::Ignored,
        }
    }
}

/// The point a turn has reached, as seen between two events. Updating the
/// history and building the request happen within the step that starts a
/// turn; appending the reply and splitting it happen within the step that
/// takes the reply in.
#[derive(Debug)]
pub enum Phase {
    /// No turn is in flight.
    Idle,
    /// The model was asked; its reply is awaited.
    Requested,
    /// The expression of this segment was handed out; its sending is awaited.
    Expressing(Segment),
    /// The synthesis of the current segment is awaited.
    Synthesizing,
    /// The end of the current segment's playback is awaited.
    Playing,
}

/// The mathematical content of a [`Phase`].
pub enum PhaseView {
    Idle,
    Requested,
    Expressing(SegmentView),
    Synthesizing,
    Playing,
}

impl View for Phase {
    type V = PhaseView;

    open spec fn view(&self) -> PhaseView {
        match self {
            Phase::Idle => PhaseView::Idle,
            Phase::Requested => PhaseView::Requested,
            Phase::Expressing(segment) => PhaseView::Expressing(segment@),
            Phase::Synthesizing => PhaseView::Synthesizing,
            Phase::Playing => PhaseView::Playing,
        }
    }
}

/// The values a turn executor is made with.
#[derive(Debug)]
pub struct TurnSettings {
    /// The prompt that opens every request that answers a viewer.
    pub system_prompt: String,
    /// The prompt that opens a request for unprompted speech.
    pub spontaneous_prompt: String,
    /// The number of turn pairs retained, and shown to the model.
    pub max_history: usize,
    /// The voice that speaks.
    pub speaker: u16,
}

/// The mathematical content of a [`TurnExecutor`].
pub struct TurnView {
    pub system_prompt: Seq<char>,
    pub spontaneous_prompt: Seq<char>,
    pub speaker: u16,
    /// What finds the tags of a reply.
    pub scanner: TagScanner,
    /// The number of turn pairs retained, and shown to the model.
    pub limit: nat,
    pub history: Seq<MessageView>,
    /// The expression applied last.
    pub emotion: Option<Emotion>,
    pub phase: PhaseView,
    /// The segments of the reply that are still to be spoken, behind the one
    /// in progress.
    pub rest: Seq<SegmentView>,
}

/// The turn a viewer's message adds to the history.
pub open spec fn user_turn(text: Seq<char>) -> MessageView {
    MessageView { role: Role::User, text }
}

/// The turn the model's reply adds to the history.
pub open spec fn assistant_turn(text: Seq<char>) -> MessageView {
    MessageView { role: Role::Assistant, text }
}

/// Ends the turn: nothing is in flight and nothing is left to speak.
pub open spec fn finish(s: TurnView, outcome: Result<(), TurnErrorView>) -> (TurnView, ActionView) {
    (TurnView { phase: PhaseView::Idle, rest: Seq::empty(), ..s }, ActionView::Finished(outcome))
}

/// Goes on to the first of the segments still to be spoken, or ends the turn
/// where none is left. The segment's expression is handed out first, unless
/// there is nothing to send for it: then its synthesis is.
pub open spec fn advance(s: TurnView) -> (TurnView, ActionView) {
    if s.rest.len() == 0 {
        finish(s, Ok(()))
    } else {
        let segment = s.rest[0];
        let commands = plan_of(s.emotion, segment.emotion);
        let taken = TurnView { rest: s.rest.drop_first(), ..s };
        if commands.len() == 0 {
            voice(taken, segment, false)
        } else {
            (
                TurnView { phase: PhaseView::Expressing(segment), ..taken },
                ActionView::Express(commands),
            )
        }
    }
}

/// Starts a turn.
pub open spec fn start(s: TurnView, trigger: TriggerView) -> (TurnView, ActionView) {
    match trigger {
        TriggerView::UserMessage(text) => {
            let history = appended(s.history, s.limit, user_turn(text));
            (
                TurnView { history, phase: PhaseView::Requested, ..s },
                ActionView::Ask(
                    request_of(s.system_prompt, window_of(history, s.limit), EMOTION_GUIDE@),
                ),
            )
        },
        TriggerView::Spontaneous => (
            TurnView { phase: PhaseView::Requested, ..s },
            ActionView::Ask(request_of(s.spontaneous_prompt, Seq::empty(), EMOTION_GUIDE@)),
        ),
    }
}

/// Takes in the model's reply: it joins the history, and its segments are
/// what is to be spoken.
pub open spec fn take_reply(s: TurnView, reply: Seq<char>) -> (TurnView, ActionView) {
    advance(
        TurnView {
            history: appended(s.history, s.limit, assistant_turn(reply)),
            rest: s.scanner.segments(reply),
            ..s
        },
    )
}

/// Goes from a segment's expression to its synthesis. The expression counts
/// as applied only where it was sent.
pub open spec fn voice(s: TurnView, segment: SegmentView, sent: bool) -> (TurnView, ActionView) {
    (
        TurnView {
            emotion: if sent {
                Some(segment.emotion)
            } else {
                s.emotion
            },
            phase: PhaseView::Synthesizing,
            ..s
        },
        ActionView::Synthesize { text: segment.text, speaker: s.speaker },
    )
}

/// The state after `event`, and the action handed out for it.
pub open spec fn next(s: TurnView, event: EventView) -> (TurnView, ActionView) {
    match (s.phase, event) {
        (PhaseView::Idle, EventView::Start(trigger)) => start(s, trigger),
        (PhaseView::Requested, EventView::Replied(reply)) => take_reply(s, reply),
        (PhaseView::Requested, EventView::ModelFailed(text)) => finish(
            s,
            Err(TurnErrorView::Model(text)),
        ),
        (PhaseView::Expressing(segment), EventView::Expressed) => voice(s, segment, true),
        (PhaseView::Expressing(segment), EventView::ExpressionFailed(_)) => voice(
            s,
            segment,
            false,
        ),
        (PhaseView::Synthesizing, EventView::Synthesized(audio)) => (
            TurnView { phase: PhaseView::Playing, ..s },
            ActionView::Play(audio),
        ),
        (PhaseView::Synthesizing, EventView::SynthesisFailed(text)) => finish(
            s,
            Err(TurnErrorView::Synthesis(text)),
        ),
        (PhaseView::Playing, EventView::Played) => advance(s),
        (PhaseView::Playing, EventView::PlaybackFailed(text)) => finish(
            s,
            Err(TurnErrorView::Playback(text)),
        ),
        _ => (s, ActionView::Ignored),
    }
}

/// Runs the turns of a conversation, one at a time.
pub struct TurnExecutor {
    system_prompt: String,
    spontaneous_prompt: String,
    speaker: u16,
    scanner: TagScanner,
    history: History,
    emotion: EmotionState,
    phase: Phase,
    rest: Vec<Segment>,
}

impl View for TurnExecutor {
    type V = TurnView;

    closed spec fn view(&self) -> TurnView {
        TurnView {
            system_prompt: self.system_prompt@,
            spontaneous_prompt: self.spontaneous_prompt@,
            speaker: self.speaker,
            scanner: self.scanner,
            limit: self.history.limit(),
            history: self.history@,
            emotion: self.emotion@,
            phase: self.phase@,
            rest: self.rest.deep_view(),
        }
    }
}

impl TurnExecutor {
    /// An executor with an empty history, no expression applied and no turn
    /// in flight.
    pub fn new(settings: TurnSettings, scanner: TagScanner) -> (executor: Self)
        ensures
            executor@ == (TurnView {
                system_prompt: settings.system_prompt@,
                spontaneous_prompt: settings.spontaneous_prompt@,
                speaker: settings.speaker,
                scanner,
                limit: settings.max_history as nat,
                history: Seq::empty(),
                emotion: None,
                phase: PhaseView::Idle,
                rest: Seq::empty(),
            }),
    {
        let executor = TurnExecutor {
            system_prompt: settings.system_prompt,
            spontaneous_prompt: settings.spontaneous_prompt,
            speaker: settings.speaker,
            scanner,
            history: History::new(settings.max_history),
            emotion: EmotionState::new(),
            phase: Phase::Idle,
            rest: Vec::new(),
        };
        assert(executor@.rest =~= Seq::<SegmentView>::empty());
        executor
    }

    /// Whether no turn is in flight.
    pub fn is_idle(&self) -> (idle: bool)
        ensures
            idle == (self@.phase is Idle),
    {
        match &self.phase {
            Phase::Idle => true,
            _ => false,
        }
    }

    /// The conversation so far.
    pub fn history(&self) -> (history: &History)
        ensures
            history@ == self@.history,
            history.limit() == self@.limit,
    {
        &self.history
    }

    /// The expression applied last.
    pub fn emotion(&self) -> (last: Option<Emotion>)
        ensures
            last == self@.emotion,
    {
        self.emotion.last()
    }

    /// The number of segments still to be spoken behind the one in progress.
    pub fn segments_left(&self) -> (n: usize)
        ensures
            n == self@.rest.len(),
    {
        self.rest.len()
    }

    /// Ends the turn with `outcome`.
    fn finish(&mut self, outcome: Result<(), TurnError>) -> (action: Action)
        ensures
            final(self)@ == finish(old(self)@, action@->Finished_0).0,
            action == Action::Finished(outcome),
    {
        self.phase = Phase::Idle;
        self.rest = Vec::new();
        assert(final(self)@.rest =~= Seq::<SegmentView>::empty());
        Action::Finished(outcome)
    }

    /// Goes on to the next segment, or ends the turn.
    fn advance(&mut self) -> (action: Action)
        ensures
            final(self)@ == advance(old(self)@).0,
            action@ == advance(old(self)@).1,
    {
        if self.rest.len() == 0 {
            self.finish(Ok(()))
        } else {
            let segment = self.rest.remove(0);
            let commands = crate::service::avatar::set(&self.emotion, segment.emotion);
            assert(segment@ == old(self)@.rest[0]);
            assert(self.rest.deep_view() =~= old(self)@.rest.drop_first());
            if commands.len() == 0 {
                self.voice(segment, false)
            } else {
                self.phase = Phase::Expressing(segment);
                Action::Express(commands)
            }
        }
    }

    /// Starts a turn.
    fn start(&mut self, trigger: Trigger) -> (action: Action)
        ensures
            final(self)@ == start(old(self)@, trigger@).0,
            action@ == start(old(self)@, trigger@).1,
    {
        match trigger {
            Trigger::UserMessage(text) => {
                self.history.append(Message { role: Role::User, text });
                let window = self.history.window(self.history.max_turns_retained());
                let request = build(self.system_prompt.as_str(), window.as_slice(), EMOTION_GUIDE);
                self.phase = Phase::Requested;
                Action::Ask(request)
            },
            Trigger::Spontaneous => {
                let request = build_spontaneous_prompt(self.spontaneous_prompt.as_str());
                self.phase = Phase::Requested;
                Action::Ask(request)
            },
        }
    }

    /// Takes in the model's reply.
    fn take_reply(&mut self, reply: String) -> (action: Action)
        ensures
            final(self)@ == take_reply(old(self)@, reply@).0,
            action@ == take_reply(old(self)@, reply@).1,
    {
        let segments = self.scanner.parse(reply.as_str());
        self.history.append(Message { role: Role::Assistant, text: reply });
        self.rest = segments;
        self.advance()
    }

    /// Goes from a segment's expression to its synthesis.
    fn voice(&mut self, segment: Segment, sent: bool) -> (action: Action)
        ensures
            final(self)@ == voice(old(self)@, segment@, sent).0,
            action@ == voice(old(self)@, segment@, sent).1,
    {
        if sent {
            self.emotion.commit(segment.emotion);
        }
        self.phase = Phase::Synthesizing;
        Action::Synthesize { text: segment.text, speaker: self.speaker }
    }

    /// Takes in one event and says what to do next.
    pub fn step(&mut self, event: Event) -> (action: Action)
        ensures
            final(self)@ == next(old(self)@, event@).0,
            action@ == next(old(self)@, event@).1,
    {
        let mut phase = Phase::Idle;
        core::mem::swap(&mut self.phase, &mut phase);
        match (phase, event) {
            (Phase::Idle, Event::Start(trigger)) => self.start(trigger),
            (Phase::Requested, Event::Replied(reply)) => self.take_reply(reply),
            (Phase::Requested, Event::ModelFailed(text)) => self.finish(
                Err(TurnError::Model(text)),
            ),
            (Phase::Expressing(segment), Event::Expressed) => self.voice(segment, true),
            (Phase::Expressing(segment), Event::ExpressionFailed(_)) => self.voice(segment, false),
            (Phase::Synthesizing, Event::Synthesized(audio)) => {
                self.phase = Phase::Playing;
                Action::Play(audio)
            },
            (Phase::Synthesizing, Event::SynthesisFailed(text)) => self.finish(
                Err(TurnError::Synthesis(text)),
            ),
            (Phase::Playing, Event::Played) => self.advance(),
            (Phase::Playing, Event::PlaybackFailed(text)) => self.finish(
                Err(TurnError::Playback(text)),
            ),
            (phase, _) => {
                self.phase = phase;
                Action::Ignored
            },
        }
    }
}

/// A failure of the model call ends the turn and leaves the history as it
/// was when the model was asked: nothing is appended for the assistant.
pub proof fn lemma_model_failure_keeps_history(s: TurnView, text: Seq<char>)
    requires
        s.phase is Requested,
    ensures
        next(s, EventView::ModelFailed(text)).0.history == s.history,
        next(s, EventView::ModelFailed(text)).0.emotion == s.emotion,
        next(s, EventView::ModelFailed(text)).0.phase is Idle,
        next(s, EventView::ModelFailed(text)).1 == ActionView::Finished(
            Err(TurnErrorView::Model(text)),
        ),
{
}

/// A turn whose model call fails leaves in the history the viewer's message
/// that started it, where one did, and nothing else: no turn of the
/// assistant is appended.
pub proof fn lemma_failed_turn_history(s: TurnView, trigger: TriggerView, text: Seq<char>)
    requires
        s.phase is Idle,
    ensures
        ({
            let asked = next(s, EventView::Start(trigger)).0;
            let failed = next(asked, EventView::ModelFailed(text)).0;
            &&& asked.phase is Requested
            &&& failed.phase is Idle
            &&& failed.history == match trigger {
                TriggerView::UserMessage(message) => appended(
                    s.history,
                    s.limit,
                    user_turn(message),
                ),
                TriggerView::Spontaneous => s.history,
            }
        }),
{
}

/// While a turn is in flight no other turn starts: a trigger is ignored and
/// changes nothing.
pub proof fn lemma_one_turn_at_a_time(s: TurnView, trigger: TriggerView)
    requires
        !(s.phase is Idle),
    ensures
        next(s, EventView::Start(trigger)) == (s, ActionView::Ignored),
{
}

/// When a turn has ended, whatever its outcome, the next trigger starts a
/// turn: a failure never stops the loop.
pub proof fn lemma_finished_turn_frees_the_loop(s: TurnView, event: EventView, trigger: TriggerView)
    requires
        next(s, event).1 is Finished,
    ensures
        next(s, event).0.phase is Idle,
        next(next(s, event).0, EventView::Start(trigger)).1 is Ask,
{
}

/// The history never holds more than twice the retained number of turn pairs
/// once anything has been appended, and an event that appends nothing leaves
/// it as it is.
pub proof fn lemma_history_stays_bounded(s: TurnView, event: EventView)
    requires
        s.history.len() <= 2 * s.limit,
    ensures
        next(s, event).0.history.len() <= 2 * s.limit,
        next(s, event).0.limit == s.limit,
        next(s, event).0.history == s.history || (exists|turn: MessageView|
            next(s, event).0.history == appended(s.history, s.limit, turn)),
{
    let after = next(s, event).0;
    match (s.phase, event) {
        (PhaseView::Idle, EventView::Start(TriggerView::UserMessage(text))) => {
            assert(after.history == appended(s.history, s.limit, user_turn(text)));
        },
        (PhaseView::Requested, EventView::Replied(reply)) => {
            assert(after.history == appended(s.history, s.limit, assistant_turn(reply)));
        },
        _ => {},
    }
}

/// A reply that gives no segment ends the turn at once and with success: the
/// reply joins the history, and nothing is sent, synthesized or played.
pub proof fn lemma_silent_reply_finishes(s: TurnView, reply: Seq<char>)
    requires
        s.phase is Requested,
        s.scanner.segments(reply).len() == 0,
    ensures
        next(s, EventView::Replied(reply)).1 == ActionView::Finished(Ok(())),
        next(s, EventView::Replied(reply)).0.phase is Idle,
        next(s, EventView::Replied(reply)).0.emotion == s.emotion,
        next(s, EventView::Replied(reply)).0.history == appended(
            s.history,
            s.limit,
            assistant_turn(reply),
        ),
{
}

/// A segment is walked in a fixed order. Where its expression needs
/// sending, the commands are handed out first, and the synthesis follows
/// whether or not they could be sent. Where the expression is already shown,
/// the synthesis comes at once. The playback follows the synthesis, and only
/// then comes the next segment, or the end of the turn.
pub proof fn lemma_segment_order(s: TurnView, sent: bool, audio: Seq<u8>)
    requires
        s.rest.len() > 0,
    ensures
        ({
            let segment = s.rest[0];
            let commands = plan_of(s.emotion, segment.emotion);
            let shown = advance(s);
            let voiced = if commands.len() == 0 {
                shown
            } else {
                next(
                    shown.0,
                    if sent {
                        EventView::Expressed
                    } else {
                        EventView::ExpressionFailed(Seq::empty())
                    },
                )
            };
            let played = next(voiced.0, EventView::Synthesized(audio));
            let after = next(played.0, EventView::Played);
            &&& commands.len() > 0 ==> shown.1 == ActionView::Express(commands)
            &&& voiced.1 == ActionView::Synthesize { text: segment.text, speaker: s.speaker }
            &&& played.1 == ActionView::Play(audio)
            &&& voiced.0.emotion == if sent || commands.len() == 0 {
                Some(segment.emotion)
            } else {
                s.emotion
            }
            &&& after == advance(TurnView { rest: s.rest.drop_first(), ..voiced.0 })
            &&& after.0.history == s.history
        }),
{
}

/// A segment whose expression is already shown, and is not the baseline, is
/// synthesized without anything being sent to the avatar; the baseline is
/// sent every time.
pub proof fn lemma_shown_expression_is_not_sent_again(s: TurnView)
    requires
        s.rest.len() > 0,
    ensures
        s.emotion == Some(s.rest[0].emotion) && s.rest[0].emotion != Emotion::Neutral
            ==> advance(s).1 == (ActionView::Synthesize {
            text: s.rest[0].text,
            speaker: s.speaker,
        }) && advance(s).0.emotion == s.emotion,
        s.rest[0].emotion == Emotion::Neutral ==> advance(s).1 is Express,
        s.emotion != Some(s.rest[0].emotion) ==> advance(s).1 is Express,
{
}

/// The state in which the first of the segments still to be spoken has been
/// shown, synthesized and handed to playback.
pub open spec fn first_segment_playing(s: TurnView) -> TurnView {
    TurnView {
        phase: PhaseView::Playing,
        emotion: Some(s.rest[0].emotion),
        rest: s.rest.drop_first(),
        ..s
    }
}

/// The state after every segment still to be spoken has been spoken with
/// success.
pub open spec fn all_spoken(s: TurnView) -> TurnView
    decreases s.rest.len(),
{
    if s.rest.len() == 0 {
        advance(s).0
    } else {
        all_spoken(first_segment_playing(s))
    }
}

/// Where expression, synthesis and playback succeed, speaking a segment
/// leaves the executor waiting for the end of its playback, with the
/// segment's expression applied and the segment gone from those to speak.
pub proof fn lemma_spoken_segment(s: TurnView, audio: Seq<u8>)
    requires
        s.rest.len() > 0,
    ensures
        ({
            let shown = advance(s).0;
            let voiced = if shown.phase is Expressing {
                next(shown, EventView::Expressed).0
            } else {
                shown
            };
            next(voiced, EventView::Synthesized(audio)).0 == first_segment_playing(s)
        }),
{
}

/// A turn in which everything succeeds speaks every segment, ends idle with
/// nothing left to speak, shows the last segment's expression, and appends
/// nothing more to the history.
pub proof fn lemma_all_spoken(s: TurnView)
    ensures
        all_spoken(s).phase is Idle,
        all_spoken(s).rest.len() == 0,
        all_spoken(s).history == s.history,
        all_spoken(s).emotion == if s.rest.len() > 0 {
            Some(s.rest.last().emotion)
        } else {
            s.emotion
        },
    decreases s.rest.len(),
{
    if s.rest.len() > 0 {
        let playing = first_segment_playing(s);
        lemma_all_spoken(playing);
        if playing.rest.len() > 0 {
            assert(playing.rest.last() == s.rest.last());
        }
    }
}

} // verus!
