//! Decides which blend-shape commands change the avatar's expression, and
//! encodes them as OSC packets.
//!
//! To show an expression the avatar is sent, in this order: the previous
//! expression's blend shape at level 0, the new expression's blend shape at
//! its level, and an apply command. The first is left out where no
//! expression was shown before. The second is left out for the baseline
//! `Neutral`, whose level is 0: showing it is the reset itself, and it is
//! sent every time. Where the expression asked for is the one already shown
//! and is not the baseline, nothing is sent at all.
//!
//! Deciding and recording are two steps. [`set`] decides what is sent and
//! leaves the state as it is; [`EmotionState::commit`] records the expression
//! once the commands have been sent, so that a failed send leaves the state
//! at what the avatar still shows.

use crate::error::{Error, ErrorView};
use crate::model::emotion::Emotion;
use vstd::prelude::*;

verus! {

/// The OSC address that sets the level of one blend shape.
pub const BLEND_VALUE_ADDR: &'static str = "/VMC/Ext/Blend/Val";

/// The OSC address that applies the levels set so far.
pub const BLEND_APPLY_ADDR: &'static str = "/VMC/Ext/Blend/Apply";

/// Where the avatar listens for OSC packets.
pub const AVATAR_TARGET: &'static str = "127.0.0.1:39539";

/// One command to the avatar.
#[derive(Debug, Clone, Copy, PartialEq, Eq, Structural)]
pub enum BlendCommand {
    /// Set the blend shape of `emotion` to `level`.
    Value { emotion: Emotion, level: u8 },
    /// Apply the levels set so far.
    Apply,
}

/// The expression that was applied last, if any.
#[derive(Debug, Clone, Copy, PartialEq, Eq, Structural)]
pub struct EmotionState {
    last: Option<Emotion>,
}

impl View for EmotionState {
    type V = Option<Emotion>;

    closed spec fn view(&self) -> Option<Emotion> {
        self.last
    }
}

/// Whether `next` is already shown and needs no command: it was applied
/// last and is not the baseline.
pub open spec fn repeats(last: Option<Emotion>, next: Emotion) -> bool {
    last == Some(next) && next.clip_level() > 0
}

/// The commands that show `next` when `last` was applied before: none where
/// `next` is already shown; else the reset of the previous expression where
/// there is one, the raise of `next` where it is not the baseline, and the
/// apply command.
pub open spec fn plan_of(last: Option<Emotion>, next: Emotion) -> Seq<BlendCommand> {
    if repeats(last, next) {
        Seq::empty()
    } else {
        let reset = match last {
            Some(prev) => seq![BlendCommand::Value { emotion: prev, level: 0 }],
            None => Seq::empty(),
        };
        let raise = if next.clip_level() > 0 {
            seq![BlendCommand::Value { emotion: next, level: next.clip_level() }]
        } else {
            Seq::empty()
        };
        reset + raise + seq![BlendCommand::Apply]
    }
}

/// Something is sent unless the expression is already shown, and then the
/// last command is the apply command. The baseline is always sent.
pub proof fn lemma_plan_shape(last: Option<Emotion>, next: Emotion)
    ensures
        plan_of(last, next).len() == 0 <==> repeats(last, next),
        plan_of(last, next).len() > 0 ==> plan_of(last, next).last() == BlendCommand::Apply,
        next == Emotion::Neutral ==> plan_of(last, next).len() > 0,
{
}

impl EmotionState {
    /// The state before any expression was applied.
    pub fn new() -> (state: Self)
        ensures
            state@ == None::<Emotion>,
    {
        EmotionState { last: None }
    }

    /// The expression that was applied last.
    pub fn last(&self) -> (last: Option<Emotion>)
        ensures
            last == self@,
    {
        self.last
    }

    /// Records that `emotion` has been applied.
    pub fn commit(&mut self, emotion: Emotion)
        ensures
            final(self)@ == Some(emotion),
    {
        self.last = Some(emotion);
    }
}

/// Decides what is sent to switch the expression to `emotion`, given what
/// was applied before. Nothing is sent where `emotion` is already shown and
/// is not the baseline. The state is left as it is: the caller sends the
/// commands and, where that succeeded, records the expression with
/// [`EmotionState::commit`]. Where nothing is to be sent the state holds
/// `emotion` already.
pub fn set(state: &EmotionState, emotion: Emotion) -> (commands: Vec<BlendCommand>)
    ensures
        commands@ == plan_of(state@, emotion),
        commands@.len() == 0 ==> state@ == Some(emotion),
{
    let mut commands: Vec<BlendCommand> = Vec::new();
    let (_, level) = emotion.clip();
    match state.last {
        Some(prev) => {
            if prev == emotion && level > 0 {
                assert(commands@ =~= plan_of(state@, emotion));
                return commands;
            }
            commands.push(BlendCommand::Value { emotion: prev, level: 0 });
        },
        None => {},
    }
    if level > 0 {
        commands.push(BlendCommand::Value { emotion, level });
    }
    commands.push(BlendCommand::Apply);
    assert(commands@ =~= plan_of(state@, emotion));
    commands
}

/// The bytes of the OSC message with address `addr` whose arguments are the
/// strings `texts` followed by `levels` as 32-bit floats, as
/// `rosc::encoder::encode` lays them out.
pub uninterp spec fn osc_message(addr: Seq<char>, texts: Seq<Seq<char>>, levels: Seq<u8>) -> Seq<
    u8,
>;

/// Calls `rosc::encoder::encode` on one message. The arguments are the
/// strings, then the levels turned into floats of the same value. The
/// encoder writes into a vector, which cannot fail, and ends by returning
/// what it wrote: the contract claims the success, names the bytes and
/// claims nothing of their layout. The failure that the encoder's signature
/// allows for is handed on as the text the crate prints for it.
#[verifier::external_body]
fn encode_message(addr: &str, texts: &Vec<String>, levels: &Vec<u8>) -> (r: Result<
    Vec<u8>,
    String,
>)
    ensures
        r is Ok,
        r matches Ok(bytes) ==> bytes@ == osc_message(addr@, texts.deep_view(), levels@),
{
    let mut args: Vec<rosc::OscType> = Vec::new();
    args.extend(texts.iter().map(|t| rosc::OscType::String(t.clone())));
    args.extend(levels.iter().map(|l| rosc::OscType::Float((*l).into())));
    let message = rosc::OscMessage { addr: addr.to_string(), args };
    rosc::encoder::encode(&rosc::OscPacket::Message(message)).map_err(|e| e.to_string())
}

/// The OSC packet that carries `command`.
pub open spec fn packet_of(command: BlendCommand) -> Seq<u8> {
    match command {
        BlendCommand::Value { emotion, level } => osc_message(
            BLEND_VALUE_ADDR@,
            seq![emotion.clip_name()],
            seq![level],
        ),
        BlendCommand::Apply => osc_message(BLEND_APPLY_ADDR@, Seq::empty(), Seq::empty()),
    }
}

/// What encoding comes to, given what the encoder answered: its bytes, or
/// its failure as [`Error::External`] with the same text.
pub fn encoded(answer: Result<Vec<u8>, String>) -> (r: Result<Vec<u8>, Error>)
    ensures
        match answer {
            Ok(bytes) => r == Ok::<Vec<u8>, Error>(bytes),
            Err(text) => r matches Err(e) && e@ == ErrorView::External(text@),
        },
{
    match answer {
        Ok(bytes) => Ok(bytes),
        Err(text) => Err(Error::External(text)),
    }
}

/// Encodes `command` as one OSC packet. Encoding always succeeds.
pub fn encode(command: &BlendCommand) -> (r: Result<Vec<u8>, Error>)
    ensures
        r matches Ok(bytes) && bytes@ == packet_of(*command),
{
    let mut texts: Vec<String> = Vec::new();
    let mut levels: Vec<u8> = Vec::new();
    match command {
        BlendCommand::Value { emotion, level } => {
            let (name, _) = emotion.clip();
            texts.push(name.to_owned());
            levels.push(*level);
            assert(texts.deep_view() =~= seq![emotion.clip_name()]);
            assert(levels@ =~= seq![*level]);
            encoded(encode_message(BLEND_VALUE_ADDR, &texts, &levels))
        },
        BlendCommand::Apply => {
            assert(texts.deep_view() =~= Seq::<Seq<char>>::empty());
            assert(levels@ =~= Seq::<u8>::empty());
            encoded(encode_message(BLEND_APPLY_ADDR, &texts, &levels))
        },
    }
}

} // verus!
