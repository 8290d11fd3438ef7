//! The relay loop's decisions, as pure functions.
//!
//! A caller owns the I/O: it subscribes to the planned channels, pulls one raw
//! payload at a time, looks the channel up in the shared directory, hands both
//! to [`relay_step`], and performs the sends the outcome asks for. Everything
//! the loop decides — what to subscribe to, what each payload means, who
//! receives it, what text is sent, and whether the loop goes on — is stated
//! and verified here. [`relay_batch`] runs the same policy over a whole
//! sequence of inputs at once.

use crate::decode::decode;
use crate::decode::spec_decode_chars;
use crate::event::DecodeError;
use crate::event::EventData;
use crate::event::SpecEventData;
use crate::resolve::resolve;
use crate::resolve::spec_resolve_from;
use crate::resolve::ResolveError;
use crate::transform::spec_transform;
use crate::transform::transform;
use vstd::prelude::*;
use vstd::utf8::decode_utf8;
use vstd::utf8::valid_utf8;

verus! {

/// One configured channel: its name, and whether the bus's own network is a
/// declared participant.
#[derive(Debug, PartialEq, Eq, Clone)]
pub struct ChannelConfig {
    pub name: String,
    pub eludris: bool,
}

/// Mathematical view of a [`ChannelConfig`].
pub struct SpecChannelConfig {
    pub name: Seq<char>,
    pub eludris: bool,
}

impl View for ChannelConfig {
    type V = SpecChannelConfig;

    open spec fn view(&self) -> SpecChannelConfig {
        SpecChannelConfig { name: self.name@, eludris: self.eludris }
    }
}

/// The channels the relay subscribes to, from position `i` on: those whose
/// configuration declares the bus's own network a participant, in
/// configuration order.
pub open spec fn spec_subscriptions_from(cfg: Seq<SpecChannelConfig>, i: int) -> Seq<Seq<char>>
    decreases cfg.len() - i,
{
    if !(0 <= i < cfg.len()) {
        Seq::empty()
    } else if cfg[i].eludris {
        seq![cfg[i].name] + spec_subscriptions_from(cfg, i + 1)
    } else {
        spec_subscriptions_from(cfg, i + 1)
    }
}

fn subscriptions_from(config: &Vec<ChannelConfig>, i: usize) -> (r: Vec<String>)
    requires
        i <= config@.len(),
    ensures
        r@.map_values(|s: String| s@) == spec_subscriptions_from(
            config@.map_values(|c: ChannelConfig| c@),
            i as int,
        ),
    decreases config@.len() - i,
{
    if i >= config.len() {
        let r: Vec<String> = Vec::new();
        proof {
            assert(r@.map_values(|s: String| s@) =~= Seq::<Seq<char>>::empty());
        }
        return r;
    }
    let rest = subscriptions_from(config, i + 1);
    if config[i].eludris {
        let ghost grest = rest@.map_values(|s: String| s@);
        let mut r = rest;
        r.insert(0, config[i].name.clone());
        proof {
            assert(r@.map_values(|s: String| s@) =~= seq![config@[i as int].name@] + grest);
        }
        r
    } else {
        rest
    }
}

/// The channels to subscribe to at startup: subscription is all-or-nothing, so
/// a caller that fails to subscribe to any one of them must abort.
pub fn plan_subscriptions(config: &Vec<ChannelConfig>) -> (r: Vec<String>)
    ensures
        r@.map_values(|s: String| s@) == spec_subscriptions_from(
            config@.map_values(|c: ChannelConfig| c@),
            0,
        ),
{
    subscriptions_from(config, 0)
}

/// What the relay does with one pulled payload.
#[derive(Debug, PartialEq, Eq, Clone)]
pub enum StepOutcome {
    /// The payload failed to decode; log the error and continue.
    BadPayload(DecodeError),
    /// The directory has no entry for the channel; warn and continue.
    NoDirectory,
    /// A recognized or unknown event kind that is not a message creation; log
    /// and continue without dispatch.
    Ignored,
    /// The transformed body was empty; continue silently.
    EmptyMessage,
    /// A kept member has no registered client: fatal, the loop aborts. Carries
    /// the member.
    MissingClient(String),
    /// Send the name and body to each destination, an index into the
    /// registered clients, sequentially and in this order; the first failed
    /// send is fatal.
    Send { name: String, body: String, destinations: Vec<usize> },
}

/// Mathematical view of a [`StepOutcome`].
pub enum SpecStepOutcome {
    BadPayload(DecodeError),
    NoDirectory,
    Ignored,
    EmptyMessage,
    MissingClient(Seq<char>),
    Send { name: Seq<char>, body: Seq<char>, destinations: Seq<int> },
}

impl View for StepOutcome {
    type V = SpecStepOutcome;

    open spec fn view(&self) -> SpecStepOutcome {
        match self {
            StepOutcome::BadPayload(e) => SpecStepOutcome::BadPayload(*e),
            StepOutcome::NoDirectory => SpecStepOutcome::NoDirectory,
            StepOutcome::Ignored => SpecStepOutcome::Ignored,
            StepOutcome::EmptyMessage => SpecStepOutcome::EmptyMessage,
            StepOutcome::MissingClient(m) => SpecStepOutcome::MissingClient(m@),
            StepOutcome::Send { name, body, destinations } => (SpecStepOutcome::Send {
                name: name@,
                body: body@,
                destinations: destinations@.map_values(|u: usize| u as int),
            }),
        }
    }
}

pub open spec fn opt_members_view(o: Option<Vec<String>>) -> Option<Seq<Seq<char>>> {
    match o {
        Some(v) => Some(v@.map_values(|s: String| s@)),
        None => None,
    }
}

/// The relay's decision for one raw payload, given the directory's answer for
/// the channel (`None`: no entry) and the registered client keys.
pub open spec fn spec_step(
    raw: Seq<u8>,
    members: Option<Seq<Seq<char>>>,
    regs: Seq<Seq<char>>,
) -> SpecStepOutcome {
    if !valid_utf8(raw) {
        SpecStepOutcome::BadPayload(DecodeError::Encoding)
    } else {
        match spec_decode_chars(decode_utf8(raw)) {
            None => SpecStepOutcome::BadPayload(DecodeError::Schema),
            Some(e) => match members {
                None => SpecStepOutcome::NoDirectory,
                Some(ms) => match spec_resolve_from(ms, e.platform, e.identifier, regs, 0) {
                    Err(m) => SpecStepOutcome::MissingClient(m),
                    Ok(ixs) => match e.data {
                        SpecEventData::MessageCreate(msg) => match spec_transform(msg) {
                            None => SpecStepOutcome::EmptyMessage,
                            Some((n, b)) => (SpecStepOutcome::Send {
                                name: n,
                                body: b,
                                destinations: ixs,
                            }),
                        },
                        _ => SpecStepOutcome::Ignored,
                    },
                },
            },
        }
    }
}

/// Decide what to do with one pulled payload: decode it, apply echo
/// suppression and client lookup over the directory's members, and transform a
/// message creation into the outbound name and body.
pub fn relay_step(
    payload: &Vec<u8>,
    members: &Option<Vec<String>>,
    registered: &Vec<String>,
) -> (r: StepOutcome)
    ensures
        r@ == spec_step(payload@, opt_members_view(*members), registered@.map_values(|s: String| s@)),
        r matches StepOutcome::Send { destinations, .. } ==> forall|k: int|
            0 <= k < destinations@.len() ==> #[trigger] destinations@[k] < registered@.len(),
{
    let ev = match decode(payload.as_slice()) {
        Err(e) => {
            return StepOutcome::BadPayload(e);
        },
        Ok(ev) => ev,
    };
    let ms = match members {
        None => {
            return StepOutcome::NoDirectory;
        },
        Some(ms) => ms,
    };
    let ixs = match resolve(ms, ev.platform, &ev.identifier, registered) {
        Err(e) => {
            return StepOutcome::MissingClient(match e {
                ResolveError::MissingClient(m) => m,
            });
        },
        Ok(ixs) => ixs,
    };
    match ev.data {
        EventData::MessageCreate(msg) => match transform(&msg) {
            None => StepOutcome::EmptyMessage,
            Some((name, body)) => StepOutcome::Send { name, body, destinations: ixs },
        },
        _ => StepOutcome::Ignored,
    }
}

/// Whether the loop goes on after this outcome. Only a configuration
/// inconsistency stops it here; a failed send also stops it, but that is the
/// caller's I/O result, not a decision made by this engine.
pub open spec fn spec_continues(o: SpecStepOutcome) -> bool {
    !(o is MissingClient)
}

pub fn outcome_continues(o: &StepOutcome) -> (r: bool)
    ensures
        r == spec_continues(o@),
{
    !(matches!(o, StepOutcome::MissingClient(_)))
}

/// One input the loop consumes: a raw payload and the directory's answer for
/// its channel at that moment.
#[derive(Debug, PartialEq, Eq, Clone)]
pub struct RelayInput {
    pub payload: Vec<u8>,
    pub members: Option<Vec<String>>,
}

/// Mathematical view of a [`RelayInput`].
pub struct SpecRelayInput {
    pub payload: Seq<u8>,
    pub members: Option<Seq<Seq<char>>>,
}

impl View for RelayInput {
    type V = SpecRelayInput;

    open spec fn view(&self) -> SpecRelayInput {
        SpecRelayInput { payload: self.payload@, members: opt_members_view(self.members) }
    }
}

/// One outbound dispatch: the text to send and who receives it.
#[derive(Debug, PartialEq, Eq, Clone)]
pub struct OutboundMessage {
    pub name: String,
    pub body: String,
    pub destinations: Vec<usize>,
}

/// Mathematical view of an [`OutboundMessage`].
pub struct SpecOutboundMessage {
    pub name: Seq<char>,
    pub body: Seq<char>,
    pub destinations: Seq<int>,
}

impl View for OutboundMessage {
    type V = SpecOutboundMessage;

    open spec fn view(&self) -> SpecOutboundMessage {
        SpecOutboundMessage {
            name: self.name@,
            body: self.body@,
            destinations: self.destinations@.map_values(|u: usize| u as int),
        }
    }
}

/// What a run of the relay loop over the inputs from position `i` on
/// dispatches, and the fatal configuration error (the unregistered member) it
/// stops on, if any. A payload that fails to decode, a channel with no
/// directory entry, an ignored kind and an empty body are skipped and the loop
/// goes on.
pub open spec fn spec_relay_batch(
    inputs: Seq<SpecRelayInput>,
    regs: Seq<Seq<char>>,
    i: int,
) -> (Seq<SpecOutboundMessage>, Option<Seq<char>>)
    decreases inputs.len() - i,
{
    if !(0 <= i < inputs.len()) {
        (Seq::empty(), None::<Seq<char>>)
    } else {
        match spec_step(inputs[i].payload, inputs[i].members, regs) {
            SpecStepOutcome::MissingClient(m) => (Seq::empty(), Some(m)),
            SpecStepOutcome::Send { name, body, destinations } => {
                let rest = spec_relay_batch(inputs, regs, i + 1);
                (
                    seq![SpecOutboundMessage { name, body, destinations }] + rest.0,
                    rest.1,
                )
            },
            _ => spec_relay_batch(inputs, regs, i + 1),
        }
    }
}

fn relay_batch_from(inputs: &Vec<RelayInput>, registered: &Vec<String>, i: usize) -> (r: (
    Vec<OutboundMessage>,
    Option<String>,
))
    requires
        i <= inputs@.len(),
    ensures
        ({
            let g = spec_relay_batch(
                inputs@.map_values(|x: RelayInput| x@),
                registered@.map_values(|s: String| s@),
                i as int,
            );
            &&& r.0@.map_values(|o: OutboundMessage| o@) == g.0
            &&& (match r.1 {
                Some(m) => g.1 == Some(m@),
                None => g.1 is None,
            })
        }),
    decreases inputs@.len() - i,
{
    if i >= inputs.len() {
        let outs: Vec<OutboundMessage> = Vec::new();
        proof {
            assert(outs@.map_values(|o: OutboundMessage| o@) =~= Seq::<
                SpecOutboundMessage,
            >::empty());
        }
        return (outs, None);
    }
    proof {
        assert(inputs@.map_values(|x: RelayInput| x@)[i as int] == inputs@[i as int]@);
    }
    match relay_step(&inputs[i].payload, &inputs[i].members, registered) {
        StepOutcome::MissingClient(m) => {
            let outs: Vec<OutboundMessage> = Vec::new();
            proof {
                assert(outs@.map_values(|o: OutboundMessage| o@) =~= Seq::<
                    SpecOutboundMessage,
                >::empty());
            }
            (outs, Some(m))
        },
        StepOutcome::Send { name, body, destinations } => {
            let out = OutboundMessage { name, body, destinations };
            let ghost gout = out@;
            let (rest, exit) = relay_batch_from(inputs, registered, i + 1);
            let ghost grest = rest@.map_values(|o: OutboundMessage| o@);
            let mut outs = rest;
            outs.insert(0, out);
            proof {
                assert(outs@.map_values(|o: OutboundMessage| o@) =~= seq![gout] + grest);
            }
            (outs, exit)
        },
        _ => relay_batch_from(inputs, registered, i + 1),
    }
}

/// Run the relay policy over a whole sequence of inputs: everything the loop
/// would dispatch, in order, and the fatal configuration error it would stop
/// on, if any.
pub fn relay_batch(inputs: &Vec<RelayInput>, registered: &Vec<String>) -> (r: (
    Vec<OutboundMessage>,
    Option<String>,
))
    ensures
        ({
            let g = spec_relay_batch(
                inputs@.map_values(|x: RelayInput| x@),
                registered@.map_values(|s: String| s@),
                0,
            );
            &&& r.0@.map_values(|o: OutboundMessage| o@) == g.0
            &&& (match r.1 {
                Some(m) => g.1 == Some(m@),
                None => g.1 is None,
            })
        }),
{
    relay_batch_from(inputs, registered, 0)
}

/// A skipped input never stops the loop: when the step outcome for input `i`
/// is one that continues without dispatching — a decode failure, a missing
/// directory entry, an ignored kind, an empty body — the run from `i` is
/// exactly the run from `i + 1`, so every later input is still processed.
pub proof fn lemma_skip_continues(inputs: Seq<SpecRelayInput>, regs: Seq<Seq<char>>, i: int)
    requires
        0 <= i < inputs.len(),
        spec_continues(spec_step(inputs[i].payload, inputs[i].members, regs)),
        !(spec_step(inputs[i].payload, inputs[i].members, regs) is Send),
    ensures
        spec_relay_batch(inputs, regs, i) == spec_relay_batch(inputs, regs, i + 1),
{
}

} // verus!
