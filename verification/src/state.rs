//! The application state and its update transition: a counter driven by
//! delta messages, and the recorded outcome of a one-shot fetch of the
//! caller's public IP address.

use vstd::prelude::*;
use crate::circle::Circle;

verus! {

/// A fetched record of the caller's public IP address.
#[derive(Debug, PartialEq, Eq)]
pub struct IpRecord {
    pub origin: String,
}

impl Clone for IpRecord {
    fn clone(&self) -> (r: IpRecord)
        ensures
            r.origin@ == self.origin@,
    {
        IpRecord { origin: self.origin.as_str().to_owned() }
    }
}

/// An event consumed by the update transition: a counter change requested by
/// a button, or the completion of the background fetch.
#[derive(Debug, PartialEq, Eq)]
pub enum Message {
    CounterDelta(i32),
    FetchCompleted(Result<IpRecord, String>),
}

impl Clone for Message {
    fn clone(&self) -> (r: Message)
        ensures
            r.model() == self.model(),
    {
        match self {
            Message::CounterDelta(d) => Message::CounterDelta(*d),
            Message::FetchCompleted(Ok(rec)) => Message::FetchCompleted(Ok(rec.clone())),
            Message::FetchCompleted(Err(e)) => Message::FetchCompleted(Err(e.as_str().to_owned())),
        }
    }
}

/// The one asynchronous follow-up the application ever starts: the fetch of
/// the public IP address, issued once at startup.
#[derive(Debug, Clone, Copy, PartialEq, Eq)]
pub enum Effect {
    FetchIp,
}

/// The whole application state. `ip_record` and `last_error` are the two
/// outcomes of the same fetch; nothing makes them exclusive once both have
/// been delivered. The counter itself is not clamped at zero: only the view
/// withholds the decrement action (see `lemma_no_decrement_at_zero`).
#[derive(Debug, PartialEq, Eq)]
pub struct AppState {
    pub counter: i32,
    pub ip_record: Option<IpRecord>,
    pub last_error: Option<String>,
    pub circle: Circle,
}

/// The mathematical model of `AppState` that contracts speak of: the counter
/// as an unbounded integer, the two fetch outcomes as character sequences.
pub ghost struct StateModel {
    pub counter: int,
    pub ip_record: Option<Seq<char>>,
    pub last_error: Option<Seq<char>>,
}

/// The mathematical model of a `Message`.
pub ghost enum MsgModel {
    CounterDelta(int),
    FetchCompleted(Result<Seq<char>, Seq<char>>),
}

impl Message {
    pub open spec fn model(&self) -> MsgModel {
        match self {
            Message::CounterDelta(d) => MsgModel::CounterDelta(*d as int),
            Message::FetchCompleted(Ok(rec)) => MsgModel::FetchCompleted(Ok(rec.origin@)),
            Message::FetchCompleted(Err(e)) => MsgModel::FetchCompleted(Err(e@)),
        }
    }
}

/// The state every run starts from: counter zero, neither fetch outcome set.
pub open spec fn initial_model() -> StateModel {
    StateModel { counter: 0, ip_record: None, last_error: None }
}

/// The update transition on models: a delta is added to the counter; a fetch
/// outcome is recorded in its own field, the other field untouched.
pub open spec fn spec_update(s: StateModel, m: MsgModel) -> StateModel {
    match m {
        MsgModel::CounterDelta(d) => StateModel { counter: s.counter + d, ..s },
        MsgModel::FetchCompleted(Ok(o)) => StateModel { ip_record: Some(o), ..s },
        MsgModel::FetchCompleted(Err(e)) => StateModel { last_error: Some(e), ..s },
    }
}

impl AppState {
    pub open spec fn model(&self) -> StateModel {
        StateModel {
            counter: self.counter as int,
            ip_record: match self.ip_record {
                Some(rec) => Some(rec.origin@),
                None => None,
            },
            last_error: match self.last_error {
                Some(e) => Some(e@),
                None => None,
            },
        }
    }

    /// The startup state: zero counter, no fetch outcome yet, and the circle
    /// at its fixed offset from the canvas center.
    pub fn new() -> (s: AppState)
        ensures
            s.model() == initial_model(),
            s.circle == (Circle { x: 100, y: 100, radius: 50 }),
    {
        AppState {
            counter: 0,
            ip_record: None,
            last_error: None,
            circle: Circle { x: 100, y: 100, radius: 50 },
        }
    }

    /// The update transition. It never blocks, never starts a follow-up
    /// effect, and changes the state exactly as `spec_update` says; the
    /// circle is never touched.
    pub fn update(&mut self, msg: Message) -> (eff: Option<Effect>)
        requires
            msg.model() matches MsgModel::CounterDelta(d) ==> i32::MIN <= old(
                self,
            ).model().counter + d <= i32::MAX,
        ensures
            final(self).model() == spec_update(old(self).model(), msg.model()),
            final(self).circle == old(self).circle,
            eff is None,
    {
        match msg {
            Message::CounterDelta(d) => {
                self.counter = self.counter + d;
            },
            Message::FetchCompleted(Ok(rec)) => {
                self.ip_record = Some(rec);
            },
            Message::FetchCompleted(Err(e)) => {
                self.last_error = Some(e);
            },
        }
        None
    }
}

/// The effect the application starts alongside its first render: the one
/// fetch of the public IP address.
pub fn startup_effect() -> (e: Effect)
    ensures
        e == Effect::FetchIp,
{
    Effect::FetchIp
}

/// A sequence of messages folded through the update transition.
pub open spec fn apply_messages(s: StateModel, msgs: Seq<MsgModel>) -> StateModel
    decreases msgs.len(),
{
    if msgs.len() == 0 {
        s
    } else {
        spec_update(apply_messages(s, msgs.drop_last()), msgs.last())
    }
}

/// A counter message of a single increment or a single decrement.
pub open spec fn is_unit_delta(m: MsgModel) -> bool {
    m == MsgModel::CounterDelta(1int) || m == MsgModel::CounterDelta(-1int)
}

/// The sum of the deltas carried by a sequence of counter messages.
pub open spec fn delta_sum(msgs: Seq<MsgModel>) -> int
    decreases msgs.len(),
{
    if msgs.len() == 0 {
        0
    } else {
        delta_sum(msgs.drop_last()) + match msgs.last() {
            MsgModel::CounterDelta(d) => d,
            _ => 0,
        }
    }
}

/// Law: after any sequence of unit increments and decrements applied from the
/// initial state, the counter equals exactly the sum of the deltas. Nothing
/// in the transition clamps it at zero: a decrement delivered at zero drives
/// the counter negative, and only the view withholds that action.
pub proof fn lemma_counter_is_delta_sum(msgs: Seq<MsgModel>)
    requires
        forall|i: int| 0 <= i < msgs.len() ==> is_unit_delta(#[trigger] msgs[i]),
    ensures
        apply_messages(initial_model(), msgs).counter == delta_sum(msgs),
    decreases msgs.len(),
{
    if msgs.len() > 0 {
        assert(forall|i: int|
            0 <= i < msgs.drop_last().len() ==> is_unit_delta(#[trigger] msgs.drop_last()[i]));
        lemma_counter_is_delta_sum(msgs.drop_last());
    }
}

/// Law: a successful fetch outcome followed by a failed one leaves both the
/// record and the error set at once — the two fields are not exclusive.
pub proof fn lemma_fetch_outcomes_both_persist(s: StateModel, x: Seq<char>, y: Seq<char>)
    ensures
        ({
            let s2 = spec_update(
                spec_update(s, MsgModel::FetchCompleted(Ok(x))),
                MsgModel::FetchCompleted(Err(y)),
            );
            s2.ip_record == Some(x) && s2.last_error == Some(y) && s2.counter == s.counter
        }),
{
}

} // verus!
