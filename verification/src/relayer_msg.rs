//! The messages the queue carries.
//!
//! A [`RelayerMsg`] is either a message for one light client on one chain, or
//! one of a few combinators: wait for a time, give up after a time, do things
//! in order, or collect payloads and then build something from them. Handling a
//! message yields its successors; the combinators say how the successors of an
//! inner message become successors of the whole.

use crate::aggregate::{Aggregate, AggregateView};
use crate::data::{Data, DataView};
use crate::event::{Event, EventView};
use crate::fetch::{Fetch, FetchView};
use crate::ids::{ChainId, ChainIdView, LightClientKind};
use crate::msg::{Msg, MsgView};
use crate::wait::{Wait, WaitView};
use vstd::prelude::*;

verus! {

/// What a light client is asked to do, or told.
#[derive(Debug, PartialEq, Eq)]
pub enum LcMsg {
    /// Something was observed on the chain.
    Event(Event),
    /// A payload fetched from the chain. It belongs inside an aggregation.
    Data(Data),
    /// State is to be read from the chain.
    Fetch(Fetch),
    /// A transaction is to be submitted to the chain.
    Msg(Msg),
    /// A condition on the chain is to be waited for.
    Wait(Wait),
    /// A join point outside of an aggregation. The engine does not reduce it.
    Aggregate(Aggregate),
}

/// The value of an [`LcMsg`] as contracts see it.
pub enum LcMsgView {
    Event(EventView),
    Data(DataView),
    Fetch(FetchView),
    Msg(MsgView),
    Wait(WaitView),
    Aggregate(AggregateView),
}

impl View for LcMsg {
    type V = LcMsgView;

    open spec fn view(&self) -> LcMsgView {
        match *self {
            LcMsg::Event(x) => LcMsgView::Event(x@),
            LcMsg::Data(x) => LcMsgView::Data(x@),
            LcMsg::Fetch(x) => LcMsgView::Fetch(x@),
            LcMsg::Msg(x) => LcMsgView::Msg(x@),
            LcMsg::Wait(x) => LcMsgView::Wait(x@),
            LcMsg::Aggregate(x) => LcMsgView::Aggregate(x@),
        }
    }
}

impl Clone for LcMsg {
    fn clone(&self) -> (copy: LcMsg)
        ensures
            copy@ == self@,
    {
        match self {
            LcMsg::Event(x) => LcMsg::Event(x.clone()),
            LcMsg::Data(x) => LcMsg::Data(x.clone()),
            LcMsg::Fetch(x) => LcMsg::Fetch(x.clone()),
            LcMsg::Msg(x) => LcMsg::Msg(x.clone()),
            LcMsg::Wait(x) => LcMsg::Wait(x.clone()),
            LcMsg::Aggregate(x) => LcMsg::Aggregate(x.clone()),
        }
    }
}

/// A message for the light client `light_client` on chain `chain_id`.
#[derive(Debug, PartialEq, Eq)]
pub struct AnyLcMsg {
    pub light_client: LightClientKind,
    pub chain_id: ChainId,
    pub msg: LcMsg,
}

/// The value of an [`AnyLcMsg`] as contracts see it.
pub struct AnyLcMsgView {
    pub light_client: LightClientKind,
    pub chain_id: ChainIdView,
    pub msg: LcMsgView,
}

impl View for AnyLcMsg {
    type V = AnyLcMsgView;

    open spec fn view(&self) -> AnyLcMsgView {
        AnyLcMsgView { light_client: self.light_client, chain_id: self.chain_id@, msg: self.msg@ }
    }
}

impl Clone for AnyLcMsg {
    fn clone(&self) -> (copy: AnyLcMsg)
        ensures
            copy@ == self@,
    {
        AnyLcMsg {
            light_client: self.light_client,
            chain_id: self.chain_id.clone(),
            msg: self.msg.clone(),
        }
    }
}

/// A payload collected by an aggregation, with the light client and chain it
/// was fetched for.
#[derive(Debug, PartialEq, Eq)]
pub struct AggregateData {
    pub light_client: LightClientKind,
    pub chain_id: ChainId,
    pub data: Data,
}

/// The value of an [`AggregateData`] as contracts see it.
pub struct AggregateDataView {
    pub light_client: LightClientKind,
    pub chain_id: ChainIdView,
    pub data: DataView,
}

impl View for AggregateData {
    type V = AggregateDataView;

    open spec fn view(&self) -> AggregateDataView {
        AggregateDataView { light_client: self.light_client, chain_id: self.chain_id@, data: self.data@ }
    }
}

impl Clone for AggregateData {
    fn clone(&self) -> (copy: AggregateData)
        ensures
            copy@ == self@,
    {
        AggregateData {
            light_client: self.light_client,
            chain_id: self.chain_id.clone(),
            data: self.data.clone(),
        }
    }
}

/// The join point of an aggregation, with the light client and chain it acts
/// for.
#[derive(Debug, PartialEq, Eq)]
pub struct AggregateReceiver {
    pub light_client: LightClientKind,
    pub chain_id: ChainId,
    pub aggregate: Aggregate,
}

/// The value of an [`AggregateReceiver`] as contracts see it.
pub struct AggregateReceiverView {
    pub light_client: LightClientKind,
    pub chain_id: ChainIdView,
    pub aggregate: AggregateView,
}

impl View for AggregateReceiver {
    type V = AggregateReceiverView;

    open spec fn view(&self) -> AggregateReceiverView {
        AggregateReceiverView {
            light_client: self.light_client,
            chain_id: self.chain_id@,
            aggregate: self.aggregate@,
        }
    }
}

impl Clone for AggregateReceiver {
    fn clone(&self) -> (copy: AggregateReceiver)
        ensures
            copy@ == self@,
    {
        AggregateReceiver {
            light_client: self.light_client,
            chain_id: self.chain_id.clone(),
            aggregate: self.aggregate.clone(),
        }
    }
}

/// An element of the queue.
#[derive(Debug, PartialEq, Eq)]
pub enum RelayerMsg {
    Lc(AnyLcMsg),
    /// Nothing is to be done before `timestamp`, in seconds since the Unix epoch.
    DeferUntil { timestamp: u64 },
    /// `msg` is dropped if it has not been handled by `timeout_timestamp`.
    Timeout { timeout_timestamp: u64, msg: Box<RelayerMsg> },
    /// The messages are handled one after the other, the first one first.
    Sequence(Vec<RelayerMsg>),
    /// `msg` is to be tried again this many times if it fails.
    Retry(u8, Box<RelayerMsg>),
    /// The messages of `queue` are handled until it is empty; payloads among
    /// their successors are collected in `data`. Then `receiver` builds its
    /// message from `data`.
    Aggregate { queue: Vec<RelayerMsg>, data: Vec<AggregateData>, receiver: AggregateReceiver },
}

/// The value of a [`RelayerMsg`] as contracts see it.
pub enum RelayerMsgView {
    Lc(AnyLcMsgView),
    DeferUntil { timestamp: u64 },
    Timeout { timeout_timestamp: u64, msg: Box<RelayerMsgView> },
    Sequence(Seq<RelayerMsgView>),
    Retry(u8, Box<RelayerMsgView>),
    Aggregate {
        queue: Seq<RelayerMsgView>,
        data: Seq<AggregateDataView>,
        receiver: AggregateReceiverView,
    },
}

/// The value of `msg`: the same tree, with every vector and string replaced by
/// the sequence it holds.
pub open spec fn view_of(msg: RelayerMsg) -> RelayerMsgView
    decreases msg,
{
    match msg {
        RelayerMsg::Lc(lc) => RelayerMsgView::Lc(lc@),
        RelayerMsg::DeferUntil { timestamp } => RelayerMsgView::DeferUntil { timestamp },
        RelayerMsg::Timeout { timeout_timestamp, msg } => RelayerMsgView::Timeout {
            timeout_timestamp,
            msg: Box::new(view_of(*msg)),
        },
        RelayerMsg::Sequence(msgs) => RelayerMsgView::Sequence(
            Seq::new(
                msgs@.len(),
                |i: int|
                    if 0 <= i < msgs@.len() {
                        view_of(msgs@[i])
                    } else {
                        RelayerMsgView::Sequence(Seq::empty())
                    },
            ),
        ),
        RelayerMsg::Retry(attempts, msg) => RelayerMsgView::Retry(attempts, Box::new(view_of(*msg))),
        RelayerMsg::Aggregate { queue, data, receiver } => RelayerMsgView::Aggregate {
            queue: Seq::new(
                queue@.len(),
                |i: int|
                    if 0 <= i < queue@.len() {
                        view_of(queue@[i])
                    } else {
                        RelayerMsgView::Sequence(Seq::empty())
                    },
            ),
            data: data@.map_values(|d: AggregateData| d@),
            receiver: receiver@,
        },
    }
}

impl View for RelayerMsg {
    type V = RelayerMsgView;

    open spec fn view(&self) -> RelayerMsgView {
        view_of(*self)
    }
}

/// The values of a sequence of messages.
pub open spec fn views(msgs: Seq<RelayerMsg>) -> Seq<RelayerMsgView> {
    msgs.map_values(|m: RelayerMsg| m@)
}

/// The values of a sequence of collected payloads.
pub open spec fn data_views(data: Seq<AggregateData>) -> Seq<AggregateDataView> {
    data.map_values(|d: AggregateData| d@)
}

/// The value of a sequence is the sequence of the values of its messages.
pub proof fn lemma_view_sequence(msgs: Vec<RelayerMsg>)
    ensures
        RelayerMsg::Sequence(msgs)@ == RelayerMsgView::Sequence(views(msgs@)),
{
    assert(RelayerMsg::Sequence(msgs)@->Sequence_0 =~= views(msgs@));
}

/// The value of an aggregation holds the values of its queue and of its data.
pub proof fn lemma_view_aggregate(
    queue: Vec<RelayerMsg>,
    data: Vec<AggregateData>,
    receiver: AggregateReceiver,
)
    ensures
        (RelayerMsg::Aggregate { queue, data, receiver })@ == (RelayerMsgView::Aggregate {
            queue: views(queue@),
            data: data_views(data@),
            receiver: receiver@,
        }),
{
    assert((RelayerMsg::Aggregate { queue, data, receiver })@->Aggregate_queue =~= views(queue@));
}

/// A copy of each of `msgs`.
fn clone_msgs(msgs: &Vec<RelayerMsg>) -> (copies: Vec<RelayerMsg>)
    ensures
        views(copies@) == views(msgs@),
    decreases msgs,
{
    let mut copies: Vec<RelayerMsg> = Vec::new();
    let mut i: usize = 0;
    assert(views(copies@) =~= views(msgs@.take(0)));
    while i < msgs.len()
        invariant
            i <= msgs.len(),
            views(copies@) == views(msgs@.take(i as int)),
        decreases msgs.len() - i,
    {
        let ghost before = copies@;
        let copy = clone_msg(&msgs[i]);
        copies.push(copy);
        assert(views(copies@) =~= views(msgs@.take(i + 1))) by {
            assert(views(copies@) =~= views(before).push(copy@));
            assert(msgs@.take(i + 1) =~= msgs@.take(i as int).push(msgs@[i as int]));
        }
        i += 1;
    }
    assert(msgs@.take(msgs.len() as int) =~= msgs@);
    copies
}

/// A copy of `msg`.
fn clone_msg(msg: &RelayerMsg) -> (copy: RelayerMsg)
    ensures
        copy@ == msg@,
    decreases msg,
{
    match msg {
        RelayerMsg::Lc(lc) => RelayerMsg::Lc(lc.clone()),
        RelayerMsg::DeferUntil { timestamp } => RelayerMsg::DeferUntil { timestamp: *timestamp },
        RelayerMsg::Timeout { timeout_timestamp, msg: inner } => RelayerMsg::Timeout {
            timeout_timestamp: *timeout_timestamp,
            msg: Box::new(clone_msg(&**inner)),
        },
        RelayerMsg::Sequence(msgs) => {
            proof {
                lemma_view_sequence(*msgs);
            }
            RelayerMsg::seq(clone_msgs(msgs))
        },
        RelayerMsg::Retry(attempts, inner) => RelayerMsg::Retry(
            *attempts,
            Box::new(clone_msg(&**inner)),
        ),
        RelayerMsg::Aggregate { queue, data, receiver } => {
            proof {
                lemma_view_aggregate(*queue, *data, *receiver);
            }
            let data_copy = data.clone();
            assert(data_views(data_copy@) =~= data_views(data@));
            RelayerMsg::aggregate_with(clone_msgs(queue), data_copy, receiver.clone())
        },
    }
}

impl Clone for RelayerMsg {
    fn clone(&self) -> (copy: RelayerMsg)
        ensures
            copy@ == self@,
    {
        clone_msg(self)
    }
}

impl RelayerMsgView {
    /// A fetch addressed to `light_client` on `chain_id`.
    pub open spec fn fetch(
        light_client: LightClientKind,
        chain_id: ChainIdView,
        fetch: FetchView,
    ) -> RelayerMsgView {
        RelayerMsgView::Lc(AnyLcMsgView { light_client, chain_id, msg: LcMsgView::Fetch(fetch) })
    }

    /// A wait addressed to `light_client` on `chain_id`.
    pub open spec fn wait(
        light_client: LightClientKind,
        chain_id: ChainIdView,
        wait: WaitView,
    ) -> RelayerMsgView {
        RelayerMsgView::Lc(AnyLcMsgView { light_client, chain_id, msg: LcMsgView::Wait(wait) })
    }

    /// A transaction for `light_client` on `chain_id`.
    pub open spec fn msg(
        light_client: LightClientKind,
        chain_id: ChainIdView,
        msg: MsgView,
    ) -> RelayerMsgView {
        RelayerMsgView::Lc(AnyLcMsgView { light_client, chain_id, msg: LcMsgView::Msg(msg) })
    }

    /// A payload fetched for `light_client` on `chain_id`.
    pub open spec fn data(
        light_client: LightClientKind,
        chain_id: ChainIdView,
        data: DataView,
    ) -> RelayerMsgView {
        RelayerMsgView::Lc(AnyLcMsgView { light_client, chain_id, msg: LcMsgView::Data(data) })
    }

    /// An event observed by `light_client` on `chain_id`.
    pub open spec fn event(
        light_client: LightClientKind,
        chain_id: ChainIdView,
        event: EventView,
    ) -> RelayerMsgView {
        RelayerMsgView::Lc(AnyLcMsgView { light_client, chain_id, msg: LcMsgView::Event(event) })
    }

    /// An aggregation that has collected nothing yet.
    pub open spec fn aggregate(
        queue: Seq<RelayerMsgView>,
        receiver: AggregateReceiverView,
    ) -> RelayerMsgView {
        RelayerMsgView::Aggregate { queue, data: Seq::empty(), receiver }
    }
}

impl AggregateReceiverView {
    /// The join point `aggregate`, acting for `light_client` on `chain_id`.
    pub open spec fn new(
        light_client: LightClientKind,
        chain_id: ChainIdView,
        aggregate: AggregateView,
    ) -> AggregateReceiverView {
        AggregateReceiverView { light_client, chain_id, aggregate }
    }
}

impl AggregateReceiver {
    /// The join point `aggregate`, acting for `light_client` on `chain_id`.
    pub fn new(light_client: LightClientKind, chain_id: ChainId, aggregate: Aggregate) -> (receiver:
        AggregateReceiver)
        ensures
            receiver@ == AggregateReceiverView::new(light_client, chain_id@, aggregate@),
    {
        AggregateReceiver { light_client, chain_id, aggregate }
    }
}

impl RelayerMsg {
    /// A fetch addressed to `light_client` on `chain_id`.
    pub fn fetch(light_client: LightClientKind, chain_id: ChainId, fetch: Fetch) -> (msg: RelayerMsg)
        ensures
            msg@ == RelayerMsgView::fetch(light_client, chain_id@, fetch@),
    {
        RelayerMsg::Lc(AnyLcMsg { light_client, chain_id, msg: LcMsg::Fetch(fetch) })
    }

    /// A wait addressed to `light_client` on `chain_id`.
    pub fn wait(light_client: LightClientKind, chain_id: ChainId, wait: Wait) -> (msg: RelayerMsg)
        ensures
            msg@ == RelayerMsgView::wait(light_client, chain_id@, wait@),
    {
        RelayerMsg::Lc(AnyLcMsg { light_client, chain_id, msg: LcMsg::Wait(wait) })
    }

    /// A transaction for `light_client` on `chain_id`.
    pub fn msg(light_client: LightClientKind, chain_id: ChainId, msg: Msg) -> (out: RelayerMsg)
        ensures
            out@ == RelayerMsgView::msg(light_client, chain_id@, msg@),
    {
        RelayerMsg::Lc(AnyLcMsg { light_client, chain_id, msg: LcMsg::Msg(msg) })
    }

    /// A payload fetched for `light_client` on `chain_id`.
    pub fn data(light_client: LightClientKind, chain_id: ChainId, data: Data) -> (msg: RelayerMsg)
        ensures
            msg@ == RelayerMsgView::data(light_client, chain_id@, data@),
    {
        RelayerMsg::Lc(AnyLcMsg { light_client, chain_id, msg: LcMsg::Data(data) })
    }

    /// An event observed by `light_client` on `chain_id`.
    pub fn event(light_client: LightClientKind, chain_id: ChainId, event: Event) -> (msg: RelayerMsg)
        ensures
            msg@ == RelayerMsgView::event(light_client, chain_id@, event@),
    {
        RelayerMsg::Lc(AnyLcMsg { light_client, chain_id, msg: LcMsg::Event(event) })
    }

    /// The sequence of `msgs`, as given: nested sequences stay nested.
    pub fn seq(msgs: Vec<RelayerMsg>) -> (msg: RelayerMsg)
        ensures
            msg@ == RelayerMsgView::Sequence(views(msgs@)),
    {
        proof {
            lemma_view_sequence(msgs);
        }
        RelayerMsg::Sequence(msgs)
    }

    /// An aggregation that has collected nothing yet.
    pub fn aggregate(queue: Vec<RelayerMsg>, receiver: AggregateReceiver) -> (msg: RelayerMsg)
        ensures
            msg@ == RelayerMsgView::aggregate(views(queue@), receiver@),
    {
        let data: Vec<AggregateData> = Vec::new();
        proof {
            lemma_view_aggregate(queue, data, receiver);
            assert(data_views(data@) =~= Seq::empty());
        }
        RelayerMsg::Aggregate { queue, data, receiver }
    }

    /// An aggregation that starts out with the payloads `data`.
    pub fn aggregate_with(
        queue: Vec<RelayerMsg>,
        data: Vec<AggregateData>,
        receiver: AggregateReceiver,
    ) -> (msg: RelayerMsg)
        ensures
            msg@ == (RelayerMsgView::Aggregate {
                queue: views(queue@),
                data: data_views(data@),
                receiver: receiver@,
            }),
    {
        proof {
            lemma_view_aggregate(queue, data, receiver);
        }
        RelayerMsg::Aggregate { queue, data, receiver }
    }
}

/// The vector that holds `a`.
pub fn msgs1(a: RelayerMsg) -> (msgs: Vec<RelayerMsg>)
    ensures
        views(msgs@) == seq![a@],
        msgs@.len() == 1,
{
    let msgs = vec![a];
    assert(views(msgs@) =~= seq![a@]);
    msgs
}

/// The vector that holds `a`, then `b`.
pub fn msgs2(a: RelayerMsg, b: RelayerMsg) -> (msgs: Vec<RelayerMsg>)
    ensures
        views(msgs@) == seq![a@, b@],
        msgs@.len() == 2,
{
    let msgs = vec![a, b];
    assert(views(msgs@) =~= seq![a@, b@]);
    msgs
}

/// The vector that holds `a`, then `b`, then `c`.
pub fn msgs3(a: RelayerMsg, b: RelayerMsg, c: RelayerMsg) -> (msgs: Vec<RelayerMsg>)
    ensures
        views(msgs@) == seq![a@, b@, c@],
        msgs@.len() == 3,
{
    let msgs = vec![a, b, c];
    assert(views(msgs@) =~= seq![a@, b@, c@]);
    msgs
}

/// The empty vector of messages.
pub fn no_msgs() -> (msgs: Vec<RelayerMsg>)
    ensures
        views(msgs@) == Seq::<RelayerMsgView>::empty(),
        msgs@.len() == 0,
{
    let msgs: Vec<RelayerMsg> = Vec::new();
    assert(views(msgs@) =~= Seq::<RelayerMsgView>::empty());
    msgs
}

/// The messages of `msg` in the order a sequence would handle them: a sequence
/// stands for its messages, each flattened in turn; any other message stands
/// for itself.
pub open spec fn flatten(msg: RelayerMsgView) -> Seq<RelayerMsgView>
    decreases msg,
{
    match msg {
        RelayerMsgView::Sequence(msgs) => flatten_all(msgs),
        _ => seq![msg],
    }
}

/// The flattened messages of `msgs`, one after the other.
pub open spec fn flatten_all(msgs: Seq<RelayerMsgView>) -> Seq<RelayerMsgView>
    decreases msgs,
{
    if msgs.len() == 0 {
        Seq::empty()
    } else {
        flatten(msgs[0]) + flatten_all(msgs.drop_first())
    }
}

/// `msg` without nested sequences: the one message it flattens to, or the
/// sequence of the messages it flattens to.
pub open spec fn spec_flatten_seq(msg: RelayerMsgView) -> RelayerMsgView {
    let msgs = flatten(msg);
    if msgs.len() == 1 {
        msgs[0]
    } else {
        RelayerMsgView::Sequence(msgs)
    }
}

/// Whether `msg` is no sequence.
pub open spec fn is_leaf(msg: RelayerMsgView) -> bool {
    !(msg is Sequence)
}

/// Flattening distributes over concatenation.
pub proof fn lemma_flatten_all_concat(a: Seq<RelayerMsgView>, b: Seq<RelayerMsgView>)
    ensures
        flatten_all(a + b) == flatten_all(a) + flatten_all(b),
    decreases a.len(),
{
    if a.len() == 0 {
        assert(a + b =~= b);
        assert(flatten_all(a) + flatten_all(b) =~= flatten_all(b));
    } else {
        assert((a + b).drop_first() =~= a.drop_first() + b);
        assert((a + b)[0] == a[0]);
        lemma_flatten_all_concat(a.drop_first(), b);
        assert(flatten_all(a + b) =~= flatten_all(a) + flatten_all(b));
    }
}

/// No flattened message is a sequence.
pub proof fn lemma_flatten_leaves(msg: RelayerMsgView)
    ensures
        forall|i: int| 0 <= i < flatten(msg).len() ==> is_leaf(#[trigger] flatten(msg)[i]),
    decreases msg,
{
    match msg {
        RelayerMsgView::Sequence(msgs) => {
            lemma_flatten_all_leaves(msgs);
            assert(flatten(msg) == flatten_all(msgs));
        },
        _ => {
            assert forall|i: int| 0 <= i < flatten(msg).len() implies is_leaf(
                #[trigger] flatten(msg)[i],
            ) by {
                assert(flatten(msg)[i] == msg);
            }
        },
    }
}

/// No flattened message is a sequence.
pub proof fn lemma_flatten_all_leaves(msgs: Seq<RelayerMsgView>)
    ensures
        forall|i: int| 0 <= i < flatten_all(msgs).len() ==> is_leaf(#[trigger] flatten_all(msgs)[i]),
    decreases msgs,
{
    if msgs.len() > 0 {
        lemma_flatten_leaves(msgs[0]);
        lemma_flatten_all_leaves(msgs.drop_first());
        let head = flatten(msgs[0]);
        let tail = flatten_all(msgs.drop_first());
        assert forall|i: int| 0 <= i < flatten_all(msgs).len() implies is_leaf(
            #[trigger] flatten_all(msgs)[i],
        ) by {
            if i < head.len() {
                assert(flatten_all(msgs)[i] == head[i]);
            } else {
                assert(flatten_all(msgs)[i] == tail[i - head.len()]);
            }
        }
    }
}

/// Messages that are no sequences flatten to themselves.
pub proof fn lemma_flatten_all_of_leaves(msgs: Seq<RelayerMsgView>)
    requires
        forall|i: int| 0 <= i < msgs.len() ==> is_leaf(#[trigger] msgs[i]),
    ensures
        flatten_all(msgs) == msgs,
    decreases msgs.len(),
{
    if msgs.len() > 0 {
        assert(is_leaf(msgs[0]));
        assert(flatten(msgs[0]) =~= seq![msgs[0]]);
        assert forall|i: int| 0 <= i < msgs.drop_first().len() implies is_leaf(
            #[trigger] msgs.drop_first()[i],
        ) by {
            assert(msgs.drop_first()[i] == msgs[i + 1]);
        }
        lemma_flatten_all_of_leaves(msgs.drop_first());
        assert(flatten_all(msgs) =~= msgs);
    } else {
        assert(flatten_all(msgs) =~= msgs);
    }
}

/// Flattening twice is flattening once.
pub proof fn lemma_flatten_seq_idempotent(msg: RelayerMsgView)
    ensures
        spec_flatten_seq(spec_flatten_seq(msg)) == spec_flatten_seq(msg),
{
    let msgs = flatten(msg);
    lemma_flatten_leaves(msg);
    if msgs.len() == 1 {
        assert(is_leaf(msgs[0]));
        assert(flatten(msgs[0]) =~= seq![msgs[0]]);
    } else {
        lemma_flatten_all_of_leaves(msgs);
    }
}

/// A flattened message holds no nested sequence: it is either no sequence at
/// all, or a sequence of messages none of which is a sequence, and then not of
/// exactly one message.
pub proof fn lemma_flatten_seq_flat(msg: RelayerMsgView)
    ensures
        match spec_flatten_seq(msg) {
            RelayerMsgView::Sequence(msgs) => msgs.len() != 1 && forall|i: int|
                0 <= i < msgs.len() ==> is_leaf(#[trigger] msgs[i]),
            _ => true,
        },
{
    lemma_flatten_leaves(msg);
    if flatten(msg).len() == 1 {
        assert(is_leaf(flatten(msg)[0]));
    }
}

/// Where a sequence stands inside a sequence does not matter: a sequence
/// `before + [Sequence(inner)] + after` flattens to what `before + inner +
/// after` flattens to.
pub proof fn lemma_flatten_seq_associative(
    before: Seq<RelayerMsgView>,
    inner: Seq<RelayerMsgView>,
    after: Seq<RelayerMsgView>,
)
    ensures
        spec_flatten_seq(
            RelayerMsgView::Sequence(before + seq![RelayerMsgView::Sequence(inner)] + after),
        ) == spec_flatten_seq(RelayerMsgView::Sequence(before + inner + after)),
{
    let nested = seq![RelayerMsgView::Sequence(inner)];
    lemma_flatten_all_concat(before + nested, after);
    lemma_flatten_all_concat(before, nested);
    lemma_flatten_all_concat(before + inner, after);
    lemma_flatten_all_concat(before, inner);
    assert(nested.drop_first() =~= Seq::<RelayerMsgView>::empty());
    assert(flatten_all(nested.drop_first()) =~= Seq::<RelayerMsgView>::empty());
    assert(flatten(nested[0]) == flatten_all(inner));
    assert(flatten_all(nested) =~= flatten_all(inner));
}

/// The values of a concatenation are the values of its parts, concatenated.
pub proof fn lemma_views_concat(a: Seq<RelayerMsg>, b: Seq<RelayerMsg>)
    ensures
        views(a + b) == views(a) + views(b),
{
    assert(views(a + b) =~= views(a) + views(b));
}

/// Flattening the messages from position `k` on starts with the flattened
/// message at `k`.
proof fn lemma_flatten_all_from(msgs: Seq<RelayerMsgView>, k: int)
    requires
        0 <= k < msgs.len(),
    ensures
        flatten_all(msgs.subrange(k, msgs.len() as int)) == flatten(msgs[k]) + flatten_all(
            msgs.subrange(k + 1, msgs.len() as int),
        ),
{
    let from_k = msgs.subrange(k, msgs.len() as int);
    assert(from_k[0] == msgs[k]);
    assert(from_k.drop_first() =~= msgs.subrange(k + 1, msgs.len() as int));
}

/// The messages of `msg` in the order a sequence would handle them.
fn flatten_msgs(msg: RelayerMsg) -> (flat: Vec<RelayerMsg>)
    ensures
        views(flat@) == flatten(msg@),
    decreases msg,
{
    match msg {
        RelayerMsg::Sequence(msgs) => {
            proof {
                lemma_view_sequence(msgs);
            }
            let ghost all = msgs@;
            let ghost n = all.len() as int;
            let mut rest = msgs;
            let mut flat: Vec<RelayerMsg> = Vec::new();
            assert(views(flat@) =~= flatten_all(views(all).subrange(n, n)));
            while rest.len() > 0
                invariant
                    n == all.len(),
                    rest@.len() <= n,
                    forall|i: int| 0 <= i < rest@.len() ==> rest@[i] == all[i],
                    views(flat@) == flatten_all(views(all).subrange(rest@.len() as int, n)),
                    forall|i: int| 0 <= i < n ==> decreases_to!(msg => #[trigger] all[i]),
                decreases rest@.len(),
            {
                let ghost k = rest@.len() as int - 1;
                let last = rest.pop().unwrap();
                assert(last == all[k]);
                let mut head = flatten_msgs(last);
                proof {
                    lemma_flatten_all_from(views(all), k);
                    lemma_views_concat(head@, flat@);
                }
                head.append(&mut flat);
                flat = head;
            }
            assert(views(all).subrange(0, n) =~= views(all));
            flat
        },
        other => {
            let flat = vec![other];
            assert(views(flat@) =~= seq![other@]);
            flat
        },
    }
}

/// Removes nested sequences from `msg`.
///
/// A message that is no sequence is returned as it is. A sequence is replaced
/// by the messages it holds, at any depth, in handling order: by that one
/// message if there is exactly one, else by a sequence of them, which then
/// holds no sequence.
pub fn flatten_seq(msg: RelayerMsg) -> (flat: RelayerMsg)
    ensures
        flat@ == spec_flatten_seq(msg@),
{
    let mut msgs = flatten_msgs(msg);
    if msgs.len() == 1 {
        let only = msgs.pop().unwrap();
        only
    } else {
        proof {
            lemma_view_sequence(msgs);
        }
        RelayerMsg::Sequence(msgs)
    }
}

} // verus!
