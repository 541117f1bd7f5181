use vstd::prelude::*;
use crate::channel::sender_channel;
use crate::hub::{fans_out, HubModel};

verus! {

/// One operation that changes the hub, as the model sees it.
pub ghost enum HubOp {
    /// A subscriber registers on the channel with this identity.
    Subscribe(nat),
    Unsubscribe(usize),
    Evict(Set<usize>),
}

/// The hub after one operation.
pub open spec fn step(m: HubModel, op: HubOp) -> HubModel {
    match op {
        HubOp::Subscribe(chan) => m.subscribe(chan),
        HubOp::Unsubscribe(id) => m.unsubscribe(id),
        HubOp::Evict(failed) => m.evict(failed),
    }
}

/// The identities that the subscribes among `ops` hand out, in order, when
/// the operations run from `m` one after another.
pub open spec fn issued(m: HubModel, ops: Seq<HubOp>) -> Seq<nat>
    decreases ops.len(),
{
    if ops.len() == 0 {
        Seq::empty()
    } else {
        let here = if ops[0] is Subscribe { seq![m.next_id] } else { Seq::empty() };
        here + issued(step(m, ops[0]), ops.drop_first())
    }
}

/// Every operation keeps the hub well formed, as long as a subscribe still
/// finds an identity that fits in a `usize`.
pub proof fn lemma_step_wf(m: HubModel, op: HubOp)
    requires
        m.wf(),
        op is Subscribe ==> m.next_id < usize::MAX,
    ensures
        step(m, op).wf(),
        step(m, op).next_id >= m.next_id,
        step(m, op).next_id <= m.next_id + 1,
{
    match op {
        HubOp::Subscribe(chan) => {
            let n = step(m, op);
            assert(n.channels.dom() =~= m.channels.dom().insert(m.next_id as usize));
            assert forall|id: usize| #[trigger] n.channels.contains_key(id) implies 1 <= id < n.next_id by {
                if id != m.next_id as usize {
                    assert(m.channels.contains_key(id));
                }
            }
        },
        HubOp::Unsubscribe(id) => {
            assert(step(m, op).channels.dom() =~= m.channels.dom().remove(id));
        },
        HubOp::Evict(failed) => {
            assert(step(m, op).channels.dom() =~= m.channels.dom().difference(failed));
        },
    }
}

/// A publish reaches every registered subscriber exactly once, on that
/// subscriber's own channel and with the published text, and reaches no one
/// else.
pub proof fn lemma_fan_out(m: HubModel, text: Seq<char>, plan: Seq<crate::hub::Delivery>)
    requires
        fans_out(m, text, plan),
    ensures
        forall|id: usize| #[trigger] m.registered().contains(id) ==> exists|i: int| {
            &&& 0 <= i < plan.len()
            &&& #[trigger] plan[i].id == id
            &&& sender_channel(plan[i].sender) == m.channels[id]
            &&& plan[i].msg.text@ == text
        },
        forall|i: int, j: int| 0 <= i < plan.len() && 0 <= j < plan.len() && plan[i].id == plan[j].id ==> i == j,
        forall|i: int| 0 <= i < plan.len() ==> m.registered().contains(#[trigger] plan[i].id),
{
    let ids = crate::hub::delivery_ids(plan);
    assert forall|id: usize| #[trigger] m.registered().contains(id) implies exists|i: int| {
        &&& 0 <= i < plan.len()
        &&& #[trigger] plan[i].id == id
        &&& sender_channel(plan[i].sender) == m.channels[id]
        &&& plan[i].msg.text@ == text
    } by {
        assert(ids.to_set().contains(id));
        let i = choose|i: int| 0 <= i < ids.len() && ids[i] == id;
        assert(plan[i].id == id);
    }
    assert forall|i: int, j: int| 0 <= i < plan.len() && 0 <= j < plan.len() && plan[i].id == plan[j].id implies i == j by {
        assert(ids[i] == plan[i].id && ids[j] == plan[j].id);
    }
    assert forall|i: int| 0 <= i < plan.len() implies m.registered().contains(#[trigger] plan[i].id) by {
        assert(ids[i] == plan[i].id);
        assert(ids.to_set().contains(ids[i]));
    }
}

/// A subscriber that publishes a text is handed that text on its own channel,
/// like every other subscriber.
pub proof fn lemma_self_echo(m: HubModel, text: Seq<char>, plan: Seq<crate::hub::Delivery>, publisher: usize)
    requires
        fans_out(m, text, plan),
        m.registered().contains(publisher),
    ensures
        exists|i: int| {
            &&& 0 <= i < plan.len()
            &&& #[trigger] plan[i].id == publisher
            &&& sender_channel(plan[i].sender) == m.channels[publisher]
            &&& plan[i].msg.text@ == text
        },
{
    lemma_fan_out(m, text, plan);
}

/// After a publish whose deliveries to `failed` failed, those subscribers are
/// gone from the registry; every other subscriber stays on its channel and
/// had its delivery.
pub proof fn lemma_evicted_on_failure(m: HubModel, text: Seq<char>, plan: Seq<crate::hub::Delivery>, failed: Set<usize>)
    requires
        fans_out(m, text, plan),
    ensures
        m.evict(failed).registered() == m.registered().difference(failed),
        forall|id: usize| #[trigger] m.evict(failed).registered().contains(id)
            ==> m.evict(failed).channels[id] == m.channels[id],
        forall|id: usize| #[trigger] m.evict(failed).registered().contains(id) ==> exists|i: int| {
            &&& 0 <= i < plan.len()
            &&& #[trigger] plan[i].id == id
            &&& sender_channel(plan[i].sender) == m.evict(failed).channels[id]
            &&& plan[i].msg.text@ == text
        },
{
    lemma_fan_out(m, text, plan);
    assert(m.evict(failed).registered() =~= m.registered().difference(failed));
}

/// Unsubscribing twice does what unsubscribing once does, and unsubscribing
/// an identity that is not registered changes nothing.
pub proof fn lemma_unsubscribe_idempotent(m: HubModel, id: usize)
    ensures
        m.unsubscribe(id).unsubscribe(id) == m.unsubscribe(id),
        !m.registered().contains(id) ==> m.unsubscribe(id) == m,
{
    assert(m.unsubscribe(id).unsubscribe(id).channels =~= m.unsubscribe(id).channels);
    if !m.registered().contains(id) {
        assert(m.unsubscribe(id).channels =~= m.channels);
    }
}

/// The identities handed out along any run of operations increase strictly,
/// start at the hub's next identity, and none of them was registered before.
/// The run is short enough that every identity fits in a `usize`.
pub proof fn lemma_ids_unique(m: HubModel, ops: Seq<HubOp>)
    requires
        m.wf(),
        m.next_id + ops.len() <= usize::MAX,
    ensures
        forall|i: int, j: int| 0 <= i < j < issued(m, ops).len()
            ==> issued(m, ops)[i] < issued(m, ops)[j],
        forall|i: int| 0 <= i < issued(m, ops).len() ==> issued(m, ops)[i] >= m.next_id,
        forall|i: int, id: usize| 0 <= i < issued(m, ops).len() && m.registered().contains(id)
            ==> issued(m, ops)[i] != id,
    decreases ops.len(),
{
    if ops.len() > 0 {
        let next = step(m, ops[0]);
        lemma_step_wf(m, ops[0]);
        lemma_ids_unique(next, ops.drop_first());
        let here = if ops[0] is Subscribe { seq![m.next_id] } else { Seq::<nat>::empty() };
        let rest = issued(next, ops.drop_first());
        assert(issued(m, ops) == here + rest);
        if ops[0] is Subscribe {
            assert(next.next_id == m.next_id + 1);
        }
        assert forall|i: int| 0 <= i < issued(m, ops).len() implies issued(m, ops)[i] >= m.next_id by {
            if i >= here.len() {
                assert(issued(m, ops)[i] == rest[i - here.len()]);
            }
        }
        assert forall|i: int, j: int| 0 <= i < j < issued(m, ops).len()
            implies issued(m, ops)[i] < issued(m, ops)[j] by {
            if i >= here.len() {
                assert(issued(m, ops)[i] == rest[i - here.len()]);
            }
            assert(issued(m, ops)[j] == rest[j - here.len()]);
        }
    }
}

/// Two publishes on an unchanged hub hand a subscriber its two copies on one
/// and the same channel, the subscriber's own, each once: sent in the order of
/// the publishes, they come out of that channel in that order.
pub proof fn lemma_fifo(
    m: HubModel,
    id: usize,
    first: Seq<char>,
    first_plan: Seq<crate::hub::Delivery>,
    second: Seq<char>,
    second_plan: Seq<crate::hub::Delivery>,
)
    requires
        fans_out(m, first, first_plan),
        fans_out(m, second, second_plan),
        m.registered().contains(id),
    ensures
        exists|i: int, j: int| {
            &&& 0 <= i < first_plan.len()
            &&& 0 <= j < second_plan.len()
            &&& #[trigger] first_plan[i].id == id
            &&& #[trigger] second_plan[j].id == id
            &&& sender_channel(first_plan[i].sender) == m.channels[id]
            &&& sender_channel(second_plan[j].sender) == m.channels[id]
            &&& first_plan[i].msg.text@ == first
            &&& second_plan[j].msg.text@ == second
        },
{
    lemma_fan_out(m, first, first_plan);
    lemma_fan_out(m, second, second_plan);
    let i = choose|i: int| {
        &&& 0 <= i < first_plan.len()
        &&& #[trigger] first_plan[i].id == id
        &&& sender_channel(first_plan[i].sender) == m.channels[id]
        &&& first_plan[i].msg.text@ == first
    };
    let j = choose|j: int| {
        &&& 0 <= j < second_plan.len()
        &&& #[trigger] second_plan[j].id == id
        &&& sender_channel(second_plan[j].sender) == m.channels[id]
        &&& second_plan[j].msg.text@ == second
    };
    assert(first_plan[i].id == id && second_plan[j].id == id);
}

} // verus!
