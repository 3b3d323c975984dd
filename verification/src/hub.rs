//! The connection registry of a broadcast hub, and what a hub hands out for
//! delivery.
//!
//! The registry knows connections by their identifiers only. The sinks that
//! messages go to live outside the engine, which is told to whom a text goes
//! and tells the hub when a connection has gone.

use vstd::prelude::*;

use crate::timer::TimerCommand;

verus! {

/// `members` without `id`, the order of the others kept. Where `id` occurs
/// several times, which cannot happen in a registry, one occurrence goes.
pub open spec fn without(members: Seq<i32>, id: i32) -> Seq<i32> {
    if members.contains(id) {
        members.remove(members.index_of(id))
    } else {
        members
    }
}

/// `members` with `id` among them: at the end where it is new.
pub open spec fn with_member(members: Seq<i32>, id: i32) -> Seq<i32> {
    if members.contains(id) {
        members
    } else {
        members.push(id)
    }
}

/// The connections that a hub sends to, in the order in which they came.
pub struct Registry {
    ids: Vec<i32>,
}

/// One text and the connections that it goes to.
pub struct Delivery {
    pub recipients: Vec<i32>,
    pub text: String,
}

/// What a delivery holds: the recipients in order, and the text.
pub ghost struct DeliveryView {
    pub recipients: Seq<i32>,
    pub text: Seq<char>,
}

impl View for Delivery {
    type V = DeliveryView;

    open spec fn view(&self) -> DeliveryView {
        DeliveryView { recipients: self.recipients@, text: self.text@ }
    }
}

impl Delivery {
    /// Whether this delivery carries `text` to exactly `recipients`, in order.
    pub open spec fn carries(&self, recipients: Seq<i32>, text: Seq<char>) -> bool {
        self.recipients@ == recipients && self.text@ == text
    }
}

/// What a step of a hub hands out: texts to deliver and requests to the
/// timer scheduler, each in order.
pub struct HubOutput {
    pub deliveries: Vec<Delivery>,
    pub timers: Vec<TimerCommand>,
}

/// What each delivery of `deliveries` holds.
pub open spec fn deliveries_of(deliveries: Seq<Delivery>) -> Seq<DeliveryView> {
    Seq::new(deliveries.len(), |i: int| deliveries[i]@)
}

/// The answer to one connection: `wire` for `to` alone. Nothing is
/// delivered where `to` is not registered.
pub open spec fn reply_for(members: Seq<i32>, to: i32, wire: Seq<char>) -> Seq<DeliveryView> {
    if members.contains(to) {
        seq![DeliveryView { recipients: seq![to], text: wire }]
    } else {
        Seq::empty()
    }
}

/// One text for every member.
pub open spec fn fan_out_for(members: Seq<i32>, wire: Seq<char>) -> Seq<DeliveryView> {
    seq![DeliveryView { recipients: members, text: wire }]
}

/// Each text of `wires` for every member, in order.
pub open spec fn fan_out_all(members: Seq<i32>, wires: Seq<Seq<char>>) -> Seq<DeliveryView>
    decreases wires.len(),
{
    if wires.len() == 0 {
        Seq::empty()
    } else {
        fan_out_all(members, wires.drop_last()) + fan_out_for(members, wires.last())
    }
}

/// `members` without any of `gone`, the order of the others kept.
pub open spec fn without_all(members: Seq<i32>, gone: Seq<i32>) -> Seq<i32>
    decreases gone.len(),
{
    if gone.len() == 0 {
        members
    } else {
        without(without_all(members, gone.drop_last()), gone.last())
    }
}

impl HubOutput {
    /// Nothing to deliver and nothing to schedule.
    pub open spec fn is_silent(&self) -> bool {
        self.deliveries@.len() == 0 && self.timers@.len() == 0
    }

    /// An output without deliveries and without timer requests.
    pub fn silent() -> (output: HubOutput)
        ensures
            output.is_silent(),
    {
        HubOutput { deliveries: Vec::new(), timers: Vec::new() }
    }
}

impl View for Registry {
    type V = Seq<i32>;

    closed spec fn view(&self) -> Seq<i32> {
        self.ids@
    }
}

impl Registry {
    /// No connection is registered twice.
    pub open spec fn wf(&self) -> bool {
        self@.no_duplicates()
    }

    /// A registry without connections.
    pub fn new() -> (registry: Registry)
        ensures
            registry@ == Seq::<i32>::empty(),
            registry.wf(),
    {
        Registry { ids: Vec::new() }
    }

    /// The place of `id` in the registry, if it is registered.
    fn position(&self, id: i32) -> (found: Option<usize>)
        ensures
            match found {
                Some(i) => i < self@.len() && self@[i as int] == id,
                None => !self@.contains(id),
            },
    {
        let mut i: usize = 0;
        while i < self.ids.len()
            invariant
                i <= self.ids.len(),
                forall|j: int| 0 <= j < i ==> self.ids@[j] != id,
            decreases self.ids.len() - i,
        {
            if self.ids[i] == id {
                return Some(i);
            }
            i += 1;
        }
        None
    }

    /// Whether `id` is registered.
    pub fn contains(&self, id: i32) -> (known: bool)
        ensures
            known == self@.contains(id),
    {
        self.position(id).is_some()
    }

    /// The number of registered connections.
    pub fn len(&self) -> (count: usize)
        ensures
            count == self@.len(),
    {
        self.ids.len()
    }

    /// Registers `id`. A connection that is known already stays where it is.
    pub fn register(&mut self, id: i32)
        requires
            old(self).wf(),
        ensures
            final(self).wf(),
            final(self)@ == with_member(old(self)@, id),
    {
        if self.position(id).is_none() {
            self.ids.push(id);
        }
    }

    /// Takes `id` out of the registry. An unknown `id` changes nothing.
    pub fn unregister(&mut self, id: i32)
        requires
            old(self).wf(),
        ensures
            final(self).wf(),
            final(self)@ == without(old(self)@, id),
            !final(self)@.contains(id),
    {
        match self.position(id) {
            Some(i) => {
                let ghost before = self.ids@;
                assert(before.index_of(id) == i as int);
                self.ids.remove(i);
                assert forall|k: int| 0 <= k < self.ids@.len() implies self.ids@[k] != id by {
                    if k < i {
                        assert(self.ids@[k] == before[k]);
                    } else {
                        assert(self.ids@[k] == before[k + 1]);
                    }
                }
            },
            None => {},
        }
    }

    /// The registered connections, in order.
    pub fn members(&self) -> (ids: Vec<i32>)
        ensures
            ids@ == self@,
    {
        let mut ids: Vec<i32> = Vec::new();
        let mut i: usize = 0;
        while i < self.ids.len()
            invariant
                i <= self.ids.len(),
                ids@ == self.ids@.take(i as int),
            decreases self.ids.len() - i,
        {
            ids.push(self.ids[i]);
            assert(self.ids@.take(i + 1) =~= self.ids@.take(i as int).push(self.ids@[i as int]));
            i += 1;
        }
        assert(self.ids@.take(self.ids@.len() as int) =~= self.ids@);
        ids
    }

    /// `text` for every registered connection.
    pub fn fan_out(&self, text: String) -> (delivery: Delivery)
        ensures
            delivery.carries(self@, text@),
    {
        Delivery { recipients: self.members(), text }
    }

    /// Takes every connection of `gone` out of the registry: those whose
    /// sink did not take a text. One that is not registered changes nothing.
    pub fn unregister_all(&mut self, gone: &Vec<i32>)
        requires
            old(self).wf(),
        ensures
            final(self).wf(),
            final(self)@ == without_all(old(self)@, gone@),
            forall|k: int| 0 <= k < gone@.len() ==> !final(self)@.contains(#[trigger] gone@[k]),
    {
        let mut i: usize = 0;
        assert(gone@.take(0) =~= Seq::<i32>::empty());
        while i < gone.len()
            invariant
                i <= gone.len(),
                self.wf(),
                self@ == without_all(old(self)@, gone@.take(i as int)),
                forall|k: int| 0 <= k < i ==> !self@.contains(#[trigger] gone@[k]),
            decreases gone.len() - i,
        {
            let ghost before = self@;
            self.unregister(gone[i]);
            proof {
                assert(gone@.take(i + 1).drop_last() =~= gone@.take(i as int));
                assert forall|k: int| 0 <= k < i + 1 implies !self@.contains(
                    #[trigger] gone@[k],
                ) by {
                    if k < i {
                        lemma_without_keeps_absent(before, gone@[i as int], gone@[k]);
                    }
                }
            }
            i += 1;
        }
        assert(gone@.take(gone@.len() as int) =~= gone@);
    }

    /// Adds to `out` the delivery of `wire` to every registered connection.
    pub fn push_fan_out(&self, out: &mut Vec<Delivery>, wire: String)
        ensures
            deliveries_of(final(out)@) == deliveries_of(old(out)@) + fan_out_for(self@, wire@),
    {
        let delivery = self.fan_out(wire);
        out.push(delivery);
        assert(deliveries_of(final(out)@) =~= deliveries_of(old(out)@) + fan_out_for(
            self@,
            wire@,
        ));
    }

    /// Adds to `out` the delivery of `wire` to the connection `to` alone;
    /// nothing where `to` is not registered.
    pub fn push_reply(&self, out: &mut Vec<Delivery>, to: i32, wire: String)
        ensures
            deliveries_of(final(out)@) == deliveries_of(old(out)@) + reply_for(self@, to, wire@),
    {
        if self.contains(to) {
            let mut recipients: Vec<i32> = Vec::new();
            recipients.push(to);
            assert(recipients@ =~= seq![to]);
            out.push(Delivery { recipients, text: wire });
        }
        assert(deliveries_of(final(out)@) =~= deliveries_of(old(out)@) + reply_for(
            self@,
            to,
            wire@,
        ));
    }

    /// `text` for the connection `to` alone, and for nobody where `to` is not
    /// registered.
    pub fn reply(&self, to: i32, text: String) -> (delivery: Delivery)
        ensures
            delivery.carries(
                if self@.contains(to) {
                    seq![to]
                } else {
                    Seq::empty()
                },
                text@,
            ),
    {
        let mut recipients: Vec<i32> = Vec::new();
        if self.contains(to) {
            recipients.push(to);
        }
        assert(recipients@ =~= if self@.contains(to) {
            seq![to]
        } else {
            Seq::empty()
        });
        Delivery { recipients, text }
    }
}

/// Taking one connection out leaves a connection that was not there out as
/// well.
pub proof fn lemma_without_keeps_absent(members: Seq<i32>, id: i32, absent: i32)
    requires
        !members.contains(absent),
    ensures
        !without(members, id).contains(absent),
{
    if members.contains(id) {
        let i = members.index_of(id);
        let rest = members.remove(i);
        assert forall|k: int| 0 <= k < rest.len() implies rest[k] != absent by {
            if k < i {
                assert(rest[k] == members[k]);
            } else {
                assert(rest[k] == members[k + 1]);
            }
        }
    }
}

/// Fanning out one message more adds its delivery at the end.
pub proof fn lemma_fan_out_all_push(
    members: Seq<i32>,
    wires: Seq<Seq<char>>,
    wire: Seq<char>,
)
    ensures
        fan_out_all(members, Seq::empty()) == Seq::<DeliveryView>::empty(),
        fan_out_all(members, wires.push(wire)) == fan_out_all(members, wires) + fan_out_for(
            members,
            wire,
        ),
{
    assert(wires.push(wire).drop_last() =~= wires);
}

/// Registering is idempotent: a second registration of the same connection
/// changes nothing, and the connection is a member afterwards.
pub proof fn lemma_register_idempotent(members: Seq<i32>, id: i32)
    ensures
        with_member(members, id).contains(id),
        with_member(with_member(members, id), id) == with_member(members, id),
{
    if !members.contains(id) {
        assert(members.push(id)[members.len() as int] == id);
    }
}

/// Unregistering an unknown connection is a no-op, and unregistering twice is
/// the same as once.
pub proof fn lemma_unregister_idempotent(members: Seq<i32>, id: i32)
    requires
        members.no_duplicates(),
    ensures
        !members.contains(id) ==> without(members, id) == members,
        !without(members, id).contains(id),
        without(without(members, id), id) == without(members, id),
{
    if members.contains(id) {
        let i = members.index_of(id);
        let rest = members.remove(i);
        assert forall|k: int| 0 <= k < rest.len() implies rest[k] != id by {
            if k < i {
                assert(rest[k] == members[k]);
            } else {
                assert(rest[k] == members[k + 1]);
            }
        }
    }
}

} // verus!
