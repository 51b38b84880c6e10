use vstd::prelude::*;
use vstd::hash_map::StringHashMap;
use crate::messages::{
    topic_paths, MqttClientCall, MqttTaskActions, SubscribeTopic, SubscriberId,
};

verus! {

/// The subscribers of `topic` in `subs`, in the order in which they subscribed;
/// empty where nobody subscribed to it.
pub open spec fn subscribers_of(subs: Map<Seq<char>, Seq<SubscriberId>>, topic: Seq<char>) -> Seq<SubscriberId> {
    if subs.contains_key(topic) {
        subs[topic]
    } else {
        Seq::empty()
    }
}

/// `subs` after `subscriber` subscribed to `topic`: it is appended to the topic's list.
pub open spec fn register(
    subs: Map<Seq<char>, Seq<SubscriberId>>,
    topic: Seq<char>,
    subscriber: SubscriberId,
) -> Map<Seq<char>, Seq<SubscriberId>> {
    subs.insert(topic, subscribers_of(subs, topic).push(subscriber))
}

/// `subs` after `subscriber` subscribed to each of `topics`, first to last.
pub open spec fn register_all(
    subs: Map<Seq<char>, Seq<SubscriberId>>,
    topics: Seq<Seq<char>>,
    subscriber: SubscriberId,
) -> Map<Seq<char>, Seq<SubscriberId>>
    decreases topics.len(),
{
    if topics.len() == 0 {
        subs
    } else {
        register(register_all(subs, topics.drop_last(), subscriber), topics.last(), subscriber)
    }
}

/// Which subscriber wants the messages of which topic, as kept by the task that
/// owns the broker connection.
pub struct TopicSubscriptions {
    topic_subs: StringHashMap<Vec<SubscriberId>>,
}

impl View for TopicSubscriptions {
    type V = Map<Seq<char>, Seq<SubscriberId>>;

    closed spec fn view(&self) -> Map<Seq<char>, Seq<SubscriberId>> {
        Map::new(|t: Seq<char>| self.topic_subs@.contains_key(t), |t: Seq<char>| self.topic_subs@[t]@)
    }
}

fn copy_ids(ids: &Vec<SubscriberId>) -> (copy: Vec<SubscriberId>)
    ensures
        copy@ == ids@,
{
    let mut copy: Vec<SubscriberId> = Vec::new();
    let n: usize = ids.len();
    let mut i: usize = 0;
    while i < n
        invariant
            n == ids@.len(),
            i <= n,
            copy@ == ids@.subrange(0, i as int),
        decreases n - i,
    {
        copy.push(ids[i]);
        i = i + 1;
        assert(copy@ =~= ids@.subrange(0, i as int));
    }
    assert(ids@.subrange(0, n as int) =~= ids@);
    copy
}

impl TopicSubscriptions {
    /// No subscriptions.
    pub fn new() -> (subs: TopicSubscriptions)
        ensures
            subs@ == Map::<Seq<char>, Seq<SubscriberId>>::empty(),
    {
        let subs = TopicSubscriptions { topic_subs: StringHashMap::new() };
        assert(subs@ =~= Map::<Seq<char>, Seq<SubscriberId>>::empty());
        subs
    }

    /// Appends `subscriber` to those that receive the messages of `topic`.
    pub fn subscribe(&mut self, topic: &String, subscriber: SubscriberId)
        ensures
            final(self)@ == register(old(self)@, topic@, subscriber),
    {
        let ghost before = self@;
        let ids: Vec<SubscriberId> = match self.topic_subs.get(topic.as_str()) {
            Some(addrs) => {
                let mut ids = copy_ids(addrs);
                ids.push(subscriber);
                ids
            },
            None => {
                let mut ids: Vec<SubscriberId> = Vec::new();
                ids.push(subscriber);
                ids
            },
        };
        assert(ids@ == subscribers_of(before, topic@).push(subscriber));
        self.topic_subs.insert(topic.clone(), ids);
        assert(self@ =~= register(before, topic@, subscriber));
    }

    /// The subscribers of `topic`, in the order in which they subscribed.
    pub fn subscribers(&self, topic: &str) -> (ids: Vec<SubscriberId>)
        ensures
            ids@ == subscribers_of(self@, topic@),
    {
        match self.topic_subs.get(topic) {
            Some(addrs) => copy_ids(addrs),
            None => Vec::new(),
        }
    }

    /// Registers a subscription request or passes a publication through: for a
    /// subscription, `subscriber` is appended to each of its topics in order and the
    /// client is asked to subscribe to the same topics; a publication is handed to the
    /// client as it came; no task asks for nothing.
    pub fn handle_mqtt_task(&mut self, task: Option<MqttTaskActions>) -> (call: Option<MqttClientCall>)
        ensures
            match task {
                Some(MqttTaskActions::Subscribe(msg)) => {
                    &&& final(self)@ == register_all(old(self)@, topic_paths(msg.topics@), msg.subscriber)
                    &&& call matches Some(MqttClientCall::Subscribe(topics)) && topics@ == msg.topics@
                },
                Some(MqttTaskActions::Publish(p)) => {
                    &&& final(self)@ == old(self)@
                    &&& call == Some(MqttClientCall::Publish(p))
                },
                None => final(self)@ == old(self)@ && call is None,
            },
    {
        match task {
            Some(MqttTaskActions::Subscribe(msg)) => {
                let n: usize = msg.topics.len();
                let mut i: usize = 0;
                while i < n
                    invariant
                        n == msg.topics@.len(),
                        i <= n,
                        self@ == register_all(
                            old(self)@,
                            topic_paths(msg.topics@.subrange(0, i as int)),
                            msg.subscriber,
                        ),
                    decreases n - i,
                {
                    self.subscribe(&msg.topics[i].topic_path, msg.subscriber);
                    proof {
                        let done = topic_paths(msg.topics@.subrange(0, i + 1));
                        assert(done.drop_last() =~= topic_paths(msg.topics@.subrange(0, i as int)));
                        assert(done.last() == msg.topics@[i as int].topic_path@);
                    }
                    i = i + 1;
                }
                assert(msg.topics@.subrange(0, n as int) =~= msg.topics@);
                Some(MqttClientCall::Subscribe(msg.topics))
            },
            Some(MqttTaskActions::Publish(p)) => Some(MqttClientCall::Publish(p)),
            None => None,
        }
    }

    /// The subscribers to which a message read from the broker goes: those of its
    /// topic, in subscription order; none where the read failed (`None`).
    pub fn handle_subscription_task(&self, topic: Option<&str>) -> (ids: Vec<SubscriberId>)
        ensures
            ids@ == match topic {
                Some(t) => subscribers_of(self@, t@),
                None => Seq::empty(),
            },
    {
        match topic {
            Some(t) => self.subscribers(t),
            None => Vec::new(),
        }
    }
}

/// How many times `topic` occurs in `topics`.
pub open spec fn occurrences(topics: Seq<Seq<char>>, topic: Seq<char>) -> nat
    decreases topics.len(),
{
    if topics.len() == 0 {
        0
    } else {
        occurrences(topics.drop_last(), topic) + if topics.last() == topic { 1nat } else { 0nat }
    }
}

/// After a subscription to `topic`, the subscribers of `topic` are those before it
/// followed by the new one; the subscribers of every other topic are unchanged.
pub proof fn law_subscribers_after_subscribe(
    subs: Map<Seq<char>, Seq<SubscriberId>>,
    topic: Seq<char>,
    other: Seq<char>,
    subscriber: SubscriberId,
)
    ensures
        subscribers_of(register(subs, topic, subscriber), other) == if other == topic {
            subscribers_of(subs, topic).push(subscriber)
        } else {
            subscribers_of(subs, other)
        },
{
}

/// After a subscription request for `topics`, a message on `topic` goes to those that
/// got it before and then to the requesting subscriber, once for each time the request
/// names `topic` (no duplicate is dropped); no subscriber is removed or reordered.
pub proof fn law_subscription_request(
    subs: Map<Seq<char>, Seq<SubscriberId>>,
    topics: Seq<Seq<char>>,
    subscriber: SubscriberId,
    topic: Seq<char>,
)
    ensures
        subscribers_of(register_all(subs, topics, subscriber), topic)
            == subscribers_of(subs, topic) + Seq::new(occurrences(topics, topic), |i: int| subscriber),
    decreases topics.len(),
{
    if topics.len() == 0 {
        assert(subscribers_of(subs, topic) + Seq::new(0, |i: int| subscriber) =~= subscribers_of(subs, topic));
    } else {
        law_subscription_request(subs, topics.drop_last(), subscriber, topic);
        let before = register_all(subs, topics.drop_last(), subscriber);
        law_subscribers_after_subscribe(before, topics.last(), topic, subscriber);
        let n: nat = occurrences(topics.drop_last(), topic);
        if topics.last() == topic {
            assert(subscribers_of(subs, topic) + Seq::new(n, |i: int| subscriber)
                .push(subscriber) =~= (subscribers_of(subs, topic) + Seq::new(n, |i: int| subscriber)).push(subscriber));
            assert(subscribers_of(subs, topic) + Seq::new(n + 1, |i: int| subscriber)
                =~= (subscribers_of(subs, topic) + Seq::new(n, |i: int| subscriber)).push(subscriber));
        }
    }
}

/// With no subscription, a message goes to nobody.
pub proof fn law_no_subscribers_without_subscription(topic: Seq<char>)
    ensures
        subscribers_of(Map::<Seq<char>, Seq<SubscriberId>>::empty(), topic) == Seq::<SubscriberId>::empty(),
{
}

} // verus!
