//! The fan-out / join streaming protocol of the host.
//!
//! The host hands every plugin its own private queue and one shared outbound
//! sink. A forwarding step delivers each inbound message to every queue, and
//! delivery of a message is gated on every plugin having accepted the one
//! before ([`delivery_schedule`] and [`lemma_delivery_gated`] state that
//! order). Each plugin then drains its queue on its own, answering each
//! message until its queue ends or it fails; a failing plugin never stops a
//! sibling. The sink sees every plugin's batches in that plugin's own emission
//! order; the host reports the first error by position in the proxy list, and
//! only after every plugin has finished.
//!
//! These functions run the same protocol synchronously: what a plugin answers
//! is given by its `response` specification, so everything the run produces is
//! pinned here; an embedding that runs the plugins concurrently may interleave
//! batches of different plugins in any order.

use vstd::prelude::*;

use crate::message::Message;
use crate::message::MessageView;
use crate::plugin::call_result_view;
use crate::plugin::InvocationError;
use crate::plugin::InvocationErrorView;
use crate::plugin::Plugin;
use crate::plugins::Plugins;

verus! {

/// The image of what one whole stream run returned.
pub open spec fn unit_result_view(r: Result<(), InvocationError>) -> Result<
    (),
    InvocationErrorView,
> {
    match r {
        Result::Ok(()) => Result::Ok(()),
        Result::Err(e) => Result::Err(e.deep_view()),
    }
}

/// The batches one plugin emits while draining this queue: one batch per
/// message, in queue order, cut short by the first failing call, which emits
/// nothing.
pub open spec fn spec_plugin_batches<Q: Plugin>(plugin: Q, queue: Seq<MessageView>) -> Seq<
    Seq<MessageView>,
>
    decreases queue.len(),
{
    if queue.len() == 0 {
        Seq::<Seq<MessageView>>::empty()
    } else {
        match plugin.response(queue[0]) {
            Result::Ok(batch) => seq![batch] + spec_plugin_batches(plugin, queue.skip(1)),
            Result::Err(_) => Seq::<Seq<MessageView>>::empty(),
        }
    }
}

/// How one plugin's drain of this queue ends: with the first error among its
/// answers, in queue order, or cleanly.
pub open spec fn spec_plugin_outcome<Q: Plugin>(plugin: Q, queue: Seq<MessageView>) -> Result<
    (),
    InvocationErrorView,
>
    decreases queue.len(),
{
    if queue.len() == 0 {
        Result::Ok(())
    } else {
        match plugin.response(queue[0]) {
            Result::Ok(_) => spec_plugin_outcome(plugin, queue.skip(1)),
            Result::Err(e) => Result::Err(e),
        }
    }
}

/// Drains one queue through one plugin: answers each message in order until
/// the queue ends or the plugin fails, and reports how the drain ended. This
/// is also the streaming behaviour a call-based plugin gets for free.
pub fn run_call_stream<Q: Plugin>(plugin: &Q, queue: &Vec<Message>) -> (r: (
    Vec<Vec<Message>>,
    Result<(), InvocationError>,
))
    ensures
        r.0.deep_view() == spec_plugin_batches(*plugin, queue.deep_view()),
        unit_result_view(r.1) == spec_plugin_outcome(*plugin, queue.deep_view()),
{
    let ghost dv = queue.deep_view();
    let mut out: Vec<Vec<Message>> = Vec::new();
    let mut i: usize = 0;
    proof {
        assert(dv.skip(0) =~= dv);
        assert(out.deep_view() =~~= Seq::<Seq<MessageView>>::empty());
    }
    while i < queue.len()
        invariant
            dv == queue.deep_view(),
            dv.len() == queue.len(),
            0 <= i <= queue.len(),
            spec_plugin_batches(*plugin, dv) == out.deep_view() + spec_plugin_batches(
                *plugin,
                dv.skip(i as int),
            ),
            spec_plugin_outcome(*plugin, dv) == spec_plugin_outcome(*plugin, dv.skip(i as int)),
        decreases queue.len() - i,
    {
        proof {
            assert(dv.skip(i as int)[0] == dv[i as int]);
            assert(dv.skip(i as int).skip(1) =~= dv.skip(i + 1));
        }
        match plugin.call(&queue[i]) {
            Result::Ok(batch) => {
                let ghost pre = out.deep_view();
                let ghost bview = batch.deep_view();
                out.push(batch);
                proof {
                    assert(out.deep_view() =~~= pre.push(bview));
                    assert(pre + (seq![bview] + spec_plugin_batches(*plugin, dv.skip(i + 1)))
                        =~~= pre.push(bview) + spec_plugin_batches(*plugin, dv.skip(i + 1)));
                }
            },
            Result::Err(e) => {
                proof {
                    assert(spec_plugin_batches(*plugin, dv.skip(i as int))
                        =~~= Seq::<Seq<MessageView>>::empty());
                    assert(out.deep_view() + Seq::<Seq<MessageView>>::empty()
                        =~~= out.deep_view());
                }
                return (out, Result::Err(e));
            },
        }
        i += 1;
    }
    proof {
        assert(dv.skip(dv.len() as int) =~= Seq::<MessageView>::empty());
        assert(out.deep_view() + Seq::<Seq<MessageView>>::empty() =~~= out.deep_view());
    }
    (out, Result::Ok(()))
}

/// Everything the sink sees in one host run: each plugin's batches, in that
/// plugin's own order, grouped by position in the proxy list.
pub open spec fn spec_host_batches<Q: Plugin>(plugins: Seq<Q>, inbound: Seq<MessageView>) -> Seq<
    Seq<MessageView>,
>
    decreases plugins.len(),
{
    if plugins.len() == 0 {
        Seq::<Seq<MessageView>>::empty()
    } else {
        spec_host_batches(plugins.drop_last(), inbound) + spec_plugin_batches(
            plugins.last(),
            inbound,
        )
    }
}

/// How a host run ends: the first error among the plugins' outcomes — the
/// position in the proxy list breaks ties — or cleanly when every plugin
/// finished without one.
pub open spec fn spec_host_outcome<Q: Plugin>(plugins: Seq<Q>, inbound: Seq<MessageView>) -> Result<
    (),
    InvocationErrorView,
>
    decreases plugins.len(),
{
    if plugins.len() == 0 {
        Result::Ok(())
    } else {
        match spec_host_outcome(plugins.drop_last(), inbound) {
            Result::Err(e) => Result::Err(e),
            Result::Ok(()) => spec_plugin_outcome(plugins.last(), inbound),
        }
    }
}

/// One delivery of the forwarding step: inbound message number `message` goes
/// to the queue of plugin number `plugin`.
#[derive(Debug, PartialEq, Eq, Clone, Copy)]
pub struct Delivery {
    pub message: usize,
    pub plugin: usize,
}

/// The order in which the forwarding step completes its deliveries: all
/// deliveries of one message, by plugin position, before any delivery of the
/// next message.
pub open spec fn spec_delivery_schedule(messages: int, plugins: int) -> Seq<Delivery> {
    Seq::new(
        (messages * plugins) as nat,
        |k: int|
            Delivery { message: (k / plugins) as usize, plugin: (k % plugins) as usize },
    )
}

/// The deliveries the forwarding step makes for this many inbound messages
/// and plugins, in completion order.
pub fn delivery_schedule(messages: usize, plugins: usize) -> (r: Vec<Delivery>)
    requires
        plugins > 0,
        messages * plugins <= usize::MAX,
    ensures
        r@ == spec_delivery_schedule(messages as int, plugins as int),
{
    let mut r: Vec<Delivery> = Vec::new();
    let mut m: usize = 0;
    proof {
        vstd::arithmetic::mul::lemma_mul_is_commutative(messages as int, plugins as int);
    }
    while m < messages
        invariant
            plugins > 0,
            messages * plugins <= usize::MAX,
            0 <= m <= messages,
            r@.len() == m * plugins,
            forall|k: int|
                0 <= k < r@.len() ==> r@[k] == (Delivery {
                    message: (k / plugins as int) as usize,
                    plugin: (k % plugins as int) as usize,
                }),
        decreases messages - m,
    {
        let mut p: usize = 0;
        proof {
            vstd::arithmetic::mul::lemma_mul_inequality(
                m + 1,
                messages as int,
                plugins as int,
            );
            vstd::arithmetic::mul::lemma_mul_is_distributive_add_other_way(
                plugins as int,
                m as int,
                1,
            );
        }
        while p < plugins
            invariant
                plugins > 0,
                0 <= p <= plugins,
                0 <= m < messages,
                (m + 1) * plugins <= messages * plugins <= usize::MAX,
                (m + 1) * plugins == m * plugins + plugins,
                r@.len() == m * plugins + p,
                forall|k: int|
                    0 <= k < r@.len() ==> r@[k] == (Delivery {
                        message: (k / plugins as int) as usize,
                        plugin: (k % plugins as int) as usize,
                    }),
            decreases plugins - p,
        {
            r.push(Delivery { message: m, plugin: p });
            proof {
                vstd::arithmetic::div_mod::lemma_fundamental_div_mod_converse(
                    m * plugins + p,
                    plugins as int,
                    m as int,
                    p as int,
                );
            }
            p += 1;
        }
        m += 1;
    }
    proof {
        assert(r@ =~= spec_delivery_schedule(messages as int, plugins as int));
    }
    r
}

/// Law: delivery is gated. In the forwarding order, every delivery of an
/// earlier inbound message completes before any delivery of a later one: no
/// plugin sees message `k + 1` until every plugin has accepted message `k`.
pub proof fn lemma_delivery_gated(messages: int, plugins: int, k1: int, k2: int)
    requires
        messages >= 0,
        plugins > 0,
        messages * plugins <= usize::MAX,
        0 <= k1 < spec_delivery_schedule(messages, plugins).len(),
        0 <= k2 < spec_delivery_schedule(messages, plugins).len(),
        spec_delivery_schedule(messages, plugins)[k1].message
            < spec_delivery_schedule(messages, plugins)[k2].message,
    ensures
        k1 < k2,
{
    vstd::arithmetic::div_mod::lemma_div_pos_is_pos(k1, plugins);
    vstd::arithmetic::div_mod::lemma_div_pos_is_pos(k2, plugins);
    vstd::arithmetic::div_mod::lemma_div_nonincreasing(k1, plugins);
    vstd::arithmetic::div_mod::lemma_div_nonincreasing(k2, plugins);
    let s = spec_delivery_schedule(messages, plugins);
    assert(s[k1] == (Delivery {
        message: (k1 / plugins) as usize,
        plugin: (k1 % plugins) as usize,
    }));
    assert(s[k2] == (Delivery {
        message: (k2 / plugins) as usize,
        plugin: (k2 % plugins) as usize,
    }));
    vstd::arithmetic::mul::lemma_mul_nonnegative(messages, plugins);
    assert(k1 <= usize::MAX && k2 <= usize::MAX);
    assert(0 <= k1 / plugins <= usize::MAX);
    assert(0 <= k2 / plugins <= usize::MAX);
    assert(((k1 / plugins) as usize) < ((k2 / plugins) as usize));
    assert(k1 / plugins < k2 / plugins);
    if k2 <= k1 {
        vstd::arithmetic::div_mod::lemma_div_is_ordered(k2, k1, plugins);
        assert(false);
    }
}

impl<P: Plugin> Plugins<P> {
    /// The private queues one host run hands its plugins: one per proxy, each
    /// holding the whole inbound sequence in arrival order.
    pub fn fan_out(&self, inbound: &Vec<Message>) -> (queues: Vec<Vec<Message>>)
        ensures
            queues@.len() == self.commands@.len(),
            forall|i: int|
                0 <= i < queues@.len() ==> #[trigger] queues@[i].deep_view()
                    == inbound.deep_view(),
    {
        let mut queues: Vec<Vec<Message>> = Vec::new();
        let mut i: usize = 0;
        while i < self.commands.len()
            invariant
                0 <= i <= self.commands@.len(),
                queues@.len() == i,
                forall|j: int|
                    0 <= j < queues@.len() ==> #[trigger] queues@[j].deep_view()
                        == inbound.deep_view(),
            decreases self.commands@.len() - i,
        {
            queues.push(clone_messages(inbound));
            i += 1;
        }
        queues
    }

    /// One whole host run: every plugin drains the full inbound sequence, the
    /// sink gets each plugin's batches in that plugin's own order, and the
    /// run reports the first error by position in the proxy list — after all
    /// plugins have finished, a failing plugin never cancels a sibling.
    pub fn stream(&self, inbound: &Vec<Message>) -> (r: (
        Vec<Vec<Message>>,
        Result<(), InvocationError>,
    ))
        ensures
            r.0.deep_view() == spec_host_batches(self.commands@, inbound.deep_view()),
            unit_result_view(r.1) == spec_host_outcome(self.commands@, inbound.deep_view()),
    {
        let ghost ps = self.commands@;
        let ghost dv = inbound.deep_view();
        let mut out: Vec<Vec<Message>> = Vec::new();
        let mut first_err: Option<InvocationError> = Option::None;
        let mut j: usize = 0;
        proof {
            assert(out.deep_view() =~~= spec_host_batches(ps.take(0), dv));
        }
        while j < self.commands.len()
            invariant
                ps == self.commands@,
                dv == inbound.deep_view(),
                0 <= j <= ps.len(),
                out.deep_view() == spec_host_batches(ps.take(j as int), dv),
                match first_err {
                    Option::None => spec_host_outcome(ps.take(j as int), dv) == Result::<
                        (),
                        InvocationErrorView,
                    >::Ok(()),
                    Option::Some(e) => spec_host_outcome(ps.take(j as int), dv) == Result::<
                        (),
                        InvocationErrorView,
                    >::Err(e.deep_view()),
                },
            decreases ps.len() - j,
        {
            proof {
                assert(ps.take(j + 1).drop_last() =~= ps.take(j as int));
                assert(ps.take(j + 1).last() == ps[j as int]);
            }
            let (mut batches, outcome) = run_call_stream(&self.commands[j], inbound);
            let ghost pre = out.deep_view();
            let ghost bview = batches.deep_view();
            out.append(&mut batches);
            proof {
                assert(out.deep_view() =~~= pre + bview);
            }
            match outcome {
                Result::Ok(()) => {},
                Result::Err(e) => {
                    if first_err.is_none() {
                        first_err = Option::Some(e);
                    }
                },
            }
            j += 1;
        }
        proof {
            assert(ps.take(ps.len() as int) =~= ps);
        }
        let result = match first_err {
            Option::None => Result::Ok(()),
            Option::Some(e) => Result::Err(e),
        };
        (out, result)
    }
}

/// Copies a queue of messages; the copy has the same image.
pub fn clone_messages(v: &Vec<Message>) -> (r: Vec<Message>)
    ensures
        r.deep_view() == v.deep_view(),
{
    let mut r: Vec<Message> = Vec::new();
    let mut i: usize = 0;
    while i < v.len()
        invariant
            0 <= i <= v.len(),
            r.deep_view() =~= v.deep_view().take(i as int),
        decreases v.len() - i,
    {
        let ghost pre = r.deep_view();
        r.push(v[i].clone());
        proof {
            assert(r.deep_view() =~~= pre.push(v@[i as int].deep_view()));
            assert(v.deep_view().take(i + 1) =~~= pre.push(v@[i as int].deep_view()));
        }
        i += 1;
    }
    proof {
        assert(v.deep_view().take(v.deep_view().len() as int) =~= v.deep_view());
    }
    r
}

/// Law: a host of echo plugins answers one inbound message with exactly one
/// copy per plugin — as many batches as plugins, each holding the message
/// itself — and ends cleanly.
pub proof fn lemma_echo_host<Q: Plugin>(plugins: Seq<Q>, m: MessageView)
    requires
        forall|i: int|
            0 <= i < plugins.len() ==> (#[trigger] plugins[i].response(m)) == Result::<
                Seq<MessageView>,
                InvocationErrorView,
            >::Ok(seq![m]),
    ensures
        spec_host_batches(plugins, seq![m]).len() == plugins.len(),
        forall|i: int|
            0 <= i < plugins.len() ==> #[trigger] spec_host_batches(plugins, seq![m])[i]
                == seq![m],
        spec_host_outcome(plugins, seq![m]) == Result::<(), InvocationErrorView>::Ok(()),
    decreases plugins.len(),
{
    let inbound = seq![m];
    if plugins.len() > 0 {
        lemma_echo_host(plugins.drop_last(), m);
        let last = plugins.last();
        assert(last == plugins[plugins.len() - 1]);
        assert(inbound[0] == m);
        assert(inbound.skip(1) =~= Seq::<MessageView>::empty());
        assert(spec_plugin_batches(last, inbound.skip(1)) =~~= Seq::<Seq<MessageView>>::empty());
        assert(spec_plugin_outcome(last, inbound.skip(1)) == Result::<
            (),
            InvocationErrorView,
        >::Ok(()));
        assert(spec_plugin_batches(last, inbound) =~~= seq![seq![m]]);
        assert(spec_plugin_outcome(last, inbound) == Result::<(), InvocationErrorView>::Ok(()));
        assert(spec_host_batches(plugins, inbound) =~~= spec_host_batches(
            plugins.drop_last(),
            inbound,
        ).push(seq![m]));
    }
}

/// Law: one echo plugin preserves the inbound order: two messages come out as
/// two batches, the first holding the first message, the second the second.
pub proof fn lemma_echo_order<Q: Plugin>(plugin: Q, m1: MessageView, m2: MessageView)
    requires
        plugin.response(m1) == Result::<Seq<MessageView>, InvocationErrorView>::Ok(seq![m1]),
        plugin.response(m2) == Result::<Seq<MessageView>, InvocationErrorView>::Ok(seq![m2]),
    ensures
        spec_plugin_batches(plugin, seq![m1, m2]) == seq![seq![m1], seq![m2]],
        spec_plugin_outcome(plugin, seq![m1, m2]) == Result::<(), InvocationErrorView>::Ok(()),
{
    let inbound = seq![m1, m2];
    assert(inbound[0] == m1);
    assert(inbound.skip(1) =~= seq![m2]);
    assert(seq![m2][0] == m2);
    assert(seq![m2].skip(1) =~= Seq::<MessageView>::empty());
    assert(spec_plugin_batches(plugin, Seq::<MessageView>::empty())
        =~~= Seq::<Seq<MessageView>>::empty());
    assert(spec_plugin_outcome(plugin, Seq::<MessageView>::empty()) == Result::<
        (),
        InvocationErrorView,
    >::Ok(()));
    assert(spec_plugin_batches(plugin, seq![m2]) =~~= seq![seq![m2]]);
    assert(spec_plugin_outcome(plugin, seq![m2]) == Result::<(), InvocationErrorView>::Ok(()));
    assert(spec_plugin_batches(plugin, inbound) =~~= seq![seq![m1], seq![m2]]);
    assert(spec_plugin_outcome(plugin, inbound) == Result::<(), InvocationErrorView>::Ok(()));
}

/// Law: a host with no plugins answers any inbound sequence with no output at
/// all and ends cleanly.
pub proof fn lemma_empty_host<Q: Plugin>(inbound: Seq<MessageView>)
    ensures
        spec_host_batches(Seq::<Q>::empty(), inbound) == Seq::<Seq<MessageView>>::empty(),
        spec_host_outcome(Seq::<Q>::empty(), inbound) == Result::<(), InvocationErrorView>::Ok(()),
{
}

} // verus!

