use vstd::prelude::*;

use crate::coordinator::{next_phase, next_step, Command, Input, Phase, TriggerEvent};
use crate::status::{classify_spec, Outcome, Status};

verus! {

/// The phase reached after feeding `inputs` one by one from `p`.
pub open spec fn phase_after(p: Phase, inputs: Seq<Input>) -> Phase
    decreases inputs.len(),
{
    if inputs.len() == 0 {
        p
    } else {
        phase_after(next_phase(p, inputs[0]), inputs.drop_first())
    }
}

/// The commands given, in order, while `inputs` are fed from `p`.
pub open spec fn commands(p: Phase, inputs: Seq<Input>) -> Seq<Command>
    decreases inputs.len(),
{
    if inputs.len() == 0 {
        Seq::empty()
    } else {
        seq![next_step(p, inputs[0]).command] + commands(
            next_phase(p, inputs[0]),
            inputs.drop_first(),
        )
    }
}

pub open spec fn option_seq(o: Option<Status>) -> Seq<Status> {
    match o {
        Some(s) => seq![s],
        None => Seq::empty(),
    }
}

/// The statuses published, in order, while `inputs` are fed from `p`.
pub open spec fn published(p: Phase, inputs: Seq<Input>) -> Seq<Status>
    decreases inputs.len(),
{
    if inputs.len() == 0 {
        Seq::empty()
    } else {
        option_seq(next_step(p, inputs[0]).publish) + published(
            next_phase(p, inputs[0]),
            inputs.drop_first(),
        )
    }
}

/// How many checks a run of commands starts.
pub open spec fn checks_started(cs: Seq<Command>) -> nat
    decreases cs.len(),
{
    if cs.len() == 0 {
        0
    } else {
        (if cs[0] == Command::RunCheck {
            1nat
        } else {
            0nat
        }) + checks_started(cs.drop_first())
    }
}

pub open spec fn as_inputs(ts: Seq<TriggerEvent>) -> Seq<Input> {
    ts.map_values(|t: TriggerEvent| Input::Trigger(t))
}

/// Triggers taken one after the other, then the queue found empty.
pub open spec fn burst(ts: Seq<TriggerEvent>) -> Seq<Input> {
    as_inputs(ts).push(Input::QueueEmpty)
}

/// One trigger, the check it starts, and that check coming back.
pub open spec fn round(o: Outcome) -> Seq<Input> {
    seq![Input::Trigger(TriggerEvent::FileChanged), Input::QueueEmpty, Input::Finished(o)]
}

pub open spec fn rounds(os: Seq<Outcome>) -> Seq<Input>
    decreases os.len(),
{
    if os.len() == 0 {
        Seq::empty()
    } else {
        round(os[0]) + rounds(os.drop_first())
    }
}

proof fn lemma_checks_started_append(a: Seq<Command>, b: Seq<Command>)
    ensures
        checks_started(a + b) == checks_started(a) + checks_started(b),
    decreases a.len(),
{
    if a.len() == 0 {
        assert(a + b =~= b);
    } else {
        assert((a + b).drop_first() =~= a.drop_first() + b);
        lemma_checks_started_append(a.drop_first(), b);
    }
}

/// Feeding two runs of inputs one after the other is feeding their
/// concatenation.
pub proof fn lemma_replay_append(p: Phase, a: Seq<Input>, b: Seq<Input>)
    ensures
        phase_after(p, a + b) == phase_after(phase_after(p, a), b),
        commands(p, a + b) == commands(p, a) + commands(phase_after(p, a), b),
        published(p, a + b) == published(p, a) + published(phase_after(p, a), b),
    decreases a.len(),
{
    if a.len() == 0 {
        assert(a + b =~= b);
        assert(commands(p, a) + commands(p, b) =~= commands(p, b));
        assert(published(p, a) + published(p, b) =~= published(p, b));
    } else {
        assert((a + b)[0] == a[0]);
        assert((a + b).drop_first() =~= a.drop_first() + b);
        lemma_replay_append(next_phase(p, a[0]), a.drop_first(), b);
        let c0 = seq![next_step(p, a[0]).command];
        let s0 = option_seq(next_step(p, a[0]).publish);
        let q = next_phase(p, a[0]);
        assert(c0 + (commands(q, a.drop_first()) + commands(phase_after(q, a.drop_first()), b))
            =~= (c0 + commands(q, a.drop_first())) + commands(phase_after(q, a.drop_first()), b));
        assert(s0 + (published(q, a.drop_first()) + published(phase_after(q, a.drop_first()), b))
            =~= (s0 + published(q, a.drop_first())) + published(phase_after(q, a.drop_first()), b));
    }
}

proof fn lemma_replay_one(p: Phase, i: Input)
    ensures
        phase_after(p, seq![i]) == next_phase(p, i),
        commands(p, seq![i]) == seq![next_step(p, i).command],
        published(p, seq![i]) == option_seq(next_step(p, i).publish),
        checks_started(seq![next_step(p, i).command]) == (if next_step(p, i).command
            == Command::RunCheck {
            1nat
        } else {
            0nat
        }),
{
    let e = seq![i];
    let q = next_phase(p, i);
    assert(e.len() == 1 && e[0] == i);
    assert(e.drop_first() =~= Seq::<Input>::empty());
    assert(phase_after(q, e.drop_first()) == q);
    assert(commands(q, e.drop_first()) == Seq::<Command>::empty());
    assert(published(q, e.drop_first()) == Seq::<Status>::empty());
    assert(seq![next_step(p, i).command] + Seq::<Command>::empty() =~= seq![
        next_step(p, i).command,
    ]);
    assert(option_seq(next_step(p, i).publish) + Seq::<Status>::empty() =~= option_seq(
        next_step(p, i).publish,
    ));
    let c = seq![next_step(p, i).command];
    assert(c.len() == 1 && c[0] == next_step(p, i).command);
    assert(c.drop_first() =~= Seq::<Command>::empty());
    assert(checks_started(c.drop_first()) == 0);
}

/// Feeding one input and then a run of inputs.
proof fn lemma_replay_cons(p: Phase, i: Input, rest: Seq<Input>)
    ensures
        phase_after(p, seq![i] + rest) == phase_after(next_phase(p, i), rest),
        checks_started(commands(p, seq![i] + rest)) == checks_started(
            seq![next_step(p, i).command],
        ) + checks_started(commands(next_phase(p, i), rest)),
        published(p, seq![i] + rest) == option_seq(next_step(p, i).publish) + published(
            next_phase(p, i),
            rest,
        ),
{
    lemma_replay_one(p, i);
    lemma_replay_append(p, seq![i], rest);
    lemma_checks_started_append(commands(p, seq![i]), commands(next_phase(p, i), rest));
}

proof fn lemma_collecting_absorbs(ts: Seq<TriggerEvent>)
    ensures
        phase_after(Phase::Collecting, burst(ts)) == Phase::Running,
        checks_started(commands(Phase::Collecting, burst(ts))) == 1,
        published(Phase::Collecting, burst(ts)) == Seq::<Status>::empty(),
    decreases ts.len(),
{
    if ts.len() == 0 {
        assert(burst(ts) =~= seq![Input::QueueEmpty]);
        lemma_replay_one(Phase::Collecting, Input::QueueEmpty);
    } else {
        assert(burst(ts) =~= seq![Input::Trigger(ts[0])] + burst(ts.drop_first()));
        lemma_replay_cons(Phase::Collecting, Input::Trigger(ts[0]), burst(ts.drop_first()));
        lemma_replay_one(Phase::Collecting, Input::Trigger(ts[0]));
        lemma_collecting_absorbs(ts.drop_first());
        assert(Seq::<Status>::empty() + Seq::<Status>::empty() =~= Seq::<Status>::empty());
    }
}

/// Single flight: any non-empty burst of triggers taken while idle, before
/// the queue is found empty, starts exactly one check, which is then running.
pub proof fn lemma_burst_starts_one_check(ts: Seq<TriggerEvent>)
    requires
        ts.len() > 0,
    ensures
        phase_after(Phase::Idle, burst(ts)) == Phase::Running,
        checks_started(commands(Phase::Idle, burst(ts))) == 1,
        published(Phase::Idle, burst(ts)) == Seq::<Status>::empty(),
{
    assert(burst(ts) =~= seq![Input::Trigger(ts[0])] + burst(ts.drop_first()));
    lemma_replay_cons(Phase::Idle, Input::Trigger(ts[0]), burst(ts.drop_first()));
    lemma_replay_one(Phase::Idle, Input::Trigger(ts[0]));
    lemma_collecting_absorbs(ts.drop_first());
    assert(Seq::<Status>::empty() + Seq::<Status>::empty() =~= Seq::<Status>::empty());
}

proof fn lemma_running_absorbs(p: Phase, ts: Seq<TriggerEvent>)
    requires
        p == Phase::Running || p == Phase::RunningPending,
    ensures
        phase_after(p, as_inputs(ts)) == (if ts.len() == 0 {
            p
        } else {
            Phase::RunningPending
        }),
        checks_started(commands(p, as_inputs(ts))) == 0,
        published(p, as_inputs(ts)) == Seq::<Status>::empty(),
    decreases ts.len(),
{
    if ts.len() > 0 {
        assert(as_inputs(ts) =~= seq![Input::Trigger(ts[0])] + as_inputs(ts.drop_first()));
        lemma_replay_cons(p, Input::Trigger(ts[0]), as_inputs(ts.drop_first()));
        lemma_replay_one(p, Input::Trigger(ts[0]));
        lemma_running_absorbs(Phase::RunningPending, ts.drop_first());
        assert(Seq::<Status>::empty() + Seq::<Status>::empty() =~= Seq::<Status>::empty());
    } else {
        assert(as_inputs(ts) =~= Seq::<Input>::empty());
    }
}

/// No lost triggers: when triggers come while a check runs (`during`,
/// handed in before it comes back) or queue up behind it (`after`, drained
/// once it is back), no check starts before the running one comes back,
/// and after it exactly one more check starts; the running check's status
/// is published once.
pub proof fn lemma_trigger_while_running_gives_one_more_check(
    during: Seq<TriggerEvent>,
    o: Outcome,
    after: Seq<TriggerEvent>,
)
    requires
        during.len() + after.len() > 0,
    ensures
        checks_started(commands(Phase::Running, as_inputs(during))) == 0,
        checks_started(
            commands(Phase::Running, as_inputs(during).push(Input::Finished(o)) + burst(after)),
        ) == 1,
        phase_after(Phase::Running, as_inputs(during).push(Input::Finished(o)) + burst(after))
            == Phase::Running,
        published(Phase::Running, as_inputs(during).push(Input::Finished(o)) + burst(after))
            == seq![classify_spec(o)],
{
    let a = as_inputs(during);
    let fin = Input::Finished(o);
    let b = burst(after);
    assert(a.push(fin) + b =~= a + (seq![fin] + b));
    lemma_running_absorbs(Phase::Running, during);
    lemma_replay_append(Phase::Running, a, seq![fin] + b);
    lemma_checks_started_append(
        commands(Phase::Running, a),
        commands(phase_after(Phase::Running, a), seq![fin] + b),
    );
    let p1 = phase_after(Phase::Running, a);
    lemma_replay_cons(p1, fin, b);
    lemma_replay_one(p1, fin);
    let p2 = next_phase(p1, fin);
    if during.len() > 0 {
        assert(p2 == Phase::Collecting);
        lemma_collecting_absorbs(after);
    } else {
        assert(p2 == Phase::Idle);
        lemma_burst_starts_one_check(after);
    }
    assert(Seq::<Status>::empty() + (seq![classify_spec(o)] + Seq::<Status>::empty())
        =~= seq![classify_spec(o)]);
}

/// Ordering: when checks complete one after another, their statuses are
/// published in that order, each once, none dropped.
pub proof fn lemma_statuses_in_completion_order(os: Seq<Outcome>)
    ensures
        phase_after(Phase::Idle, rounds(os)) == Phase::Idle,
        published(Phase::Idle, rounds(os)) == os.map_values(|o: Outcome| classify_spec(o)),
    decreases os.len(),
{
    if os.len() == 0 {
        assert(os.map_values(|o: Outcome| classify_spec(o)) =~= Seq::<Status>::empty());
    } else {
        let t = Input::Trigger(TriggerEvent::FileChanged);
        let f = Input::Finished(os[0]);
        let rest = rounds(os.drop_first());
        assert(rounds(os) =~= seq![t] + (seq![Input::QueueEmpty] + (seq![f] + rest)));
        lemma_replay_cons(Phase::Idle, t, seq![Input::QueueEmpty] + (seq![f] + rest));
        lemma_replay_one(Phase::Idle, t);
        lemma_replay_cons(Phase::Collecting, Input::QueueEmpty, seq![f] + rest);
        lemma_replay_one(Phase::Collecting, Input::QueueEmpty);
        lemma_replay_cons(Phase::Running, f, rest);
        lemma_replay_one(Phase::Running, f);
        lemma_statuses_in_completion_order(os.drop_first());
        assert(os.map_values(|o: Outcome| classify_spec(o)) =~= seq![classify_spec(os[0])]
            + os.drop_first().map_values(|o: Outcome| classify_spec(o)));
        assert(Seq::<Status>::empty() + (Seq::<Status>::empty() + (seq![classify_spec(os[0])]
            + published(Phase::Idle, rest))) =~= seq![classify_spec(os[0])] + published(
            Phase::Idle,
            rest,
        ));
    }
}

} // verus!
