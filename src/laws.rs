//! What holds of every run of a session, proved over its transition function.
use vstd::prelude::*;
use crate::answer::accepts;
use crate::edit::{instruction_text, reply_result, written_text, EditError};
use crate::session::{
    expects, transition, ActionView, EventView, InvocationView, Outcome, Phase, Tracking,
};

verus! {

/// The phase reached and the actions asked for when a run in `phase` takes
/// `events` in order.
pub open spec fn run(inv: InvocationView, phase: Phase, events: Seq<EventView>) -> (Phase, Seq<ActionView>)
    decreases events.len(),
{
    if events.len() == 0 {
        (phase, Seq::empty())
    } else {
        let (next, a) = transition(inv, phase, events[0]);
        let (end, rest) = run(inv, next, events.drop_first());
        (end, seq![a] + rest)
    }
}

/// Whether each of `events` is what the run waits for at its turn.
pub open spec fn valid_run(inv: InvocationView, phase: Phase, events: Seq<EventView>) -> bool
    decreases events.len(),
{
    events.len() == 0 || (expects(phase, events[0]) && valid_run(
        inv,
        transition(inv, phase, events[0]).0,
        events.drop_first(),
    ))
}

/// Whether `needle` stands somewhere in `hay` as one contiguous piece.
pub open spec fn contains(hay: Seq<char>, needle: Seq<char>) -> bool {
    exists|i: int|
        0 <= i && i + needle.len() <= hay.len() && #[trigger] hay.subrange(i, i + needle.len())
            == needle
}

/// The actions of a run hold the same number of elements as its events.
pub proof fn lemma_run_len(inv: InvocationView, phase: Phase, events: Seq<EventView>)
    ensures
        run(inv, phase, events).1.len() == events.len(),
    decreases events.len(),
{
    if events.len() > 0 {
        lemma_run_len(inv, transition(inv, phase, events[0]).0, events.drop_first());
    }
}

/// A run that has ended waits for nothing more, so a valid run from there
/// holds no event and asks for no action.
pub proof fn lemma_over_is_final(inv: InvocationView, o: Outcome, events: Seq<EventView>)
    requires
        valid_run(inv, Phase::Over(o), events),
    ensures
        events.len() == 0,
        run(inv, Phase::Over(o), events).1.len() == 0,
{
}

/// A tracked file is read at once: no confirmation is asked.
pub proof fn lemma_tracked_reads_at_once(inv: InvocationView)
    ensures
        transition(inv, Phase::AwaitTracking, EventView::Tracking(Tracking::Versioned)) == (
            Phase::AwaitFile,
            ActionView::ReadFile(inv.file),
        ),
{
}

/// Confirmation is asked only when the tracking query reported the file
/// untracked or could not say.
pub proof fn lemma_confirm_only_when_unsure(inv: InvocationView, phase: Phase, e: EventView)
    requires
        expects(phase, e),
        transition(inv, phase, e).1 is Confirm,
    ensures
        phase == Phase::AwaitTracking,
        e == EventView::Tracking(Tracking::Unversioned) || e == EventView::Tracking(
            Tracking::Unknown,
        ),
{
}

/// An untracked file, or one whose status is unknown, leads to a confirmation
/// prompt; an answer that accepts goes on to read the file, and any other ends
/// the run as declined with nothing written.
pub proof fn lemma_unsure_asks_and_obeys(
    inv: InvocationView,
    t: Tracking,
    answer: Seq<char>,
    rest: Seq<EventView>,
)
    requires
        t != Tracking::Versioned,
        valid_run(
            inv,
            Phase::AwaitTracking,
            seq![EventView::Tracking(t), EventView::Answer(answer)] + rest,
        ),
    ensures
        ({
            let events = seq![EventView::Tracking(t), EventView::Answer(answer)] + rest;
            let actions = run(inv, Phase::AwaitTracking, events).1;
            &&& actions[0] is Confirm
            &&& accepts(answer) ==> actions[1] == ActionView::ReadFile(inv.file)
            &&& !accepts(answer) ==> rest.len() == 0 && actions == seq![
                actions[0],
                ActionView::Exit(Outcome::Declined),
            ]
        }),
{
    let events = seq![EventView::Tracking(t), EventView::Answer(answer)] + rest;
    let e1 = events.drop_first();
    let e2 = e1.drop_first();
    assert(events[0] == EventView::Tracking(t));
    assert(e1[0] == EventView::Answer(answer));
    assert(e2 =~= rest);
    let (p1, a0) = transition(inv, Phase::AwaitTracking, events[0]);
    let (p2, a1) = transition(inv, p1, e1[0]);
    assert(p1 == Phase::AwaitAnswer);
    assert(valid_run(inv, p1, e1));
    assert(valid_run(inv, p2, e2));
    let tail = run(inv, p2, e2).1;
    lemma_run_len(inv, p2, e2);
    assert(run(inv, p1, e1).1 =~= seq![a1] + tail);
    let actions = run(inv, Phase::AwaitTracking, events).1;
    assert(actions =~= seq![a0, a1] + tail);
    if !accepts(answer) {
        assert(p2 == Phase::Over(Outcome::Declined));
        assert(rest.len() == 0);
        assert(actions =~= seq![a0, ActionView::Exit(Outcome::Declined)]);
    }
}

/// The message sent holds both the operator's prompt and the file's original
/// text, each as it was given.
pub proof fn lemma_instruction_holds_inputs(prompt: Seq<char>, original: Seq<char>)
    ensures
        contains(instruction_text(prompt, original), prompt),
        contains(instruction_text(prompt, original), original),
{
    let head = crate::edit::PREAMBLE@ + crate::edit::PROMPT_HEADING@;
    let text = instruction_text(prompt, original);
    let i = head.len() as int;
    assert(text.subrange(i, i + prompt.len()) =~= prompt);
    let j = (head + prompt + crate::edit::FILE_HEADING@).len() as int;
    assert(text.subrange(j, j + original.len()) =~= original);
}

/// Once the file is read, the run sends one request for its own model, with
/// one message that holds the operator's prompt and the file's text.
pub proof fn lemma_request_carries_inputs(inv: InvocationView, original: Seq<char>)
    ensures
        ({
            let (next, a) = transition(inv, Phase::AwaitFile, EventView::FileRead(original));
            &&& next == Phase::AwaitReply
            &&& a is SendRequest
            &&& a->SendRequest_0 == inv.model
            &&& contains(a->SendRequest_1, inv.prompt)
            &&& contains(a->SendRequest_1, original)
        }),
{
    lemma_instruction_holds_inputs(inv.prompt, original);
}

/// The only write of a run puts into the run's file the text of the reply's
/// last choice followed by one line break, whatever the file held before.
pub proof fn lemma_write_is_reply_text(inv: InvocationView, phase: Phase, e: EventView)
    requires
        expects(phase, e),
        transition(inv, phase, e).1 is WriteFile,
    ensures
        phase == Phase::AwaitReply,
        e is Reply,
        e->Reply_0.len() > 0,
        e->Reply_0.last() is Some,
        transition(inv, phase, e).1 == ActionView::WriteFile(
            inv.file,
            written_text(e->Reply_0.last()->Some_0),
        ),
{
}

/// A tracked file with original text `original`, and a reply whose last
/// choice reads `reply`: the file is written with `reply` and a line break.
pub proof fn lemma_round_trip(
    inv: InvocationView,
    original: Seq<char>,
    choices: Seq<Option<Seq<char>>>,
    reply: Seq<char>,
)
    requires
        choices.len() > 0,
        choices.last() == Some(reply),
    ensures
        run(
            inv,
            Phase::AwaitTracking,
            seq![
                EventView::Tracking(Tracking::Versioned),
                EventView::FileRead(original),
                EventView::Reply(choices),
            ],
        ) == (
            Phase::AwaitWrite,
            seq![
                ActionView::ReadFile(inv.file),
                ActionView::SendRequest(inv.model, instruction_text(inv.prompt, original)),
                ActionView::WriteFile(inv.file, reply + seq!['\n']),
            ],
        ),
{
    let events = seq![
        EventView::Tracking(Tracking::Versioned),
        EventView::FileRead(original),
        EventView::Reply(choices),
    ];
    let e1 = events.drop_first();
    let e2 = e1.drop_first();
    let e3 = e2.drop_first();
    assert(e1 =~= seq![EventView::FileRead(original), EventView::Reply(choices)]);
    assert(e2 =~= seq![EventView::Reply(choices)]);
    assert(e3 =~= Seq::<EventView>::empty());
    let read = ActionView::ReadFile(inv.file);
    let send = ActionView::SendRequest(inv.model, instruction_text(inv.prompt, original));
    let write = ActionView::WriteFile(inv.file, reply + seq!['\n']);
    assert(reply_result(choices) == Ok::<Seq<char>, EditError>(reply));
    assert(run(inv, Phase::AwaitWrite, e3) == (Phase::AwaitWrite, Seq::<ActionView>::empty()));
    assert(run(inv, Phase::AwaitReply, e2).1 =~= seq![write]);
    assert(run(inv, Phase::AwaitFile, e1).1 =~= seq![send, write]);
    assert(run(inv, Phase::AwaitTracking, events).1 =~= seq![read, send, write]);
}

/// A reply without a usable last choice (no choice at all, or a last choice
/// without text) ends the run with that error, and nothing is written.
pub proof fn lemma_bad_reply_writes_nothing(
    inv: InvocationView,
    choices: Seq<Option<Seq<char>>>,
    rest: Seq<EventView>,
)
    requires
        choices.len() == 0 || choices.last() is None,
        valid_run(inv, Phase::AwaitReply, seq![EventView::Reply(choices)] + rest),
    ensures
        rest.len() == 0,
        choices.len() == 0 ==> run(inv, Phase::AwaitReply, seq![EventView::Reply(choices)]).1
            == seq![ActionView::Exit(Outcome::Failed(EditError::NoChoices))],
        choices.len() > 0 ==> run(inv, Phase::AwaitReply, seq![EventView::Reply(choices)]).1
            == seq![ActionView::Exit(Outcome::Failed(EditError::NoContent))],
{
    let events = seq![EventView::Reply(choices)] + rest;
    assert(events[0] == EventView::Reply(choices));
    assert(events.drop_first() =~= rest);
    let (next, a) = transition(inv, Phase::AwaitReply, EventView::Reply(choices));
    assert(next is Over);
    assert(valid_run(inv, next, rest));
    let one = seq![EventView::Reply(choices)];
    assert(one.drop_first() =~= Seq::<EventView>::empty());
    assert(run(inv, next, one.drop_first()).1 =~= Seq::<ActionView>::empty());
    assert(run(inv, Phase::AwaitReply, one).1 =~= seq![a]);
}

/// With staging turned off, no step of any run asks for it.
pub proof fn lemma_no_patch_never_stages(inv: InvocationView, phase: Phase, events: Seq<EventView>)
    requires
        inv.no_patch,
    ensures
        forall|i: int|
            0 <= i < run(inv, phase, events).1.len() ==> !(#[trigger] run(
                inv,
                phase,
                events,
            ).1[i] is StageInteractive),
    decreases events.len(),
{
    if events.len() > 0 {
        let next = transition(inv, phase, events[0]).0;
        lemma_no_patch_never_stages(inv, next, events.drop_first());
        let rest = run(inv, next, events.drop_first()).1;
        let all = run(inv, phase, events).1;
        assert forall|i: int| 0 <= i < all.len() implies !(#[trigger] all[i] is StageInteractive) by {
            if i > 0 {
                assert(all[i] == rest[i - 1]);
            }
        }
    }
}

/// With staging on, a successful write is followed by exactly one request to
/// stage the file, and no other.
pub proof fn lemma_write_stages_once(inv: InvocationView, rest: Seq<EventView>)
    requires
        !inv.no_patch,
        valid_run(inv, Phase::AwaitWrite, seq![EventView::Written] + rest),
    ensures
        ({
            let actions = run(inv, Phase::AwaitWrite, seq![EventView::Written] + rest).1;
            &&& actions[0] == ActionView::StageInteractive(inv.file)
            &&& forall|i: int| 1 <= i < actions.len() ==> !(#[trigger] actions[i] is StageInteractive)
        }),
{
    let events = seq![EventView::Written] + rest;
    assert(events[0] == EventView::Written);
    assert(events.drop_first() =~= rest);
    assert(valid_run(inv, Phase::AwaitStaging, rest));
    let actions = run(inv, Phase::AwaitWrite, events).1;
    if rest.len() > 0 {
        let (next, a) = transition(inv, Phase::AwaitStaging, rest[0]);
        assert(next is Over);
        assert(valid_run(inv, next, rest.drop_first()));
        assert(rest.drop_first() =~= Seq::<EventView>::empty());
        assert(run(inv, next, rest.drop_first()).1 =~= Seq::<ActionView>::empty());
        assert(run(inv, Phase::AwaitStaging, rest).1 =~= seq![a]);
        assert(actions.len() == 2);
    } else {
        assert(run(inv, Phase::AwaitStaging, rest).1 =~= Seq::<ActionView>::empty());
        assert(actions.len() == 1);
    }
}

} // verus!
