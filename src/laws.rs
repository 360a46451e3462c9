//! Properties of the normal-mode grammar over whole keystroke sequences.
use vstd::prelude::*;

use crate::grammar::{
    digit_value, direction_token, motion_token, object_token, operator_token, range_token,
    TextObject,
};
use crate::modes::{effective_count, initial_minor, step, Command, NormalMinor, Operation};

verus! {

/// Feeds `input` one character at a time from state `s`: the final state,
/// and what each character emitted.
pub open spec fn feed(s: NormalMinor, input: Seq<char>) -> (NormalMinor, Seq<Option<Command>>)
    decreases input.len(),
{
    if input.len() == 0 {
        (s, Seq::empty())
    } else {
        let prev = feed(s, input.drop_last());
        let next = step(prev.0, input.last());
        (next.0, prev.1.push(next.1))
    }
}

/// `n` characters that emit nothing, then one that emits `last`.
pub open spec fn quiet_then(n: nat, last: Option<Command>) -> Seq<Option<Command>> {
    Seq::new(n, |_i: int| None::<Command>).push(last)
}

/// Whether every character of `d` is a decimal digit.
pub open spec fn is_digits(d: Seq<char>) -> bool {
    forall|i: int| 0 <= i < d.len() ==> (#[trigger] digit_value(d[i])) is Some
}

/// The number a string of decimal digits spells.
pub open spec fn digits_number(d: Seq<char>) -> nat
    decreases d.len(),
{
    if d.len() == 0 {
        0
    } else {
        digits_number(d.drop_last()) * 10 + digit_value(d.last()).unwrap() as nat
    }
}

/// `n`, held at `usize::MAX`.
pub open spec fn saturate(n: nat) -> usize {
    if n > usize::MAX { usize::MAX } else { n as usize }
}

/// The count that a typed repeat prefix gives a command: one when it is empty,
/// else the number it spells, held at `usize::MAX`.
pub open spec fn prefix_count(d: Seq<char>) -> usize {
    if d.len() == 0 { 1 } else { saturate(digits_number(d)) }
}

/// Whether `ch` is a continuation that the state `s` expects.
pub open spec fn continues(s: NormalMinor, ch: char) -> bool {
    match s {
        NormalMinor::Initial(_) => {
            digit_value(ch) is Some || operator_token(ch) is Some || motion_token(ch) is Some
        },
        NormalMinor::OperatorPending(_, _) => motion_token(ch) is Some || range_token(ch) is Some,
        NormalMinor::TextObjectPending(_, _, _) => object_token(ch) is Some,
    }
}

/// Feeding `a` then `b` is feeding `a + b`.
pub proof fn lemma_feed_append(s: NormalMinor, a: Seq<char>, b: Seq<char>)
    ensures
        feed(s, a + b).0 == feed(feed(s, a).0, b).0,
        feed(s, a + b).1 == feed(s, a).1 + feed(feed(s, a).0, b).1,
    decreases b.len(),
{
    if b.len() == 0 {
        assert(a + b =~= a);
        assert(feed(s, a).1 + Seq::<Option<Command>>::empty() =~= feed(s, a).1);
    } else {
        lemma_feed_append(s, a, b.drop_last());
        assert((a + b).drop_last() =~= a + b.drop_last());
        assert((a + b).last() == b.last());
        let mid = feed(s, a);
        assert(mid.1 + feed(mid.0, b.drop_last()).1.push(step(feed(mid.0, b.drop_last()).0, b.last()).1)
            =~= (mid.1 + feed(mid.0, b.drop_last()).1).push(step(feed(mid.0, b.drop_last()).0, b.last()).1));
    }
}

/// Feeding one more character is one more step.
proof fn lemma_feed_push(s: NormalMinor, a: Seq<char>, ch: char)
    ensures
        feed(s, a.push(ch)) == (
            step(feed(s, a).0, ch).0,
            feed(s, a).1.push(step(feed(s, a).0, ch).1),
        ),
{
    assert(a.push(ch).drop_last() =~= a);
}

/// Feeding one character from `s` is one step.
proof fn lemma_feed_one(s: NormalMinor, ch: char)
    ensures
        feed(s, seq![ch]) == (step(s, ch).0, seq![step(s, ch).1]),
{
    lemma_feed_push(s, Seq::empty(), ch);
    assert(Seq::<char>::empty().push(ch) =~= seq![ch]);
    assert(Seq::<Option<Command>>::empty().push(step(s, ch).1) =~= seq![step(s, ch).1]);
}

/// A string of digits typed at the start of a command only accumulates the
/// repeat count, held at `usize::MAX`, and emits nothing.
pub proof fn lemma_feed_digits(d: Seq<char>)
    requires
        is_digits(d),
    ensures
        feed(initial_minor(), d).0 == (if d.len() == 0 {
            initial_minor()
        } else {
            NormalMinor::Initial(Some(saturate(digits_number(d))))
        }),
        feed(initial_minor(), d).1 == Seq::new(d.len(), |_i: int| None::<Command>),
    decreases d.len(),
{
    if d.len() == 0 {
        assert(feed(initial_minor(), d).1 =~= Seq::new(d.len(), |_i: int| None::<Command>));
    } else {
        let p = d.drop_last();
        assert forall|i: int| 0 <= i < p.len() implies (#[trigger] digit_value(p[i])) is Some by {
            assert(p[i] == d[i]);
        }
        lemma_feed_digits(p);
        assert(digit_value(d[d.len() - 1]) is Some);
        let k = digit_value(d.last()).unwrap() as nat;
        assert(k <= 9);
        let n = digits_number(p);
        if p.len() == 0 {
            assert(n == 0);
        }
        if n > usize::MAX {
            assert(n * 10 + k > usize::MAX) by (nonlinear_arith)
                requires
                    n > usize::MAX,
            ;
            assert(usize::MAX as int * 10 + k > usize::MAX);
        }
        assert(feed(initial_minor(), d).1 =~= Seq::new(d.len(), |_i: int| None::<Command>));
    }
}

/// The state that a typed repeat prefix leaves, and the count it gives.
proof fn lemma_prefix_state(d: Seq<char>)
    requires
        is_digits(d),
        d.len() == 0 || digits_number(d) != 0,
    ensures
        feed(initial_minor(), d).0 is Initial,
        effective_count(feed(initial_minor(), d).0->Initial_0) == prefix_count(d),
        feed(initial_minor(), d).1 == Seq::new(d.len(), |_i: int| None::<Command>),
{
    lemma_feed_digits(d);
}

/// A motion character after a repeat prefix of digits completes a motion
/// whose count is the number the digits spell (one when there are none), held
/// at `usize::MAX`; the digits emit nothing and the state is reset.
pub proof fn lemma_count_then_motion(d: Seq<char>, m: char)
    requires
        is_digits(d),
        d.len() == 0 || digits_number(d) != 0,
        motion_token(m) is Some,
    ensures
        feed(initial_minor(), d.push(m)) == (
            initial_minor(),
            quiet_then(
                d.len(),
                Some(Command::Motion(prefix_count(d), motion_token(m).unwrap(), direction_token(m).unwrap())),
            ),
        ),
{
    lemma_prefix_state(d);
    assert(d.push(m).drop_last() =~= d);
}

/// A motion character typed alone moves once.
pub proof fn lemma_bare_motion(m: char)
    requires
        motion_token(m) is Some,
    ensures
        feed(initial_minor(), seq![m]) == (
            initial_minor(),
            seq![Some(Command::Motion(1, motion_token(m).unwrap(), direction_token(m).unwrap()))],
        ),
{
    let d = Seq::<char>::empty();
    lemma_count_then_motion(d, m);
    assert(d.push(m) =~= seq![m]);
    assert(quiet_then(0, Some(Command::Motion(1, motion_token(m).unwrap(), direction_token(m).unwrap())))
        =~= seq![Some(Command::Motion(1, motion_token(m).unwrap(), direction_token(m).unwrap()))]);
}

/// An operator followed by a motion, after an optional repeat prefix,
/// completes that operator over the motion, with the prefix's count.
pub proof fn lemma_operator_motion(d: Seq<char>, o: char, m: char)
    requires
        is_digits(d),
        d.len() == 0 || digits_number(d) != 0,
        operator_token(o) is Some,
        motion_token(m) is Some,
    ensures
        feed(initial_minor(), d + seq![o, m]) == (
            initial_minor(),
            quiet_then(
                d.len() + 1,
                Some(
                    Command::Operation(
                        Operation::Motion(
                            prefix_count(d),
                            operator_token(o).unwrap(),
                            motion_token(m).unwrap(),
                            direction_token(m).unwrap(),
                        ),
                    ),
                ),
            ),
        ),
{
    lemma_prefix_state(d);
    lemma_feed_append(initial_minor(), d, seq![o, m]);
    let p = feed(initial_minor(), d).0;
    lemma_feed_one(p, o);
    assert(seq![o].push(m) =~= seq![o, m]);
    lemma_feed_push(p, seq![o], m);
    let c = Command::Operation(
        Operation::Motion(
            prefix_count(d),
            operator_token(o).unwrap(),
            motion_token(m).unwrap(),
            direction_token(m).unwrap(),
        ),
    );
    assert(Seq::new(d.len(), |_i: int| None::<Command>) + seq![None, Some(c)] =~= quiet_then(
        d.len() + 1,
        Some(c),
    ));
}

/// An operator, a range qualifier and a text-object kind, after an optional
/// repeat prefix, complete that operator over the text object, with the
/// prefix's count.
pub proof fn lemma_operator_text_object(d: Seq<char>, o: char, r: char, w: char)
    requires
        is_digits(d),
        d.len() == 0 || digits_number(d) != 0,
        operator_token(o) is Some,
        range_token(r) is Some,
        object_token(w) is Some,
    ensures
        feed(initial_minor(), d + seq![o, r, w]) == (
            initial_minor(),
            quiet_then(
                d.len() + 2,
                Some(
                    Command::Operation(
                        Operation::TextObject(
                            prefix_count(d),
                            operator_token(o).unwrap(),
                            TextObject(range_token(r).unwrap(), object_token(w).unwrap()),
                        ),
                    ),
                ),
            ),
        ),
{
    lemma_prefix_state(d);
    lemma_feed_append(initial_minor(), d, seq![o, r, w]);
    let p = feed(initial_minor(), d).0;
    lemma_feed_one(p, o);
    assert(seq![o].push(r) =~= seq![o, r]);
    lemma_feed_push(p, seq![o], r);
    assert(seq![o, r].push(w) =~= seq![o, r, w]);
    lemma_feed_push(p, seq![o, r], w);
    let c = Command::Operation(
        Operation::TextObject(
            prefix_count(d),
            operator_token(o).unwrap(),
            TextObject(range_token(r).unwrap(), object_token(w).unwrap()),
        ),
    );
    assert(Seq::new(d.len(), |_i: int| None::<Command>) + seq![None, None, Some(c)]
        =~= quiet_then(d.len() + 2, Some(c)));
}

/// A character that the state does not expect drops the sequence and emits
/// nothing; what follows is read as if typed from the start.
pub proof fn lemma_abort(s: NormalMinor, ch: char, rest: Seq<char>)
    requires
        !continues(s, ch),
    ensures
        step(s, ch) == (initial_minor(), None::<Command>),
        feed(s, seq![ch] + rest) == (
            feed(initial_minor(), rest).0,
            seq![None::<Command>] + feed(initial_minor(), rest).1,
        ),
{
    lemma_feed_append(s, seq![ch], rest);
    lemma_feed_one(s, ch);
}

/// Once a command completes or a sequence is dropped, the state is the
/// initial one again.
pub proof fn lemma_reset(s: NormalMinor, ch: char)
    requires
        step(s, ch).1 is Some || !continues(s, ch),
    ensures
        step(s, ch).0 == initial_minor(),
{
}

/// The count a command carries.
pub open spec fn command_count(c: Command) -> usize {
    match c {
        Command::Motion(n, _, _) => n,
        Command::Operation(Operation::Motion(n, _, _, _)) => n,
        Command::Operation(Operation::TextObject(n, _, _)) => n,
    }
}

/// From a well-formed state, a step leads to a well-formed state, and every
/// command it completes carries a count of at least one.
pub proof fn lemma_step_wf(s: NormalMinor, ch: char)
    requires
        s.wf(),
    ensures
        step(s, ch).0.wf(),
        step(s, ch).1 matches Some(c) ==> command_count(c) >= 1,
{
}

} // verus!
