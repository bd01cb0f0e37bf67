//! The message model: the four severities, the two output sinks, and the
//! split of a message at its first `:` into a head and a tail.

use vstd::prelude::*;

verus! {

/// The four message severities. Each severity selects an icon and a
/// foreground/background color pair when a message is rendered.
#[derive(Clone, Copy, PartialEq, Eq, Structural)]
pub enum Severity {
    Error,
    Info,
    Success,
    Warning,
}

/// The two output sinks: a terminal line (colored, with the optional
/// highlighted tail) or a log-file line (plain icon, connector, message).
#[derive(Clone, Copy, PartialEq, Eq, Structural)]
pub enum Sink {
    Terminal,
    File,
}

/// The index of the first `:` in `m`, or `m.len()` if there is none.
pub open spec fn first_colon(m: Seq<char>) -> int
    decreases m.len(),
{
    if m.len() == 0 {
        0
    } else if m[0] == ':' {
        0
    } else {
        1 + first_colon(m.skip(1))
    }
}

/// Whether `m` contains a `:` at all.
pub open spec fn has_colon(m: Seq<char>) -> bool {
    first_colon(m) < m.len()
}

/// The part of `m` before its first `:` (all of `m` if there is none).
pub open spec fn head_of(m: Seq<char>) -> Seq<char> {
    m.subrange(0, first_colon(m))
}

/// The part of `m` after its first `:`; meaningful only when `has_colon(m)`.
pub open spec fn tail_of(m: Seq<char>) -> Seq<char> {
    m.subrange(first_colon(m) + 1, m.len() as int)
}

/// `first_colon` points at the first `:` of `m`: it is in bounds, everything
/// before it differs from `:`, and it lands on a `:` unless there is none.
pub proof fn lemma_first_colon(m: Seq<char>)
    ensures
        0 <= first_colon(m) <= m.len(),
        first_colon(m) < m.len() ==> m[first_colon(m)] == ':',
        forall|j: int| 0 <= j < first_colon(m) ==> m[j] != ':',
    decreases m.len(),
{
    if m.len() == 0 {
    } else if m[0] == ':' {
    } else {
        lemma_first_colon(m.skip(1));
        assert forall|j: int| 0 <= j < first_colon(m) implies m[j] != ':' by {
            if j > 0 {
                assert(m.skip(1)[j - 1] == m[j]);
            }
        }
    }
}

/// Any index that is preceded by no `:` and either lands on a `:` or on the
/// end of `m` is exactly `first_colon(m)`.
pub proof fn lemma_first_colon_is(m: Seq<char>, i: int)
    requires
        0 <= i <= m.len(),
        forall|j: int| 0 <= j < i ==> m[j] != ':',
        i < m.len() ==> m[i] == ':',
    ensures
        first_colon(m) == i,
    decreases m.len(),
{
    if m.len() == 0 {
    } else if m[0] == ':' {
        assert(i == 0);
    } else {
        assert(i > 0);
        assert forall|j: int| 0 <= j < i - 1 implies m.skip(1)[j] != ':' by {
            assert(m.skip(1)[j] == m[j + 1]);
        }
        assert(i - 1 < m.skip(1).len() ==> m.skip(1)[i - 1] == ':');
        lemma_first_colon_is(m.skip(1), i - 1);
    }
}

} // verus!
