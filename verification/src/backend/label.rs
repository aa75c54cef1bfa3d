//! Branch targets and the allocator that keeps generated ones apart.

use crate::text::{decimal_nat, push_decimal_u64};
use vstd::prelude::*;
use vstd::std_specs::convert::FromSpecImpl;

verus! {

/// A jump or call target: either minted by a [`LabelAllocator`] or a symbol
/// that the caller chose.
#[derive(Copy, Clone, Debug, PartialEq, Eq)]
pub enum Label {
    Generated(usize),
    Given(&'static str),
}

/// The source of generated labels for one compilation run.
///
/// It counts the labels it has handed out and never hands out the same
/// number twice. A call takes it by `&mut`, so two calls never overlap:
/// tasks that compile side by side share one allocator behind a lock.
pub struct LabelAllocator {
    next: usize,
}

impl LabelAllocator {
    /// How many labels have been handed out so far.
    pub closed spec fn issued(self) -> nat {
        self.next as nat
    }

    /// The label that the next call of [`Label::new`] returns.
    pub open spec fn next_label(self) -> Label {
        Label::Generated(self.issued() as usize)
    }

    /// The allocator as the next call of [`Label::new`] leaves it.
    pub closed spec fn after_call(self) -> LabelAllocator {
        LabelAllocator { next: (self.next + 1) as usize }
    }

    /// The label that call number `k` returns, counting from zero, in a run
    /// of calls that starts at this allocator.
    pub open spec fn label_of_call(self, k: nat) -> Label
        decreases k,
    {
        if k == 0 {
            self.next_label()
        } else {
            self.after_call().label_of_call((k - 1) as nat)
        }
    }

    /// An allocator that has handed out nothing yet.
    pub fn new() -> (labels: LabelAllocator)
        ensures
            labels.issued() == 0,
    {
        LabelAllocator { next: 0 }
    }

    /// Whether every number has been handed out, so that no further label
    /// can be generated.
    pub fn is_exhausted(&self) -> (exhausted: bool)
        ensures
            exhausted == (self.issued() >= usize::MAX),
    {
        self.next == usize::MAX
    }

    /// A call moves the count on by one, as long as numbers are left.
    pub proof fn lemma_after_call(self)
        requires
            self.issued() < usize::MAX,
        ensures
            self.after_call().issued() == self.issued() + 1,
    {
    }

    /// Call number `k` of a run returns the number `k` places after the
    /// count at which the run started.
    pub proof fn lemma_label_of_call(self, k: nat)
        requires
            self.issued() + k <= usize::MAX,
        ensures
            self.label_of_call(k) == Label::Generated((self.issued() + k) as usize),
        decreases k,
    {
        if k > 0 {
            self.lemma_after_call();
            self.after_call().lemma_label_of_call((k - 1) as nat);
        }
    }

    /// Uniqueness: in any run of calls on one allocator, two different calls
    /// return different labels. The run may hold as many calls as there are
    /// numbers left.
    pub proof fn lemma_labels_distinct(self, i: nat, j: nat)
        requires
            i != j,
            self.issued() + i < usize::MAX,
            self.issued() + j < usize::MAX,
        ensures
            self.label_of_call(i) != self.label_of_call(j),
    {
        self.lemma_label_of_call(i);
        self.lemma_label_of_call(j);
    }
}

impl Label {
    /// The label as the assembler reads it: `.L` and the number for a
    /// generated label, the bare name for a given one.
    pub open spec fn text(self) -> Seq<char> {
        match self {
            Label::Generated(id) => ".L"@ + decimal_nat(id as nat),
            Label::Given(name) => name@,
        }
    }

    /// Mints a label that no earlier call on `labels` has returned.
    pub fn new(labels: &mut LabelAllocator) -> (label: Label)
        requires
            old(labels).issued() < usize::MAX,
        ensures
            label == old(labels).next_label(),
            *final(labels) == old(labels).after_call(),
            final(labels).issued() == old(labels).issued() + 1,
    {
        let id = labels.next;
        labels.next = labels.next + 1;
        Label::Generated(id)
    }

    /// Appends the label's text to `out`.
    pub fn append_to(&self, out: &mut String)
        ensures
            final(out)@ == old(out)@ + self.text(),
    {
        match *self {
            Label::Generated(id) => {
                out.append(".L");
                push_decimal_u64(out, id as u64);
                assert(final(out)@ =~= old(out)@ + self.text());
            },
            Label::Given(name) => {
                out.append(name);
            },
        }
    }

    /// The label's text.
    pub fn to_string(&self) -> (s: String)
        ensures
            s@ == self.text(),
    {
        let mut s = String::new();
        self.append_to(&mut s);
        assert(s@ =~= self.text());
        s
    }
}

impl From<&'static str> for Label {
    /// Wraps a fixed symbol, such as the name of an entry point.
    fn from(string: &'static str) -> (label: Label) {
        Label::Given(string)
    }
}

impl FromSpecImpl<&'static str> for Label {
    open spec fn obeys_from_spec() -> bool {
        true
    }

    open spec fn from_spec(string: &'static str) -> Label {
        Label::Given(string)
    }
}

} // verus!
