//! Sanctions screening as a sequence of questions to the sanctions list.
//!
//! The engine asks about the sender and then each address, in order, and
//! stops at the first one the list flags. A [`Screening`] says which address
//! to ask about next, takes each answer, and gives the flagged addresses
//! that [`crate::engine::EngineState::check_sanctions`] and the enforcement
//! functions take.

use vstd::prelude::*;

use crate::engine::{any_flagged, sanctions_on, sanctions_verdict, EngineState, EngineView, TxState};
use crate::types::Addr;

verus! {

/// The addresses screened for a call, in the order they are asked about.
pub open spec fn screening_order(v: EngineView, sender: Addr, addresses: Seq<Addr>) -> Seq<Addr> {
    if sanctions_on(v) {
        seq![sender] + addresses
    } else {
        Seq::empty()
    }
}

/// The mathematical value of a [`Screening`]: the sanctions list to ask,
/// the addresses to ask it about, and the answers received so far, one per
/// address asked.
pub struct ScreeningView {
    pub list: Option<Addr>,
    pub targets: Seq<Addr>,
    pub answers: Seq<bool>,
}

/// The next address to ask about: none once an answer flagged an address
/// or every address was asked.
pub open spec fn next_target(s: ScreeningView) -> Option<Addr> {
    if s.answers.contains(true) || s.answers.len() >= s.targets.len() {
        None
    } else {
        Some(s.targets[s.answers.len() as int])
    }
}

/// The next question: the list to ask and the address to ask it about.
pub open spec fn next_question(s: ScreeningView) -> Option<(Addr, Addr)> {
    match next_target(s) {
        Some(t) => Some((s.list->0, t)),
        None => None,
    }
}

/// The flagged addresses a screening reports: the address whose answer was
/// `true`, if any.
pub open spec fn flagged_of(s: ScreeningView) -> Seq<Addr> {
    if s.answers.len() > 0 && s.answers.last() {
        seq![s.targets[s.answers.len() - 1]]
    } else {
        Seq::empty()
    }
}

/// A screening has a list to ask whenever it has an address to ask about,
/// takes no answer once an answer flagged an address, and at most one
/// answer per address.
pub open spec fn screening_wf(s: ScreeningView) -> bool {
    &&& s.targets.len() > 0 ==> s.list is Some
    &&& s.answers.len() <= s.targets.len()
    &&& forall|j: int| 0 <= j < s.answers.len() - 1 ==> !s.answers[j]
}

/// How far a screening has got: how many answers came, whether the last
/// one flagged its address, and the answers themselves.
struct Progress {
    asked: usize,
    hit: bool,
    answers: Ghost<Seq<bool>>,
}

/// Sanctions screening in progress.
pub struct Screening {
    list: Option<Addr>,
    targets: Vec<Addr>,
    progress: Progress,
}

impl Screening {
    pub closed spec fn view(&self) -> ScreeningView {
        ScreeningView { list: self.list, targets: self.targets@, answers: self.progress.answers@ }
    }

    /// There is a list to ask whenever there is an address to ask about,
    /// and answers are only taken while questions remain: at most one per
    /// target, and none after a `true`.
    #[verifier::type_invariant]
    closed spec fn inv(&self) -> bool {
        &&& self.targets@.len() > 0 ==> self.list is Some
        &&& self.progress.asked == self.progress.answers@.len()
        &&& self.progress.asked <= self.targets@.len()
        &&& forall|j: int|
            0 <= j < self.progress.answers@.len() - 1 ==> !self.progress.answers@[j]
        &&& self.progress.hit == (self.progress.asked > 0 && self.progress.answers@.last())
    }

    /// Starts screening a call of `sender` with the given addresses on
    /// `engine`, against the list the engine holds: nothing to ask when
    /// screening is off.
    pub fn start(engine: &EngineState, sender: &Addr, addresses: &Vec<Addr>) -> (r: Screening)
        ensures
            r@.list == engine@.sanctions_list,
            r@.targets == screening_order(engine@, *sender, addresses@),
            r@.answers == Seq::<bool>::empty(),
            screening_wf(r@),
    {
        let targets = engine.screening_targets(sender, addresses);
        Screening {
            list: engine.sanctions_list(),
            targets,
            progress: Progress { asked: 0, hit: false, answers: Ghost(Seq::empty()) },
        }
    }

    /// The next question, if any: the sanctions list to ask, and the
    /// address to ask it about.
    pub fn next_query(&self) -> (r: Option<(Addr, Addr)>)
        ensures
            r == next_question(self@),
    {
        proof {
            use_type_invariant(self);
            let answers = self.progress.answers@;
            if answers.contains(true) {
                let j = choose|j: int| 0 <= j < answers.len() && answers[j];
                assert(j == answers.len() - 1);
            }
        }
        if self.progress.hit || self.progress.asked >= self.targets.len() {
            return None;
        }
        match self.list {
            Some(list) => Some((list, self.targets[self.progress.asked])),
            None => None,
        }
    }

    /// Takes the list's answer to the question [`Self::next_query`] gave.
    pub fn record(&mut self, sanctioned: bool)
        requires
            next_question(old(self)@) is Some,
        ensures
            final(self)@ == (ScreeningView {
                answers: old(self)@.answers.push(sanctioned),
                ..old(self)@
            }),
            screening_wf(final(self)@),
    {
        proof {
            use_type_invariant(&*self);
            let answers = self.progress.answers@;
            if self.progress.hit {
                assert(answers.contains(true)) by {
                    assert(answers[answers.len() - 1]);
                }
            }
            assert forall|j: int| 0 <= j < answers.len() implies !answers[j] by {
                if answers[j] {
                    assert(answers.contains(true));
                }
            }
        }
        let len = self.targets.len();
        proof {
            assert(self.progress.asked < len);
        }
        let ghost answers = self.progress.answers@.push(sanctioned);
        self.progress = Progress {
            asked: self.progress.asked + 1,
            hit: sanctioned,
            answers: Ghost(answers),
        };
    }

    /// The flagged addresses: the one whose answer was `true`, if any.
    pub fn flagged(&self) -> (r: Vec<Addr>)
        ensures
            r@ == flagged_of(self@),
    {
        proof {
            use_type_invariant(self);
        }
        let mut r: Vec<Addr> = Vec::new();
        if self.progress.hit {
            r.push(self.targets[self.progress.asked - 1]);
        }
        proof {
            if !self.progress.hit {
                assert(r@ =~= Seq::<Addr>::empty());
            }
        }
        r
    }
}

/// A finished screening of a call decides as the sanctions list does: the
/// flags it reports make the engine reject the call exactly when screening
/// is on and the list flagged one of the addresses asked about. The
/// questions stop at the first flagged address, every address before it was
/// asked about and cleared, every address was asked about when none was
/// flagged, and nothing at all was asked when screening is off.
pub proof fn lemma_screening_verdict(
    v: EngineView,
    sender: Addr,
    addresses: Seq<Addr>,
    s: ScreeningView,
)
    requires
        s.targets == screening_order(v, sender, addresses),
        screening_wf(s),
        next_question(s) is None,
    ensures
        sanctions_verdict(v, sender, addresses, flagged_of(s)) == (if s.answers.contains(true) {
            TxState::Rejected
        } else {
            TxState::Approved
        }),
        !s.answers.contains(true) ==> s.answers.len() == s.targets.len(),
        s.answers.contains(true) ==> s.answers.last()
            && forall|j: int| 0 <= j < s.answers.len() - 1 ==> !s.answers[j],
        !sanctions_on(v) ==> s.answers.len() == 0,
{
    if s.answers.contains(true) {
        let j = choose|j: int| 0 <= j < s.answers.len() && s.answers[j];
        assert(j == s.answers.len() - 1);
        let k = s.answers.len() - 1;
        let t = s.targets[k];
        assert(sanctions_on(v));
        assert(flagged_of(s) == seq![t]);
        assert(flagged_of(s).contains(t)) by {
            assert(flagged_of(s)[0] == t);
        }
        if k == 0 {
            assert(t == sender);
        } else {
            assert(t == addresses[k - 1]);
            assert(any_flagged(sender, addresses, flagged_of(s)));
        }
    } else {
        if s.answers.len() > 0 {
            assert(!s.answers.last()) by {
                if s.answers.last() {
                    assert(s.answers.contains(true));
                }
            }
        }
        assert(flagged_of(s) =~= Seq::<Addr>::empty());
    }
}

} // verus!
