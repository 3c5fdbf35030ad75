use vstd::prelude::*;

verus! {

/// Which reading a polling run over `sigs` hands back, starting at poll `i`.
///
/// `last` is the signature last seen (before the first poll: the clipboard's
/// signature from before the copy, if known) and `held` the index of the last
/// reading that found content. A reading is taken as soon as its signature
/// differs from `last` (or nothing was seen before it); once the polls run out
/// the last reading that found content is handed back.
pub open spec fn pick_from(sigs: Seq<Option<usize>>, i: int, last: Option<usize>, held: Option<int>) -> Option<int>
    decreases sigs.len() - i,
{
    if i >= sigs.len() || i < 0 {
        held
    } else {
        match sigs[i] {
            Some(s) => if last.is_none() || last != Some(s) {
                Some(i)
            } else {
                pick_from(sigs, i + 1, Some(s), Some(i))
            },
            None => pick_from(sigs, i + 1, last, held),
        }
    }
}

/// The index of the reading that a run of `sigs.len()` polls returns, where
/// `sigs[i]` is the signature of poll `i` (`None`: nothing readable).
pub open spec fn picked(sigs: Seq<Option<usize>>, prior: Option<usize>) -> Option<int> {
    pick_from(sigs, 0, prior, None)
}

/// What the polling loop does after one reading.
#[derive(Debug, Clone, Copy, PartialEq, Eq, Structural)]
pub enum ReadStep {
    /// Hand back the reading just taken.
    Take,
    /// Wait the retry delay and poll again.
    Poll,
    /// Polls are exhausted: hand back the last reading that found content.
    TakeLast,
    /// Polls are exhausted and none found content.
    Empty,
}

/// The decisions of a clipboard read that retries until the content looks
/// stable.
pub struct RetryReader {
    pub attempts: usize,
    pub attempt: usize,
    pub last: Option<usize>,
    pub held: bool,
}

impl RetryReader {
    pub open spec fn wf(&self) -> bool {
        self.attempt <= self.attempts
    }

    /// A reader that polls up to `attempts` times; `prior` is the clipboard's
    /// signature from before the copy, where it is known.
    pub fn new(attempts: usize, prior: Option<usize>) -> (r: RetryReader)
        ensures
            r.wf(),
            r.attempts == attempts,
            r.attempt == 0,
            r.last == prior,
            !r.held,
    {
        RetryReader { attempts, attempt: 0, last: prior, held: false }
    }

    /// Whether another poll is due.
    pub fn polling(&self) -> (r: bool)
        ensures
            r == (self.attempt < self.attempts),
    {
        self.attempt < self.attempts
    }

    /// Records one poll, whose reading has signature `reading` (`None`: the
    /// clipboard held nothing readable), and says what to do next.
    pub fn observe(&mut self, reading: Option<usize>) -> (r: ReadStep)
        requires
            old(self).wf(),
            old(self).attempt < old(self).attempts,
        ensures
            final(self).wf(),
            final(self).attempts == old(self).attempts,
            (r == ReadStep::Take) == (reading.is_some() && (old(self).last.is_none()
                || old(self).last != reading)),
            r == ReadStep::Take ==> *final(self) == *old(self),
            r != ReadStep::Take ==> {
                &&& final(self).attempt == old(self).attempt + 1
                &&& final(self).last == (if reading.is_some() { reading } else { old(self).last })
                &&& final(self).held == (old(self).held || reading.is_some())
            },
            r == ReadStep::Poll <==> (r != ReadStep::Take && final(self).attempt < final(self).attempts),
            r == ReadStep::TakeLast <==> (r != ReadStep::Take && final(self).attempt
                == final(self).attempts && final(self).held),
            r == ReadStep::Empty <==> (r != ReadStep::Take && final(self).attempt
                == final(self).attempts && !final(self).held),
    {
        if let Some(s) = reading {
            let changed = match self.last {
                None => true,
                Some(l) => l != s,
            };
            if changed {
                return ReadStep::Take;
            }
            self.last = Some(s);
            self.held = true;
        }
        self.attempt = self.attempt + 1;
        if self.attempt < self.attempts {
            ReadStep::Poll
        } else if self.held {
            ReadStep::TakeLast
        } else {
            ReadStep::Empty
        }
    }
}

/// Runs the retry policy over the signatures of a whole run of polls, one per
/// attempt, and returns the index of the reading handed back.
pub fn select_reading(sigs: &Vec<Option<usize>>, prior: Option<usize>) -> (r: Option<usize>)
    ensures
        match picked(sigs@, prior) {
            Some(i) => r == Some(i as usize),
            None => r.is_none(),
        },
{
    let mut reader = RetryReader::new(sigs.len(), prior);
    let mut held: Option<usize> = None;
    while reader.polling()
        invariant
            reader.wf(),
            reader.attempts == sigs.len(),
            reader.held == held.is_some(),
            held.is_some() ==> held.unwrap() < reader.attempt,
            pick_from(sigs@, reader.attempt as int, reader.last, match held {
                Some(h) => Some(h as int),
                None => None,
            }) == picked(sigs@, prior),
        decreases reader.attempts - reader.attempt,
    {
        let i = reader.attempt;
        let reading = sigs[i];
        let step = reader.observe(reading);
        if step == ReadStep::Take {
            return Some(i);
        }
        if reading.is_some() {
            held = Some(i);
        }
        if step == ReadStep::TakeLast {
            return held;
        }
        if step == ReadStep::Empty {
            return None;
        }
    }
    held
}

/// A run of polls hands back nothing exactly when no poll found readable
/// content.
pub proof fn lemma_nothing_picked_iff_all_empty(sigs: Seq<Option<usize>>, prior: Option<usize>)
    ensures
        picked(sigs, prior).is_none() <==> forall|k: int| 0 <= k < sigs.len() ==> sigs[k].is_none(),
{
    lemma_pick_from_none(sigs, 0, prior, None);
}

proof fn lemma_pick_from_none(sigs: Seq<Option<usize>>, i: int, last: Option<usize>, held: Option<int>)
    requires
        0 <= i,
    ensures
        pick_from(sigs, i, last, held).is_none() <==> (held.is_none() && forall|k: int|
            i <= k < sigs.len() ==> sigs[k].is_none()),
    decreases sigs.len() - i,
{
    if i < sigs.len() {
        lemma_pick_from_none(sigs, i + 1, if sigs[i].is_some() { sigs[i] } else { last },
            if sigs[i].is_some() { Some(i) } else { held });
    }
}

/// When every poll before the last shows the clipboard's signature from
/// before the copy, and the last poll finds content, the last reading is
/// handed back: whether it changed or is still the stale content, it is never
/// lost.
pub proof fn lemma_unchanged_run_returns_last(sigs: Seq<Option<usize>>, prior: Option<usize>)
    requires
        sigs.len() >= 1,
        prior.is_some(),
        forall|k: int| 0 <= k < sigs.len() - 1 ==> sigs[k] == prior,
        sigs[sigs.len() - 1].is_some(),
    ensures
        picked(sigs, prior) == Some(sigs.len() - 1),
{
    lemma_unchanged_from(sigs, 0, prior, None);
}

proof fn lemma_unchanged_from(sigs: Seq<Option<usize>>, i: int, prior: Option<usize>, held: Option<int>)
    requires
        0 <= i < sigs.len(),
        prior.is_some(),
        forall|k: int| 0 <= k < sigs.len() - 1 ==> sigs[k] == prior,
        sigs[sigs.len() - 1].is_some(),
    ensures
        pick_from(sigs, i, prior, held) == Some(sigs.len() - 1),
    decreases sigs.len() - i,
{
    if i < sigs.len() - 1 {
        lemma_unchanged_from(sigs, i + 1, prior, Some(i));
    } else {
        assert(pick_from(sigs, i + 1, sigs[i], Some(i)) == Some(i));
    }
}

} // verus!
