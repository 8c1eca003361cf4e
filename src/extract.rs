use vstd::prelude::*;

use crate::encoding::{decoded_text, FilenameEncoding};
use crate::entry::{plan_entry, plan_outcome, EntryHeader, EntryPlan};
use crate::error::Error;

verus! {

/// The two container formats a run can read.
#[derive(Clone, Copy, Debug, PartialEq, Eq, Structural)]
pub enum ArchiveFormat {
    Zip,
    Rar,
}

pub open spec fn rar_extension() -> Seq<char> {
    seq!['r', 'a', 'r']
}

impl ArchiveFormat {
    /// The format an archive is read as, by its file extension: `rar`
    /// selects RAR, anything else (or none) selects ZIP.
    pub fn for_extension(extension: Option<&str>) -> (r: ArchiveFormat)
        ensures
            (r == ArchiveFormat::Rar) == (extension matches Some(e) && e@ == rar_extension()),
    {
        match extension {
            Some(e) => {
                if e.unicode_len() == 3 && e.get_char(0) == 'r' && e.get_char(1) == 'a'
                    && e.get_char(2) == 'r' {
                    assert(e@ =~= rar_extension());
                    ArchiveFormat::Rar
                } else {
                    ArchiveFormat::Zip
                }
            },
            None => ArchiveFormat::Zip,
        }
    }
}

/// The part of a run that its summary reports: how many entries were
/// accepted, and whether an error has stopped it.
pub struct RunState {
    pub written: nat,
    pub halted: bool,
}

/// What a reader handed over for one entry: its stored name and directory
/// flag, or `None` where reading it failed.
pub open spec fn read_model(read: Result<EntryHeader, Error>) -> Option<(Seq<u8>, bool)> {
    match read {
        Ok(h) => Some((h.raw_name@, h.dir_flag)),
        Err(_) => None,
    }
}

/// One entry's effect on a run: a halted run stays as it is; otherwise a
/// plannable entry is counted and anything else halts the run.
pub open spec fn accept_step(s: RunState, label: Seq<u8>, read: Option<(Seq<u8>, bool)>) -> RunState {
    if s.halted {
        s
    } else {
        match read {
            Some((raw, flag)) => if plan_outcome(label, raw, flag) is Some {
                RunState { written: s.written + 1, halted: false }
            } else {
                RunState { written: s.written, halted: true }
            },
            None => RunState { written: s.written, halted: true },
        }
    }
}

/// The state of a run after the entries `reads`, taken in archive order.
pub open spec fn run_state(label: Seq<u8>, reads: Seq<Option<(Seq<u8>, bool)>>) -> RunState
    decreases reads.len(),
{
    if reads.len() == 0 {
        RunState { written: 0, halted: false }
    } else {
        accept_step(run_state(label, reads.drop_last()), label, reads.last())
    }
}

/// Number of decimal digits of `n`.
pub open spec fn decimal_digits(n: nat) -> nat
    decreases n,
{
    if n < 10 {
        1
    } else {
        1 + decimal_digits(n / 10)
    }
}

/// Width that progress lines give an entry's index: the digits of the
/// entry count, plus two.
pub fn index_width(total: usize) -> (r: usize)
    ensures
        r == decimal_digits(total as nat) + 2,
{
    proof {
        reveal_with_fuel(power_of_ten, 21);
        lemma_digits_at_most(total as nat, 20);
    }
    let mut n: usize = total;
    let mut digits: usize = 1;
    while n >= 10
        invariant
            digits + decimal_digits(n as nat) == decimal_digits(total as nat) + 1,
            decimal_digits(total as nat) <= 20,
        decreases n,
    {
        n = n / 10;
        digits = digits + 1;
    }
    digits + 2
}

pub open spec fn power_of_ten(k: nat) -> nat
    decreases k,
{
    if k == 0 {
        1
    } else {
        10 * power_of_ten((k - 1) as nat)
    }
}

proof fn lemma_digits_at_most(n: nat, k: nat)
    requires
        1 <= k,
        n < power_of_ten(k),
    ensures
        decimal_digits(n) <= k,
    decreases k,
{
    if n >= 10 {
        let q = power_of_ten((k - 1) as nat);
        assert(n / 10 < q) by (nonlinear_arith)
            requires
                n < 10 * q,
        ;
        if k == 1 {
            assert(power_of_ten(1) == 10 * power_of_ten(0));
        } else {
            lemma_digits_at_most(n / 10, (k - 1) as nat);
        }
    }
}

/// Drives one run: accepts the entries that a reader hands over, in archive
/// order, and stops for good at the first error.
pub struct Extractor {
    encoding: FilenameEncoding,
    written: u64,
    halted: bool,
}

impl Extractor {
    pub closed spec fn view(&self) -> RunState {
        RunState { written: self.written as nat, halted: self.halted }
    }

    /// The label of the encoding that entry names are read under.
    pub closed spec fn label(&self) -> Seq<u8> {
        self.encoding.label_view()
    }

    pub fn new(encoding: FilenameEncoding) -> (r: Extractor)
        ensures
            r@ == (RunState { written: 0, halted: false }),
            r.label() == encoding.label_view(),
    {
        Extractor { encoding, written: 0, halted: false }
    }

    /// Accepts the next entry: a failed read is passed on unchanged, a name
    /// that cannot be planned is refused, and either halts the run.
    pub fn accept(&mut self, read: Result<EntryHeader, Error>) -> (r: Result<EntryPlan, Error>)
        requires
            !old(self)@.halted,
            old(self)@.written < u64::MAX,
        ensures
            final(self).label() == old(self).label(),
            final(self)@ == accept_step(old(self)@, old(self).label(), read_model(read)),
            match read {
                Err(e) => r == Err::<EntryPlan, Error>(e),
                Ok(h) => match r {
                    Ok(p) => plan_outcome(old(self).label(), h.raw_name@, h.dir_flag)
                        == Some((p.path@, p.kind)),
                    Err(e) => plan_outcome(old(self).label(), h.raw_name@, h.dir_flag) is None
                        && (if decoded_text(old(self).label(), h.raw_name@) is None {
                            e is EncodingError
                        } else {
                            e is UnsafePath
                        }),
                },
            },
    {
        match read {
            Err(e) => {
                self.halted = true;
                Err(e)
            },
            Ok(h) => match plan_entry(&self.encoding, &h) {
                Ok(p) => {
                    self.written = self.written + 1;
                    Ok(p)
                },
                Err(e) => {
                    self.halted = true;
                    Err(e)
                },
            },
        }
    }

    /// The count for the summary line; a halted run has none.
    pub fn written(&self) -> (r: Option<u64>)
        ensures
            match r {
                Some(n) => !self@.halted && n as nat == self@.written,
                None => self@.halted,
            },
    {
        if self.halted {
            None
        } else {
            Some(self.written)
        }
    }
}

/// A run in which every entry is read and planned without error accepts
/// exactly as many entries as the archive holds, and is not halted.
pub proof fn lemma_clean_run_counts_every_entry(label: Seq<u8>, reads: Seq<Option<(Seq<u8>, bool)>>)
    requires
        forall|i: int| 0 <= i < reads.len() ==> (#[trigger] reads[i] matches Some((raw, flag))
            && plan_outcome(label, raw, flag) is Some),
    ensures
        run_state(label, reads) == (RunState { written: reads.len(), halted: false }),
    decreases reads.len(),
{
    if reads.len() > 0 {
        let prefix = reads.drop_last();
        assert forall|i: int| 0 <= i < prefix.len() implies (#[trigger] prefix[i] matches Some((raw, flag))
            && plan_outcome(label, raw, flag) is Some) by {
            assert(prefix[i] == reads[i]);
        }
        lemma_clean_run_counts_every_entry(label, prefix);
        assert(reads[reads.len() - 1] == reads.last());
    }
}

/// Once an entry fails to be read (a wrong password, a corrupt header), the
/// run is halted, whatever follows it.
pub proof fn lemma_failed_read_halts_run(label: Seq<u8>, reads: Seq<Option<(Seq<u8>, bool)>>, i: int)
    requires
        0 <= i < reads.len(),
        reads[i] is None,
    ensures
        run_state(label, reads).halted,
    decreases reads.len(),
{
    let prefix = reads.drop_last();
    if i < reads.len() - 1 {
        assert(prefix[i] == reads[i]);
        lemma_failed_read_halts_run(label, prefix, i);
    } else {
        assert(reads.last() == reads[i]);
    }
}

} // verus!
