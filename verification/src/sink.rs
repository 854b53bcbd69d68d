//! Per-kind sample sinks: the capped, append-only log of one kind.
//!
//! A sink owns the entry count and cap of one log. Appending below the cap
//! yields the row to write and increments the count; at or above the cap the
//! sample is silently dropped. A log found on disk at startup is resumed:
//! its entry count is the number of lines already present minus the header
//! line. The file handle itself stays with the caller; the sink decides and
//! formats, the caller writes.

use vstd::prelude::*;
use vstd::std_specs::iter::IteratorSpec;

use crate::isa::Instruction;
use crate::numfmt::spec_decimal;
use crate::policy::keep_props;
use crate::numfmt::spec_sci;
use crate::numfmt::digit_char;
use crate::numfmt::spec_mantissa_chars;
use crate::numfmt::spec_exp_chars;
use crate::numfmt::sci_mantissa;
use crate::numfmt::sci_exponent;
use crate::rowfmt::format_row;
use crate::rowfmt::spec_header;
use crate::rowfmt::spec_props_body;
use crate::rowfmt::spec_row;

verus! {

broadcast use vstd::string::axiom_spec_iter, vstd::string::next_postcondition;

/// The cap on samples persisted per kind.
pub const TARGET_ENTRY_COUNT: usize = 10000;

/// The in-memory state of one kind's log: how many rows it holds and how
/// many it will accept.
#[derive(Clone, Copy, PartialEq, Eq, Structural, Debug)]
pub struct Sink {
    pub entry_count: usize,
    pub cap: usize,
}

impl Sink {
    /// A sink over a freshly created log, which holds no rows yet.
    pub fn created(cap: usize) -> (s: Sink)
        ensures
            s == (Sink { entry_count: 0, cap }),
    {
        Sink { entry_count: 0, cap }
    }

    /// A sink over a log found on disk, whose rows were counted again.
    pub fn resumed(cap: usize, recovered_count: usize) -> (s: Sink)
        ensures
            s == (Sink { entry_count: recovered_count, cap }),
    {
        Sink { entry_count: recovered_count, cap }
    }

    /// Accepts one sample: below the cap, the row to append to the log;
    /// at or above the cap, nothing, and the sink is left unchanged.
    pub fn append(&mut self, properties: &Vec<String>, elapsed_nanos: u64) -> (r: Option<
        String,
    >)
        ensures
            old(self).entry_count < old(self).cap ==> {
                &&& (r matches Some(row) && row@ == spec_row(
                    properties@.map_values(|p: String| p@),
                    elapsed_nanos as nat,
                ))
                &&& *final(self) == (Sink {
                    entry_count: (old(self).entry_count + 1) as usize,
                    cap: old(self).cap,
                })
            },
            old(self).entry_count >= old(self).cap ==> r is None && *final(self) == *old(
                self,
            ),
    {
        if self.entry_count < self.cap {
            let row = format_row(properties, elapsed_nanos);
            self.entry_count = self.entry_count + 1;
            Some(row)
        } else {
            None
        }
    }
}

/// One sample as the sink sees it: the properties and the elapsed time of
/// one execution.
pub struct Sample {
    pub properties: Seq<Seq<char>>,
    pub elapsed_nanos: nat,
}

/// The rows a sink writes for `samples` arriving in order, starting from
/// `entry_count` already-present rows under cap `cap`: one row per sample
/// while the count is below the cap, nothing afterwards.
pub open spec fn rows_emitted(samples: Seq<Sample>, entry_count: nat, cap: nat) -> Seq<
    Seq<char>,
>
    decreases samples.len(),
{
    if samples.len() == 0 {
        Seq::empty()
    } else if entry_count < cap {
        seq![spec_row(samples[0].properties, samples[0].elapsed_nanos)] + rows_emitted(
            samples.drop_first(),
            entry_count + 1,
            cap,
        )
    } else {
        rows_emitted(samples.drop_first(), entry_count, cap)
    }
}

/// Starting at or above the cap, nothing is ever written.
pub proof fn lemma_rows_emitted_at_cap(samples: Seq<Sample>, entry_count: nat, cap: nat)
    requires
        entry_count >= cap,
    ensures
        rows_emitted(samples, entry_count, cap) == Seq::<Seq<char>>::empty(),
    decreases samples.len(),
{
    if samples.len() > 0 {
        lemma_rows_emitted_at_cap(samples.drop_first(), entry_count, cap);
    }
}

/// While the cap is not reached, every sample becomes exactly one row.
pub proof fn lemma_rows_emitted_len(samples: Seq<Sample>, entry_count: nat, cap: nat)
    requires
        entry_count + samples.len() <= cap,
    ensures
        rows_emitted(samples, entry_count, cap).len() == samples.len(),
    decreases samples.len(),
{
    if samples.len() > 0 {
        lemma_rows_emitted_len(samples.drop_first(), entry_count + 1, cap);
    }
}

/// Resume idempotence: the rows written for samples arriving in two runs,
/// where the second run starts from the count the first one reached, are
/// exactly the rows of one uninterrupted run. Recovering a log's entry
/// count and appending to it therefore yields the same log as never having
/// restarted.
pub proof fn lemma_resume_idempotent(
    first: Seq<Sample>,
    second: Seq<Sample>,
    entry_count: nat,
    cap: nat,
)
    ensures
        rows_emitted(first + second, entry_count, cap) == rows_emitted(
            first,
            entry_count,
            cap,
        ) + rows_emitted(
            second,
            entry_count + rows_emitted(first, entry_count, cap).len(),
            cap,
        ),
    decreases first.len(),
{
    if first.len() == 0 {
        assert(first + second =~= second);
        assert(rows_emitted(first, entry_count, cap) =~= Seq::<Seq<char>>::empty());
        assert(rows_emitted(first + second, entry_count, cap) =~= rows_emitted(
            first,
            entry_count,
            cap,
        ) + rows_emitted(second, entry_count, cap));
    } else {
        assert((first + second).drop_first() =~= first.drop_first() + second);
        if entry_count < cap {
            lemma_resume_idempotent(first.drop_first(), second, entry_count + 1, cap);
            assert(rows_emitted(first + second, entry_count, cap) =~= rows_emitted(
                first,
                entry_count,
                cap,
            ) + rows_emitted(
                second,
                entry_count + rows_emitted(first, entry_count, cap).len(),
                cap,
            ));
        } else {
            lemma_resume_idempotent(first.drop_first(), second, entry_count, cap);
            lemma_rows_emitted_at_cap(first, entry_count, cap);
            lemma_rows_emitted_at_cap(first.drop_first(), entry_count, cap);
            assert(rows_emitted(first + second, entry_count, cap) =~= rows_emitted(
                first,
                entry_count,
                cap,
            ) + rows_emitted(
                second,
                entry_count + rows_emitted(first, entry_count, cap).len(),
                cap,
            ));
        }
    }
}

/// How many newline characters `s` holds.
pub open spec fn newline_count(s: Seq<char>) -> nat
    decreases s.len(),
{
    if s.len() == 0 {
        0
    } else {
        newline_count(s.drop_last()) + (if s.last() == '\n' {
            1nat
        } else {
            0nat
        })
    }
}

/// How many lines `s` holds, counting as the resume logic does: a trailing
/// newline closes the last line rather than opening an empty one, and empty
/// text has no lines.
pub open spec fn spec_line_count(s: Seq<char>) -> nat {
    if s.len() == 0 {
        0
    } else if s.last() == '\n' {
        newline_count(s)
    } else {
        newline_count(s) + 1
    }
}

/// One full log line: nonempty, newline-terminated, no interior newline.
pub open spec fn terminated_line(s: Seq<char>) -> bool {
    &&& s.len() > 0
    &&& s.last() == '\n'
    &&& newline_count(s) == 1
}

pub proof fn lemma_newline_count_add(a: Seq<char>, b: Seq<char>)
    ensures
        newline_count(a + b) == newline_count(a) + newline_count(b),
    decreases b.len(),
{
    if b.len() == 0 {
        assert(a + b =~= a);
    } else {
        assert((a + b).drop_last() =~= a + b.drop_last());
        lemma_newline_count_add(a, b.drop_last());
        assert(newline_count(a + b) == newline_count((a + b).drop_last()) + (
        if (a + b).last() == '\n' {
            1nat
        } else {
            0nat
        }));
    }
}

pub proof fn lemma_newline_count_le(s: Seq<char>)
    ensures
        newline_count(s) <= s.len(),
    decreases s.len(),
{
    if s.len() > 0 {
        lemma_newline_count_le(s.drop_last());
    }
}

/// Text without a newline character has newline count zero.
pub proof fn lemma_no_newline(s: Seq<char>)
    requires
        forall|i: int| 0 <= i < s.len() ==> s[i] != '\n',
    ensures
        newline_count(s) == 0,
    decreases s.len(),
{
    if s.len() > 0 {
        lemma_no_newline(s.drop_last());
    }
}

/// Text whose one newline is its last character is one full line.
pub proof fn lemma_single_trailing_newline(s: Seq<char>)
    requires
        s.len() > 0,
        s.last() == '\n',
        forall|i: int| 0 <= i < s.len() - 1 ==> s[i] != '\n',
    ensures
        terminated_line(s),
{
    lemma_no_newline(s.drop_last());
}

/// The whole text of a log: the header followed by its rows.
pub open spec fn spec_log(rows: Seq<Seq<char>>) -> Seq<char>
    decreases rows.len(),
{
    if rows.len() == 0 {
        spec_header()
    } else {
        spec_log(rows.drop_last()) + rows.last()
    }
}

/// The header is one full line.
pub proof fn lemma_header_terminated()
    ensures
        terminated_line(spec_header()),
{
    reveal_strlit("args,n_exec,total_elapsed_time\n");
    lemma_single_trailing_newline(spec_header());
}

/// A log of full lines has one line per row, plus the header: recounting
/// its lines and discounting the header recovers exactly the number of
/// samples it holds.
pub proof fn lemma_log_line_count(rows: Seq<Seq<char>>)
    requires
        forall|i: int| 0 <= i < rows.len() ==> terminated_line(#[trigger] rows[i]),
    ensures
        spec_log(rows).len() > 0,
        spec_log(rows).last() == '\n',
        newline_count(spec_log(rows)) == 1 + rows.len(),
        spec_line_count(spec_log(rows)) == 1 + rows.len(),
    decreases rows.len(),
{
    lemma_header_terminated();
    if rows.len() == 0 {
    } else {
        lemma_log_line_count(rows.drop_last());
        lemma_newline_count_add(spec_log(rows.drop_last()), rows.last());
        assert(rows.last().len() > 0);
        assert((spec_log(rows.drop_last()) + rows.last()).last() == rows.last().last());
    }
}

/// A decimal rendering never holds a newline.
pub proof fn lemma_decimal_no_newline(n: nat)
    ensures
        newline_count(spec_decimal(n)) == 0,
    decreases n,
{
    assert(forall|d: nat| digit_char(d) != '\n');
    if n < 10 {
        lemma_no_newline(spec_decimal(n));
    } else {
        lemma_decimal_no_newline(n / 10);
        assert(spec_decimal(n).drop_last() =~= spec_decimal(n / 10));
        assert(spec_decimal(n).last() == digit_char(n % 10));
    }
}

/// A scientific-notation rendering never holds a newline.
pub proof fn lemma_sci_no_newline(nanos: nat)
    ensures
        newline_count(spec_sci(nanos)) == 0,
{
    assert(forall|d: nat| digit_char(d) != '\n');
    if nanos == 0 {
        reveal_strlit("0.000000e0");
        lemma_no_newline(spec_sci(nanos));
    } else {
        let m = spec_mantissa_chars(sci_mantissa(nanos));
        let e = sci_exponent(nanos);
        lemma_no_newline(m);
        lemma_no_newline(seq!['e']);
        if e < 0 {
            lemma_decimal_no_newline((-e) as nat);
            lemma_newline_count_add(seq!['-'], spec_decimal((-e) as nat));
            lemma_no_newline(seq!['-']);
        } else {
            lemma_decimal_no_newline(e as nat);
        }
        lemma_newline_count_add(m, seq!['e']);
        lemma_newline_count_add(m + seq!['e'], spec_exp_chars(e));
    }
}

/// A property tuple of newline-free properties holds no newline.
pub proof fn lemma_props_body_no_newline(props: Seq<Seq<char>>)
    requires
        forall|i: int| 0 <= i < props.len() ==> newline_count(#[trigger] props[i]) == 0,
    ensures
        newline_count(spec_props_body(props)) == 0,
    decreases props.len(),
{
    if props.len() == 0 {
        lemma_no_newline(spec_props_body(props));
    } else {
        lemma_props_body_no_newline(props.drop_first());
        lemma_no_newline(seq![',']);
        lemma_newline_count_add(props[0], seq![',']);
        lemma_newline_count_add(props[0] + seq![','], spec_props_body(props.drop_first()));
    }
}

/// A row over newline-free properties is one full line: its only newline
/// is the one that ends it.
pub proof fn lemma_row_terminated(props: Seq<Seq<char>>, nanos: nat)
    requires
        forall|i: int| 0 <= i < props.len() ==> newline_count(#[trigger] props[i]) == 0,
    ensures
        terminated_line(spec_row(props, nanos)),
{
    reveal_strlit("\"(");
    reveal_strlit(")\",1,");
    reveal_strlit("\n");
    let a = "\"("@;
    let b = spec_props_body(props);
    let c = ")\",1,"@;
    let d = spec_sci(nanos);
    let e = "\n"@;
    lemma_no_newline(a);
    lemma_props_body_no_newline(props);
    lemma_no_newline(c);
    lemma_sci_no_newline(nanos);
    assert(newline_count(e) == 1) by {
        reveal_strlit("\n");
        assert(e.drop_last() =~= Seq::<char>::empty());
        assert(newline_count(Seq::<char>::empty()) == 0);
        assert(e.last() == '\n');
    }
    lemma_newline_count_add(a, b);
    lemma_newline_count_add(a + b, c);
    lemma_newline_count_add(a + b + c, d);
    lemma_newline_count_add(a + b + c + d, e);
    assert(spec_row(props, nanos).last() == '\n');
}

/// A sample whose properties hold no newline character; every sample the
/// classification policy produces is of this shape.
pub open spec fn sample_wf(s: Sample) -> bool {
    forall|j: int| 0 <= j < s.properties.len() ==> newline_count(
        #[trigger] s.properties[j],
    ) == 0
}

/// The classification policy only ever emits decimal digits as properties,
/// so every sample it produces is well formed for the log.
pub proof fn lemma_policy_sample_wf(i: Instruction, elapsed_nanos: nat)
    ensures
        sample_wf(Sample { properties: keep_props(i), elapsed_nanos }),
{
    match i {
        Instruction::Br(t) => lemma_decimal_no_newline(t.drop_keep.keep as nat),
        Instruction::BrIfEqz(t) => lemma_decimal_no_newline(t.drop_keep.keep as nat),
        Instruction::BrIfNez(t) => lemma_decimal_no_newline(t.drop_keep.keep as nat),
        Instruction::Return(dk) => lemma_decimal_no_newline(dk.keep as nat),
        _ => {},
    }
}

/// Every row emitted for well-formed samples is one full line.
pub proof fn lemma_rows_emitted_terminated(samples: Seq<Sample>, entry_count: nat, cap: nat)
    requires
        forall|i: int| 0 <= i < samples.len() ==> sample_wf(#[trigger] samples[i]),
    ensures
        forall|i: int|
            0 <= i < rows_emitted(samples, entry_count, cap).len() ==> terminated_line(
                #[trigger] rows_emitted(samples, entry_count, cap)[i],
            ),
    decreases samples.len(),
{
    if samples.len() == 0 {
    } else {
        assert(forall|i: int|
            0 <= i < samples.drop_first().len() ==> sample_wf(
                #[trigger] samples.drop_first()[i],
            ));
        if entry_count < cap {
            lemma_row_terminated(samples[0].properties, samples[0].elapsed_nanos);
            lemma_rows_emitted_terminated(samples.drop_first(), entry_count + 1, cap);
        } else {
            lemma_rows_emitted_terminated(samples.drop_first(), entry_count, cap);
        }
        assert forall|i: int|
            0 <= i < rows_emitted(samples, entry_count, cap).len() implies terminated_line(
            #[trigger] rows_emitted(samples, entry_count, cap)[i],
        ) by {
            let r = rows_emitted(samples, entry_count, cap);
            if entry_count < cap {
                if i > 0 {
                    assert(r[i] == rows_emitted(
                        samples.drop_first(),
                        entry_count + 1,
                        cap,
                    )[i - 1]);
                }
            } else {
                assert(r[i] == rows_emitted(samples.drop_first(), entry_count, cap)[i]);
            }
        }
    }
}

/// Resume idempotence, end to end: when a run writes some samples and a
/// later run writes more, with room under the cap for all of them, the
/// first run's log recounts to exactly the number of samples it holds — so
/// the second run resumes from that count — and the resumed log is the log
/// of one uninterrupted run, with the header plus one line per sample.
pub proof fn lemma_restart_matches_single_run(
    first: Seq<Sample>,
    second: Seq<Sample>,
    cap: nat,
)
    requires
        first.len() + second.len() <= cap,
        forall|i: int| 0 <= i < first.len() ==> sample_wf(#[trigger] first[i]),
        forall|i: int| 0 <= i < second.len() ==> sample_wf(#[trigger] second[i]),
    ensures
        rows_emitted(first + second, 0, cap) == rows_emitted(first, 0, cap) + rows_emitted(
            second,
            first.len(),
            cap,
        ),
        spec_line_count(spec_log(rows_emitted(first, 0, cap))) - 1 == first.len(),
        spec_line_count(spec_log(rows_emitted(first + second, 0, cap))) == 1 + first.len()
            + second.len(),
{
    lemma_rows_emitted_len(first, 0, cap);
    lemma_resume_idempotent(first, second, 0, cap);
    lemma_rows_emitted_terminated(first, 0, cap);
    lemma_log_line_count(rows_emitted(first, 0, cap));
    assert(forall|i: int|
        0 <= i < (first + second).len() ==> sample_wf(#[trigger] (first + second)[i]));
    lemma_rows_emitted_terminated(first + second, 0, cap);
    lemma_rows_emitted_len(first + second, 0, cap);
    lemma_log_line_count(rows_emitted(first + second, 0, cap));
}

/// Counts the lines of `contents` as `spec_line_count` does.
pub fn count_lines(contents: &str) -> (r: usize)
    requires
        contents@.len() <= usize::MAX,
    ensures
        r == spec_line_count(contents@),
{
    let ghost total = contents@;
    let mut it = contents.chars();
    let mut newlines: usize = 0;
    let mut seen_any = false;
    let mut last_newline = false;
    let ghost mut i: int = 0;
    proof {
        assert(it.remaining() =~= total.skip(0));
        assert(total.take(0) =~= Seq::<char>::empty());
    }
    loop
        invariant
            0 <= i <= total.len(),
            total.len() <= usize::MAX,
            it.remaining() == total.skip(i),
            newlines == newline_count(total.take(i)),
            newlines <= i,
            seen_any == (i > 0),
            last_newline == (i > 0 && total[i - 1] == '\n'),
        ensures
            i == total.len(),
            newlines == newline_count(total.take(i)),
            newlines <= i,
            seen_any == (i > 0),
            last_newline == (i > 0 && total[i - 1] == '\n'),
        decreases total.len() - i,
    {
        match it.next() {
            Some(c) => {
                proof {
                    assert(total.skip(i).len() > 0);
                    assert(c == total.skip(i)[0]);
                    assert(c == total[i]);
                    assert(total.take(i + 1).drop_last() =~= total.take(i));
                    assert(total.take(i + 1).last() == total[i]);
                    assert(it.remaining() =~= total.skip(i + 1));
                }
                if c == '\n' {
                    newlines = newlines + 1;
                    last_newline = true;
                } else {
                    last_newline = false;
                }
                seen_any = true;
                proof {
                    i = i + 1;
                }
            },
            None => {
                proof {
                    assert(total.skip(i).len() == 0);
                    assert(i == total.len());
                }
                break ;
            },
        }
    }
    proof {
        assert(total.take(total.len() as int) =~= total);
    }
    if !seen_any {
        0
    } else if last_newline {
        newlines
    } else {
        proof {
            assert(total.len() > 0);
            assert(total.last() != '\n');
            assert(total.drop_last() =~= total.take(total.len() - 1));
            lemma_newline_count_le(total.drop_last());
        }
        newlines + 1
    }
}

/// The file name a kind's log lives under inside the output directory.
pub fn csv_file_name(kind: &str) -> (r: String)
    ensures
        r@ == kind@ + ".csv"@,
{
    let mut s = kind.to_owned();
    s.append(".csv");
    s
}

/// The entry count recovered from a log already on disk: its line count
/// minus the header line.
pub fn recovered_entry_count(contents: &str) -> (r: usize)
    requires
        contents@.len() > 0,
        contents@.len() <= usize::MAX,
    ensures
        r == spec_line_count(contents@) - 1,
        spec_line_count(contents@) >= 1,
{
    let lines = count_lines(contents);
    proof {
        if contents@.last() == '\n' {
            assert(newline_count(contents@) >= 1);
        }
    }
    lines - 1
}

} // verus!
