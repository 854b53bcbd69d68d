//! The registry: the process-wide map from kind to sink.
//!
//! The registry is empty at start, gains a sink the first time a kind is
//! seen, and never evicts one. `record_sample` looks the kind up and lets
//! its sink accept or drop the sample; when the kind has no sink yet it
//! asks the caller to open or create the kind's log — only the caller can
//! do I/O — and install a sink over it. The caller is expected to hold one
//! lock around the whole look-up/append path, so that no two threads race
//! the cap check or create two sinks for one kind.

use vstd::prelude::*;

use crate::rowfmt::spec_row;
use crate::sink::Sink;

verus! {

/// One kind's slot: its key and its sink.
pub struct SinkEntry {
    pub kind: String,
    pub sink: Sink,
}

/// What became of one offered sample.
pub enum RecordOutcome {
    /// The kind has no sink yet: open or create its log, install a sink,
    /// and offer the sample again.
    NeedsSink,
    /// The sample was accepted; append this row to the kind's log.
    Appended(String),
    /// The kind's log is at its cap; the sample was dropped.
    AtCapacity,
}

/// The sink of the first entry bearing `kind`, if any.
pub open spec fn lookup(entries: Seq<SinkEntry>, kind: Seq<char>) -> Option<Sink>
    decreases entries.len(),
{
    if entries.len() == 0 {
        None
    } else if entries[0].kind@ == kind {
        Some(entries[0].sink)
    } else {
        lookup(entries.drop_first(), kind)
    }
}

proof fn lemma_lookup_none(entries: Seq<SinkEntry>, kind: Seq<char>)
    requires
        forall|j: int| 0 <= j < entries.len() ==> (#[trigger] entries[j].kind)@ != kind,
    ensures
        lookup(entries, kind) is None,
    decreases entries.len(),
{
    if entries.len() > 0 {
        lemma_lookup_none(entries.drop_first(), kind);
    }
}

proof fn lemma_lookup_first_match(entries: Seq<SinkEntry>, kind: Seq<char>, i: int)
    requires
        0 <= i < entries.len(),
        entries[i].kind@ == kind,
        forall|j: int| 0 <= j < i ==> (#[trigger] entries[j].kind)@ != kind,
    ensures
        lookup(entries, kind) == Some(entries[i].sink),
    decreases i,
{
    if i > 0 {
        lemma_lookup_first_match(entries.drop_first(), kind, i - 1);
    }
}

proof fn lemma_lookup_update_other(
    entries: Seq<SinkEntry>,
    i: int,
    e: SinkEntry,
    kind: Seq<char>,
)
    requires
        0 <= i < entries.len(),
        e.kind@ == entries[i].kind@,
        kind != entries[i].kind@,
    ensures
        lookup(entries.update(i, e), kind) == lookup(entries, kind),
    decreases i,
{
    if i == 0 {
        assert(entries.update(i, e).drop_first() =~= entries.drop_first());
    } else {
        assert(entries.update(i, e).drop_first() =~= entries.drop_first().update(
            i - 1,
            e,
        ));
        lemma_lookup_update_other(entries.drop_first(), i - 1, e, kind);
    }
}

proof fn lemma_lookup_push(entries: Seq<SinkEntry>, e: SinkEntry, kind: Seq<char>)
    ensures
        lookup(entries.push(e), kind) == (if lookup(entries, kind) is Some {
            lookup(entries, kind)
        } else if e.kind@ == kind {
            Some(e.sink)
        } else {
            None
        }),
    decreases entries.len(),
{
    if entries.len() == 0 {
        assert(entries.push(e).drop_first() =~= Seq::<SinkEntry>::empty());
        assert(lookup(Seq::<SinkEntry>::empty(), kind) is None);
        assert(entries.push(e)[0] == e);
    } else {
        assert(entries.push(e).drop_first() =~= entries.drop_first().push(e));
        assert(entries.push(e)[0] == entries[0]);
        lemma_lookup_push(entries.drop_first(), e, kind);
    }
}

/// The process-wide map from kind to sink.
pub struct Registry {
    pub entries: Vec<SinkEntry>,
}

impl Registry {
    /// The sink currently registered for `kind`, if any.
    pub open spec fn sink_for(&self, kind: Seq<char>) -> Option<Sink> {
        lookup(self.entries@, kind)
    }

    /// An empty registry: no kind has a sink yet.
    pub fn new() -> (r: Registry)
        ensures
            forall|kind: Seq<char>| r.sink_for(kind) is None,
    {
        let r = Registry { entries: Vec::new() };
        proof {
            assert forall|kind: Seq<char>| r.sink_for(kind) is None by {
                lemma_lookup_none(r.entries@, kind);
            }
        }
        r
    }

    /// Whether `kind` has a sink already.
    pub fn has_sink(&self, kind: &String) -> (r: bool)
        ensures
            r == (self.sink_for(kind@) is Some),
    {
        let mut i: usize = 0;
        let n = self.entries.len();
        while i < n
            invariant
                i <= n,
                n == self.entries.len(),
                forall|j: int| 0 <= j < i ==> (#[trigger] self.entries@[j].kind)@ != kind@,
            decreases n - i,
        {
            if self.entries[i].kind == *kind {
                proof {
                    lemma_lookup_first_match(self.entries@, kind@, i as int);
                }
                return true;
            }
            i = i + 1;
        }
        proof {
            lemma_lookup_none(self.entries@, kind@);
        }
        false
    }

    /// Registers a sink for a kind that has none yet; no other kind's sink
    /// changes.
    pub fn install_sink(&mut self, kind: String, sink: Sink)
        requires
            old(self).sink_for(kind@) is None,
        ensures
            final(self).sink_for(kind@) == Some(sink),
            forall|other: Seq<char>|
                other != kind@ ==> final(self).sink_for(other) == old(self).sink_for(
                    other,
                ),
    {
        let ghost old_entries = self.entries@;
        let ghost kind_view = kind@;
        let entry = SinkEntry { kind, sink };
        self.entries.push(entry);
        proof {
            assert forall|other: Seq<char>| #![auto]
                lookup(self.entries@, other) == (if other == kind_view {
                    Some(sink)
                } else {
                    lookup(old_entries, other)
                }) by {
                lemma_lookup_push(old_entries, entry, other);
            }
        }
    }

    /// Offers one sample for `kind`: asks for a sink when the kind has
    /// none, and otherwise lets the kind's sink accept the sample — one
    /// more entry and the row to append — or drop it at the cap. Nothing
    /// else in the registry changes.
    pub fn record_sample(
        &mut self,
        kind: &String,
        properties: &Vec<String>,
        elapsed_nanos: u64,
    ) -> (r: RecordOutcome)
        ensures
            old(self).sink_for(kind@) is None ==> r is NeedsSink && *final(self) == *old(
                self,
            ),
            old(self).sink_for(kind@) matches Some(s) ==> {
                &&& s.entry_count >= s.cap ==> (r is AtCapacity && *final(self) == *old(
                    self,
                ))
                &&& s.entry_count < s.cap ==> {
                    &&& (r matches RecordOutcome::Appended(row) && row@ == spec_row(
                        properties@.map_values(|p: String| p@),
                        elapsed_nanos as nat,
                    ))
                    &&& final(self).sink_for(kind@) == Some(Sink {
                        entry_count: (s.entry_count + 1) as usize,
                        cap: s.cap,
                    })
                    &&& forall|other: Seq<char>|
                        other != kind@ ==> final(self).sink_for(other) == old(
                            self,
                        ).sink_for(other)
                }
            },
    {
        let mut i: usize = 0;
        let n = self.entries.len();
        while i < n
            invariant
                i <= n,
                n == self.entries.len(),
                *self == *old(self),
                forall|j: int| 0 <= j < i ==> (#[trigger] self.entries@[j].kind)@ != kind@,
            decreases n - i,
        {
            if self.entries[i].kind == *kind {
                proof {
                    lemma_lookup_first_match(self.entries@, kind@, i as int);
                }
                let entry = &self.entries[i];
                let mut sink = Sink { entry_count: entry.sink.entry_count, cap: entry.sink.cap };
                let row = sink.append(properties, elapsed_nanos);
                match row {
                    None => {
                        return RecordOutcome::AtCapacity;
                    },
                    Some(row) => {
                        let kind_copy = self.entries[i].kind.clone();
                        let ghost updated = SinkEntry { kind: kind_copy, sink };
                        let ghost before = self.entries@;
                        self.entries.set(i, SinkEntry { kind: kind_copy, sink });
                        proof {
                            assert(self.entries@ =~= before.update(i as int, updated));
                            lemma_lookup_first_match(self.entries@, kind@, i as int);
                            assert forall|other: Seq<char>|
                                other != kind@ implies lookup(self.entries@, other)
                                == lookup(before, other) by {
                                lemma_lookup_update_other(
                                    before,
                                    i as int,
                                    updated,
                                    other,
                                );
                            }
                        }
                        return RecordOutcome::Appended(row);
                    },
                }
            }
            i = i + 1;
        }
        proof {
            lemma_lookup_none(self.entries@, kind@);
        }
        RecordOutcome::NeedsSink
    }
}

} // verus!
