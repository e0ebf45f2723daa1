//! The streaming emitter: opens a JSON array before any record is known,
//! appends each record as it arrives, and closes the array at the end.
//!
//! The emitter never holds the result set: each call hands back the next
//! chunk of output text, and the caller writes it to the sink at once.
//! The concatenation of all chunks of a run is exactly
//! [`json_array_of`] applied to the records written, in arrival order.

use vstd::prelude::*;
use crate::json::json_of_record;
use crate::record::FileRecord;

verus! {

/// The comma-joined JSON objects of a record sequence.
pub open spec fn joined(recs: Seq<FileRecord>) -> Seq<char>
    decreases recs.len(),
{
    if recs.len() == 0 {
        Seq::<char>::empty()
    } else {
        joined(recs.drop_last()) + (if recs.len() == 1 {
            Seq::<char>::empty()
        } else {
            seq![',']
        }) + json_of_record(recs.last())
    }
}

/// The complete output of a run that emitted `recs`: a single JSON array
/// holding one object per record, in arrival order.
pub open spec fn json_array_of(recs: Seq<FileRecord>) -> Seq<char> {
    seq!['['] + joined(recs) + seq![']']
}

/// A run with no records at all still produces well-formed output: the
/// two-character empty array.
pub proof fn lemma_empty_run_is_empty_array()
    ensures
        json_array_of(Seq::<FileRecord>::empty()) == "[]"@,
{
    reveal_strlit("[]");
    assert(json_array_of(Seq::<FileRecord>::empty()) =~= "[]"@);
}

/// One streaming run's sink state: whether a separator is owed, and the
/// ghost list of records written so far.
pub struct Emitter {
    first: bool,
    records: Ghost<Seq<FileRecord>>,
}

impl Emitter {
    /// The records written to this emitter so far, in order.
    pub closed spec fn records(self) -> Seq<FileRecord> {
        self.records@
    }

    /// The separator flag tracks whether anything was written yet.
    pub closed spec fn wf(self) -> bool {
        self.first <==> self.records@.len() == 0
    }

    /// Opens a run: the emitter has seen no records, and the first chunk
    /// of output is the opening bracket.
    pub fn begin() -> (r: (Emitter, String))
        ensures
            r.0.wf(),
            r.0.records() == Seq::<FileRecord>::empty(),
            r.1@ == "["@,
    {
        let e = Emitter { first: true, records: Ghost(Seq::empty()) };
        let mut chunk = String::new();
        chunk.append("[");
        proof {
            assert(chunk@ =~= "["@);
        }
        (e, chunk)
    }

    /// Appends one record to the stream. The chunk is the record's JSON
    /// object, preceded by a comma exactly when a record came before it;
    /// the record joins the emitter's history.
    pub fn write(&mut self, rec: &FileRecord) -> (chunk: String)
        requires
            old(self).wf(),
            rec.wf(),
        ensures
            final(self).wf(),
            final(self).records() == old(self).records().push(*rec),
            chunk@ == (if old(self).records().len() == 0 {
                Seq::<char>::empty()
            } else {
                ","@
            }) + json_of_record(*rec),
    {
        let mut chunk = String::new();
        if !self.first {
            chunk.append(",");
        }
        let body = crate::json::record_json(rec);
        chunk.append(body.as_str());
        self.first = false;
        proof {
            self.records@ = self.records@.push(*rec);
            assert(chunk@ =~= (if old(self).records().len() == 0 {
                Seq::<char>::empty()
            } else {
                ","@
            }) + json_of_record(*rec));
        }
        chunk
    }

    /// Closes the run: the final chunk is the closing bracket.
    pub fn end(self) -> (chunk: String)
        ensures
            chunk@ == "]"@,
    {
        let mut chunk = String::new();
        chunk.append("]");
        proof {
            assert(chunk@ =~= "]"@);
        }
        chunk
    }
}

/// Writing one more record extends the joined body by exactly the chunk
/// [`Emitter::write`] hands back: a separator when anything came before,
/// then the record's object. The chunks of a whole run therefore
/// concatenate to [`json_array_of`] of its records.
pub proof fn lemma_joined_push(recs: Seq<FileRecord>, rec: FileRecord)
    ensures
        joined(recs.push(rec)) == joined(recs) + (if recs.len() == 0 {
            Seq::<char>::empty()
        } else {
            ","@
        }) + json_of_record(rec),
{
    reveal_strlit(",");
    let pushed = recs.push(rec);
    assert(pushed.drop_last() =~= recs);
    assert(pushed.last() == rec);
    assert(","@ =~= seq![',']);
    assert(joined(recs.push(rec)) =~= joined(recs) + (if recs.len() == 0 {
        Seq::<char>::empty()
    } else {
        ","@
    }) + json_of_record(rec));
}

/// Serializes a whole record list in one call: begins a run, writes every
/// record in order, ends it, and returns the concatenated output. The
/// result is always a syntactically well-formed JSON array, the empty
/// list giving `[]`.
pub fn emit_all(records: &Vec<FileRecord>) -> (out: String)
    requires
        forall|i: int| 0 <= i < records@.len() ==> (#[trigger] records@[i]).wf(),
    ensures
        out@ == json_array_of(records@),
{
    let (mut emitter, mut out) = Emitter::begin();
    proof {
        reveal_strlit("[");
        assert(records@.subrange(0, 0) =~= Seq::<FileRecord>::empty());
        assert(out@ =~= seq!['['] + joined(records@.subrange(0, 0)));
    }
    let mut i: usize = 0;
    while i < records.len()
        invariant
            i <= records@.len(),
            emitter.wf(),
            emitter.records() == records@.subrange(0, i as int),
            out@ == seq!['['] + joined(records@.subrange(0, i as int)),
            forall|j: int| 0 <= j < records@.len() ==> (#[trigger] records@[j]).wf(),
        decreases records@.len() - i,
    {
        let chunk = emitter.write(&records[i]);
        out.append(chunk.as_str());
        proof {
            let pre = records@.subrange(0, i as int);
            let post = records@.subrange(0, i + 1 as int);
            lemma_joined_push(pre, records@[i as int]);
            assert(post =~= pre.push(records@[i as int]));
            assert(out@ =~= seq!['['] + joined(post));
        }
        i = i + 1;
    }
    let close = emitter.end();
    out.append(close.as_str());
    proof {
        reveal_strlit("]");
        assert(records@.subrange(0, records@.len() as int) =~= records@);
        assert("]"@ =~= seq![']']);
        assert(out@ =~= json_array_of(records@));
    }
    out
}

} // verus!
