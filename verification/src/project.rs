//! The projection: every element of the input array that carries an `"id"`
//! member becomes one minimal output item holding just that member; elements
//! without it are skipped. A sequential, order-preserving variant is verified
//! directly; a data-parallel variant is gathered by a worker pool and promises
//! the same items as a multiset.

use vstd::prelude::*;
use vstd::seq_lib::group_to_multiset_ensures;
use rayon::iter::IntoParallelRefIterator;
use rayon::iter::ParallelIterator;

verus! {

/// One element of the input array, reduced to what the projection reads of it:
/// its `"id"` member, if it has one.
pub struct Record {
    pub id: Option<serde_json::Value>,
}

/// One output item: a minimal object of shape `{"id": <value>}`, represented
/// by the value of its single member.
pub struct Projected {
    pub id: serde_json::Value,
}

/// The input document as the projection sees it: either a top-level array of
/// records, or anything else, which projects to nothing.
pub enum Document {
    Array(Vec<Record>),
    NotArray,
}

/// The projection of a record sequence: one `Projected` per record whose `id`
/// is present, in input order.
pub open spec fn projected_seq(rs: Seq<Record>) -> Seq<Projected>
    decreases rs.len(),
{
    if rs.len() == 0 {
        Seq::empty()
    } else {
        let init = projected_seq(rs.drop_last());
        if rs.last().id is Some {
            init.push(Projected { id: rs.last().id.unwrap() })
        } else {
            init
        }
    }
}

/// How many records of the sequence carry an `"id"` member.
pub open spec fn records_with_id(rs: Seq<Record>) -> nat
    decreases rs.len(),
{
    if rs.len() == 0 {
        0
    } else {
        records_with_id(rs.drop_last()) + if rs.last().id is Some {
            1nat
        } else {
            0nat
        }
    }
}

/// What a whole document projects to: the projection of its records if it is
/// an array, and nothing otherwise.
pub open spec fn document_projection(doc: Document) -> Seq<Projected> {
    match doc {
        Document::Array(rs) => projected_seq(rs@),
        Document::NotArray => Seq::empty(),
    }
}

/// The projection has exactly one item per record with an `"id"` member:
/// records without one are skipped, never replaced by a placeholder.
pub proof fn lemma_projected_count(rs: Seq<Record>)
    ensures
        projected_seq(rs).len() == records_with_id(rs),
    decreases rs.len(),
{
    if rs.len() > 0 {
        lemma_projected_count(rs.drop_last());
    }
}

/// Counting the output is order-insensitive: any gathering of the projection
/// that keeps its items as a multiset — however a worker pool reordered them —
/// has exactly one item per record with an `"id"` member.
pub proof fn lemma_count_order_insensitive(out: Seq<Projected>, rs: Seq<Record>)
    requires
        out.to_multiset() == projected_seq(rs).to_multiset(),
    ensures
        out.len() == records_with_id(rs),
{
    broadcast use group_to_multiset_ensures;

    out.to_multiset_ensures();
    projected_seq(rs).to_multiset_ensures();
    lemma_projected_count(rs);
}

/// Running the projection twice on the same records gives the same item count
/// both times, whichever traversal strategy each run uses.
pub proof fn lemma_repeated_runs_agree(out1: Seq<Projected>, out2: Seq<Projected>, rs: Seq<
    Record,
>)
    requires
        out1.to_multiset() == projected_seq(rs).to_multiset(),
        out2.to_multiset() == projected_seq(rs).to_multiset(),
    ensures
        out1.len() == out2.len(),
{
    lemma_count_order_insensitive(out1, rs);
    lemma_count_order_insensitive(out2, rs);
}

/// The projection of one record: its `"id"` member, if present, wrapped as an
/// output item; nothing otherwise.
pub fn project_record(r: &Record) -> (out: Option<Projected>)
    ensures
        r.id is Some ==> out == Some(Projected { id: r.id.unwrap() }),
        r.id is None ==> out is None,
{
    match &r.id {
        Some(v) => Some(Projected { id: v.clone() }),
        None => None,
    }
}

/// The sequential variant: visits the records in order and keeps the output in
/// input order.
pub fn project_sequential(records: &Vec<Record>) -> (out: Vec<Projected>)
    ensures
        out@ == projected_seq(records@),
{
    let mut out: Vec<Projected> = Vec::new();
    let mut i: usize = 0;
    while i < records.len()
        invariant
            i <= records.len(),
            out@ == projected_seq(records@.take(i as int)),
        decreases records.len() - i,
    {
        proof {
            assert(records@.take(i + 1).drop_last() =~= records@.take(i as int));
            assert(records@.take(i + 1).last() == records@[i as int]);
        }
        match project_record(&records[i]) {
            Some(p) => out.push(p),
            None => (),
        }
        i += 1;
    }
    proof {
        assert(records@.take(records.len() as int) =~= records@);
    }
    out
}

/// Relies on rayon's `par_iter`, `ParallelIterator::filter_map` and
/// `ParallelIterator::collect`: the pool applies `project_record` to each
/// record independently and gathers exactly the `Some` results, in an order of
/// its own choosing — so the output equals the projection as a multiset.
#[verifier::external_body]
fn project_parallel_pool(records: &Vec<Record>) -> (out: Vec<Projected>)
    ensures
        out@.to_multiset() == projected_seq(records@).to_multiset(),
{
    records.par_iter().filter_map(|r| project_record(r)).collect()
}

/// The data-parallel variant: the same items as the sequential one, gathered
/// by a worker pool in an unspecified order.
pub fn project_parallel(records: &Vec<Record>) -> (out: Vec<Projected>)
    ensures
        out@.to_multiset() == projected_seq(records@).to_multiset(),
        out@.len() == records_with_id(records@),
{
    let out = project_parallel_pool(records);
    proof {
        lemma_count_order_insensitive(out@, records@);
    }
    out
}

/// Projects a whole document with the chosen traversal strategy. The output
/// always holds the projection's items; the sequential variant (`parallel ==
/// false`) additionally keeps them in input order.
pub fn project_document(doc: &Document, parallel: bool) -> (out: Vec<Projected>)
    ensures
        out@.to_multiset() == document_projection(*doc).to_multiset(),
        !parallel ==> out@ == document_projection(*doc),
        out@.len() == document_projection(*doc).len(),
{
    match doc {
        Document::NotArray => Vec::new(),
        Document::Array(rs) => {
            let out = if parallel {
                project_parallel(rs)
            } else {
                project_sequential(rs)
            };
            proof {
                lemma_projected_count(rs@);
            }
            out
        },
    }
}

} // verus!
