//! A small benchmark library: it parses a JSON text, projects every element of
//! a top-level array onto its `"id"` member, and measures how long the work
//! took and how much system memory it consumed.
//!
//! The measured computation (parsing, projection, counting) lives here with
//! full contracts; reading the input file and printing the report are left to
//! the surrounding binary.

use vstd::prelude::*;

pub mod input;
pub mod project;
pub mod resources;

verus! {

/// Why a run failed. Every error is terminal: nothing is retried.
#[derive(Debug)]
pub enum BenchError {
    /// The input text is not well-formed JSON; carries the parser's diagnostic.
    MalformedJson(String),
    /// The platform could not report the resources of the running system;
    /// carries the platform's diagnostic.
    Resource(String),
}

impl BenchError {
    /// The diagnostic line carried by the error, for the caller to report.
    pub fn into_message(self) -> (s: String)
        ensures
            self matches BenchError::MalformedJson(m) ==> s == m,
            self matches BenchError::Resource(m) ==> s == m,
    {
        match self {
            BenchError::MalformedJson(m) => m,
            BenchError::Resource(m) => m,
        }
    }
}

/// What one run reports: how many items the projection produced, the change
/// in the machine's used memory across the run (total minus free as the
/// platform reports it — a system-wide figure, not this process's resident
/// set; kilobytes; negative when memory was freed), the size in bytes of the
/// output vector's own struct (not its heap contents), and the elapsed
/// wall-clock time in nanoseconds.
#[derive(Debug)]
pub struct BenchmarkReport {
    pub item_count: usize,
    pub system_memory_delta_kb: i128,
    pub output_struct_bytes: usize,
    pub elapsed_nanos: u128,
}

/// The measured computation on its own: parse the text and project the
/// document, with the chosen traversal strategy. Succeeds exactly on
/// well-formed JSON; a non-array root succeeds with an empty output. The
/// output is exactly the text's projection — in input order for the
/// sequential variant, as a multiset for the parallel one.
pub fn process_text(text: &str, parallel: bool) -> (r: Result<Vec<project::Projected>, BenchError>)
    ensures
        r is Ok <==> input::json_well_formed(text@),
        r matches Err(e) ==> e is MalformedJson,
        r matches Ok(out) ==> out@.to_multiset() == input::text_projection(text@).to_multiset()
            && out@.len() == input::text_projection(text@).len() && (!parallel ==> out@
            == input::text_projection(text@)),
{
    match input::parse_document(text) {
        Ok(doc) => {
            let out = project::project_document(&doc, parallel);
            proof {
                input::lemma_text_projection(text@, doc);
            }
            Ok(out)
        },
        Err(e) => Err(e),
    }
}

/// Relies on core::mem::size_of_val: the size in bytes of the vector value
/// itself — pointer, length and capacity — excluding its heap storage.
#[verifier::external_body]
fn vec_struct_bytes(out: &Vec<project::Projected>) -> (r: usize) {
    core::mem::size_of_val(out)
}

/// One whole run on an already-read input text: sample resources, parse and
/// project, sample again, and diff the two snapshots into a report.
///
/// Malformed JSON always fails the run — never a silent empty report — and
/// `MalformedJson` is reported only for malformed JSON; the only other
/// failure, `Resource`, is a platform that cannot report its memory. A
/// non-array root is no error: the run succeeds with an item count of zero,
/// and every successful run reports exactly the item count of the text's
/// projection.
pub fn run_benchmark(text: &str, parallel: bool) -> (r: Result<BenchmarkReport, BenchError>)
    ensures
        !input::json_well_formed(text@) ==> r is Err,
        r matches Ok(rep) ==> rep.item_count == input::text_projection(text@).len(),
        r matches Err(e) ==> (e is MalformedJson ==> !input::json_well_formed(text@)) && (!(e
            is MalformedJson) ==> e is Resource),
{
    let epoch = resources::clock_start();
    let start = match resources::sample_snapshot(&epoch) {
        Ok(s) => s,
        Err(e) => return Err(e),
    };
    let doc = match input::parse_document(text) {
        Ok(d) => d,
        Err(e) => return Err(e),
    };
    let out = project::project_document(&doc, parallel);
    proof {
        input::lemma_text_projection(text@, doc);
    }
    let end = match resources::sample_snapshot(&epoch) {
        Ok(s) => s,
        Err(e) => return Err(e),
    };
    let delta = resources::snapshot_diff(&start, &end);
    Ok(
        BenchmarkReport {
            item_count: out.len(),
            system_memory_delta_kb: delta.system_memory_delta_kb,
            output_struct_bytes: vec_struct_bytes(&out),
            elapsed_nanos: delta.elapsed_nanos,
        },
    )
}

} // verus!
