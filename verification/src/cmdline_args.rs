use vstd::prelude::*;

verus! {

/// The invocation configuration: two independently optional path arguments,
/// gathered once per process run and immutable thereafter.
#[derive(Debug, PartialEq)]
pub struct Args {
    /// Input file name; absent means the process's standard input.
    pub input_file: Option<String>,

    /// Output file name; absent means the process's standard output.
    pub output_file: Option<String>,
}

/// The concrete backing selected for one stream: a named file, or the
/// process's standard stream (standard input for the readable side,
/// standard output for the writable side).
#[derive(Debug, PartialEq)]
pub enum StreamBacking {
    File(String),
    Standard,
}

/// The backing a single optional path selects: a present path names a file,
/// an absent one selects the standard stream.
pub open spec fn backing_of(path: Option<String>) -> StreamBacking {
    match path {
        Some(p) => StreamBacking::File(p),
        None => StreamBacking::Standard,
    }
}

/// The pair of backings a configuration resolves to: the readable stream's
/// backing first, the writable stream's second.
pub open spec fn resolution_of(args: Args) -> (StreamBacking, StreamBacking) {
    (backing_of(args.input_file), backing_of(args.output_file))
}

/// Select the backing for one stream from its optional path.
pub fn select_stream(path: Option<String>) -> (backing: StreamBacking)
    ensures
        backing == backing_of(path),
{
    match path {
        Some(p) => StreamBacking::File(p),
        None => StreamBacking::Standard,
    }
}

/// Resolve a configuration to the backing of the readable stream and the
/// backing of the writable stream. Each side depends on its own path alone
/// and the resolution never rejects a configuration.
pub fn resolve(args: Args) -> (r: (StreamBacking, StreamBacking))
    ensures
        r == resolution_of(args),
        r.0 == backing_of(args.input_file),
        r.1 == backing_of(args.output_file),
{
    let Args { input_file, output_file } = args;
    (select_stream(input_file), select_stream(output_file))
}

/// Combine the outcomes of readying the two streams. The pair is returned
/// only when both sides succeeded; the first failure (the readable side is
/// checked before the writable one) aborts the whole resolution, so no
/// partial result ever escapes.
pub fn pair_streams<A, B, E>(input: Result<A, E>, output: Result<B, E>) -> (r: Result<(A, B), E>)
    ensures
        r is Ok <==> (input is Ok && output is Ok),
        input is Ok && output is Ok ==> r == Ok::<(A, B), E>((input->Ok_0, output->Ok_0)),
        input is Err ==> r == Err::<(A, B), E>(input->Err_0),
        input is Ok && output is Err ==> r == Err::<(A, B), E>(output->Err_0),
{
    match input {
        Ok(i) => match output {
            Ok(o) => Ok((i, o)),
            Err(e) => Err(e),
        },
        Err(e) => Err(e),
    }
}

/// The two resolutions are independent: the backing of the readable stream
/// is fixed by the input path alone, and the backing of the writable stream
/// by the output path alone, whatever the rest of the configuration holds.
pub proof fn lemma_resolutions_independent(a: Args, b: Args)
    ensures
        a.input_file == b.input_file ==> resolution_of(a).0 == resolution_of(b).0,
        a.output_file == b.output_file ==> resolution_of(a).1 == resolution_of(b).1,
{
}

} // verus!
