use vstd::prelude::*;

verus! {

/// The configuration object through which a command-line front end hands
/// one analysis request to the library: the watched identifier, the target
/// environment selector, and the output-format selector. An optional
/// base64-encoded proposed operation travels separately, since its
/// validity is checked by the library itself.
pub struct Cli {
    /// The program or account identifier to analyse, in textual form.
    pub program: String,
    /// The target environment selector (for example "devnet").
    pub cluster: String,
    /// The output-format selector: structured or plain text.
    pub output: String,
}

} // verus!
