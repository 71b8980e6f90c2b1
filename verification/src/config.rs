use vstd::prelude::*;
use vstd::utf8::encode_utf8;

verus! {

/// Where the formatted report of a run is streamed.
#[derive(Debug)]
pub enum OutputDest {
    /// Stream to standard output.
    Stdout,
    /// Append to a caller-owned in-memory byte buffer; the buffer is handed
    /// back, grown by the report, when the run returns the configuration.
    Buffer(Vec<u8>),
    /// Suppress streaming entirely.
    Disabled,
}

/// The options a suite runs with: where formatted text is streamed, and
/// whether the formatter brackets its verdict tokens in ANSI color codes.
#[derive(Debug)]
pub struct TestConfig {
    pub output: OutputDest,
    pub colored: bool,
}

impl TestConfig {
    /// Change the output destination.
    pub fn output(self, output_style: OutputDest) -> (config: Self)
        ensures
            config == (TestConfig { output: output_style, colored: self.colored }),
    {
        TestConfig { output: output_style, colored: self.colored }
    }

    /// Change whether the report is rendered with ANSI color codes.
    pub fn colored(self, yes: bool) -> (config: Self)
        ensures
            config == (TestConfig { output: self.output, colored: yes }),
    {
        TestConfig { output: self.output, colored: yes }
    }
}

impl Default for TestConfig {
    /// Stream to standard output, in color.
    fn default() -> (config: Self)
        ensures
            config.output is Stdout,
            config.colored == true,
    {
        TestConfig { output: OutputDest::Stdout, colored: true }
    }
}

/// The contents of a buffer destination; empty for the other destinations.
pub open spec fn buffer_bytes(dest: OutputDest) -> Seq<u8> {
    match dest {
        OutputDest::Buffer(bytes) => bytes@,
        _ => Seq::empty(),
    }
}

/// How one streaming step changes a destination: a buffer grows by the
/// UTF-8 bytes of `text`; the other destinations are unchanged as values
/// (standard output is written to, the disabled destination drops the text).
pub open spec fn written(pre: OutputDest, post: OutputDest, text: Seq<char>) -> bool {
    if pre is Buffer {
        post is Buffer && buffer_bytes(post) == buffer_bytes(pre) + encode_utf8(text)
    } else {
        post == pre
    }
}

/// Relies on std::io::Stdout::write_all: streams the bytes of `text` to
/// standard output. A write error is discarded; nothing is claimed of the
/// stream.
#[verifier::external_body]
fn write_stdout(text: &str) {
    let mut handle = std::io::stdout();
    let _ = std::io::Write::write_all(&mut handle, text.as_bytes());
}

/// Streams `text` to the destination: appended to a buffer, written to
/// standard output, or dropped when output is disabled.
pub fn dest_write(dest: &mut OutputDest, text: &str)
    ensures
        written(*old(dest), *final(dest), text@),
{
    match dest {
        OutputDest::Stdout => write_stdout(text),
        OutputDest::Buffer(buffer) => {
            let mut bytes = text.as_bytes_vec();
            buffer.append(&mut bytes);
        },
        OutputDest::Disabled => {},
    }
}

} // verus!
