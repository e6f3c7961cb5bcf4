use vstd::prelude::*;

verus! {

/// The CSV input format.
#[derive(Debug, Clone, Copy, Default)]
pub struct CsvInputFormat;

/// Configuration of the CSV parser; it has no options.
#[derive(Debug, Clone, Copy, Default)]
pub struct CsvParserConfig {}

/// The CSV output format.
#[derive(Debug, Clone, Copy, Default)]
pub struct CsvOutputFormat;

/// Configuration of the CSV encoder.
#[derive(Debug, Clone, Copy)]
pub struct CsvEncoderConfig {
    /// Records per output buffer.
    pub buffer_size_records: usize,
}

/// Records per output buffer when the configuration does not say.
pub fn default_buffer_size_records() -> (r: usize)
    ensures
        r == 10_000,
{
    10_000
}

impl CsvEncoderConfig {
    /// The configuration with the default buffer size.
    pub fn with_defaults() -> (r: CsvEncoderConfig)
        ensures
            r.buffer_size_records == 10_000,
    {
        CsvEncoderConfig { buffer_size_records: default_buffer_size_records() }
    }
}

impl CsvInputFormat {
    /// Name of the format.
    pub fn name(&self) -> (r: &'static str)
        ensures
            r@ == "csv"@,
    {
        "csv"
    }
}

impl CsvOutputFormat {
    /// Name of the format.
    pub fn name(&self) -> (r: &'static str)
        ensures
            r@ == "csv"@,
    {
        "csv"
    }
}

/// State of a CSV parser: the bytes after the last newline seen, kept for
/// the next fragment, and the number of the last event read.
#[derive(Debug, Clone)]
pub struct CsvParser {
    pub leftover: Vec<u8>,
    pub last_event_number: u64,
}

impl CsvParser {
    /// A parser with nothing buffered.
    pub fn new() -> (r: CsvParser)
        ensures
            r.leftover@.len() == 0,
            r.last_event_number == 0,
    {
        CsvParser { leftover: Vec::new(), last_event_number: 0 }
    }
}

/// State of a CSV encoder: its configuration, the output buffer, and the
/// largest buffer the output transport accepts.
#[derive(Debug, Clone)]
pub struct CsvEncoder {
    pub config: CsvEncoderConfig,
    pub buffer: Vec<u8>,
    pub max_buffer_size: usize,
}

impl CsvEncoder {
    /// An encoder with an empty buffer.
    pub fn new(max_buffer_size: usize, config: CsvEncoderConfig) -> (r: CsvEncoder)
        ensures
            r.config == config,
            r.buffer@.len() == 0,
            r.max_buffer_size == max_buffer_size,
    {
        CsvEncoder { config, buffer: Vec::new(), max_buffer_size }
    }
}

} // verus!
