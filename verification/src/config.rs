//! Configuration of the debug strategy, and the record in which it crosses
//! the boundary.

use vstd::prelude::*;

verus! {

/// The size in bytes of the record that the engine reads at creation.
pub const CONFIG_RECORD_SIZE: usize = 1;

/// The alignment in bytes of the record that the engine reads at creation.
pub const CONFIG_RECORD_ALIGN: usize = 1;

/// Configuration for creating debug allocators.
#[derive(Clone, Copy, Debug, PartialEq, Eq, Structural)]
pub struct DebugAllocatorConfig {
    /// Whether the engine aborts the process when it finds leaks at
    /// destruction, instead of reporting them and going on.
    pub panic_on_leaks: bool,
}

impl Default for DebugAllocatorConfig {
    /// Leaks are fatal unless the embedder says otherwise.
    fn default() -> (config: Self)
        ensures
            config == (DebugAllocatorConfig { panic_on_leaks: true }),
    {
        DebugAllocatorConfig { panic_on_leaks: true }
    }
}

impl DebugAllocatorConfig {
    /// The bytes of the record that stands for this configuration: one byte
    /// at offset 0, which is 1 where leaks are fatal and 0 where they are not.
    pub open spec fn record_spec(&self) -> Seq<u8> {
        seq![if self.panic_on_leaks { 1u8 } else { 0u8 }]
    }

    /// Marshals the configuration into the record that the engine reads.
    pub fn to_record(&self) -> (record: ConfigRecord)
        ensures
            record@ == self.record_spec(),
            record@.len() == CONFIG_RECORD_SIZE,
    {
        let byte: u8 = if self.panic_on_leaks { 1 } else { 0 };
        ConfigRecord { byte }
    }
}

/// A configuration record in its wire layout: `CONFIG_RECORD_SIZE` bytes that
/// the engine can read as they are.
#[derive(Clone, Copy, Debug, PartialEq, Eq, Structural)]
pub struct ConfigRecord {
    byte: u8,
}

impl View for ConfigRecord {
    type V = Seq<u8>;

    closed spec fn view(&self) -> Seq<u8> {
        seq![self.byte]
    }
}

impl ConfigRecord {
    #[verifier::type_invariant]
    spec fn well_formed(self) -> bool {
        self.byte <= 1
    }

    /// Whether `bytes` is the record of some configuration.
    pub open spec fn valid_bytes(bytes: Seq<u8>) -> bool {
        bytes.len() == CONFIG_RECORD_SIZE && bytes[0] <= 1
    }

    /// Checks bytes that claim to be a record. They are one exactly when the
    /// byte at offset 0 is a boolean, 0 or 1.
    pub fn from_bytes(bytes: [u8; 1]) -> (r: Option<ConfigRecord>)
        ensures
            r is Some <==> ConfigRecord::valid_bytes(bytes@),
            r matches Some(record) ==> record@ == bytes@,
    {
        let byte: u8 = bytes[0];
        if byte <= 1 {
            let record = ConfigRecord { byte };
            assert(record@ =~= bytes@);
            Some(record)
        } else {
            None
        }
    }

    /// The bytes of the record, in the layout the engine expects.
    pub fn as_bytes(&self) -> (bytes: [u8; 1])
        ensures
            bytes@ == self@,
            ConfigRecord::valid_bytes(bytes@),
    {
        proof {
            use_type_invariant(self);
        }
        let bytes: [u8; 1] = [self.byte];
        assert(bytes@ =~= self@);
        bytes
    }

    /// The configuration that the record stands for.
    pub fn config(&self) -> (config: DebugAllocatorConfig)
        ensures
            config.record_spec() == self@,
    {
        proof {
            use_type_invariant(self);
        }
        let config = DebugAllocatorConfig { panic_on_leaks: self.byte == 1 };
        assert(config.record_spec() =~= self@);
        config
    }
}

/// No two configurations share a record: what the engine reads decides the
/// configuration.
pub proof fn lemma_record_decides_config(a: DebugAllocatorConfig, b: DebugAllocatorConfig)
    requires
        a.record_spec() == b.record_spec(),
    ensures
        a == b,
{
    assert(a.record_spec()[0] == if a.panic_on_leaks { 1u8 } else { 0u8 });
    assert(b.record_spec()[0] == if b.panic_on_leaks { 1u8 } else { 0u8 });
}

} // verus!
