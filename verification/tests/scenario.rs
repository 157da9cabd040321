use minicov::{
    capture_coverage, check_version, do_stuff, merge_coverage, reset_coverage, write_callback,
    Action, ByteRange, CoverageWriteError, CoverageWriter, IncompatibleCoverageData, RuntimeCall,
    RuntimeReply, Session, INSTR_PROF_RAW_VERSION, VARIANT_MASKS_ALL,
};

const HEADER_LEN: usize = 16;
const VALUE_DATA: [u8; 5] = [0xd1, 0xd2, 0xd3, 0xd4, 0xd5];

/// A stand-in for the instrumentation runtime: two counters, a version word,
/// and a blob made of a header, the counters, padding and, on request, value
/// data.
struct Runtime {
    version: u64,
    counters: [u64; 2],
    calls: Vec<RuntimeCall>,
}

impl Runtime {
    fn new(version: u64) -> Runtime {
        Runtime { version, counters: [0, 0], calls: Vec::new() }
    }

    fn run(&mut self, x: bool) {
        match do_stuff(x) {
            "a" => self.counters[0] += 1,
            "b" => self.counters[1] += 1,
            other => panic!("unknown path {}", other),
        }
    }

    fn header(&self) -> Vec<u8> {
        let mut header = self.version.to_le_bytes().to_vec();
        header.extend((self.counters.len() as u64).to_le_bytes());
        header
    }

    fn counter_bytes(&self) -> Vec<u8> {
        let mut bytes = Vec::new();
        for c in self.counters.iter() {
            bytes.extend(c.to_le_bytes());
        }
        bytes
    }

    fn write_data<W: CoverageWriter>(&self, sink: &mut W, value_profiling: bool) -> i32 {
        let header = self.header();
        let counters = self.counter_bytes();
        let first = [ByteRange::backed(&header, 8, 2, false).unwrap()];
        if write_callback(sink, &first) != 0 {
            return -1;
        }
        let second = [
            ByteRange::backed(&counters, 8, self.counters.len(), false).unwrap(),
            ByteRange::padding(1, 0, true).unwrap(),
            ByteRange::padding(1, 24, true).unwrap(),
        ];
        if write_callback(sink, &second) != 0 {
            return -1;
        }
        if value_profiling {
            let third = [ByteRange::backed(&VALUE_DATA, 1, VALUE_DATA.len(), false).unwrap()];
            if write_callback(sink, &third) != 0 {
                return -1;
            }
        }
        0
    }

    fn check_compatibility(&self, blob: &[u8]) -> i32 {
        if blob.len() < HEADER_LEN + 8 * self.counters.len() {
            return 1;
        }
        let word = u64::from_le_bytes(blob[0..8].try_into().unwrap());
        let count = u64::from_le_bytes(blob[8..16].try_into().unwrap());
        if word & !VARIANT_MASKS_ALL != self.version & !VARIANT_MASKS_ALL {
            return 1;
        }
        if count != self.counters.len() as u64 {
            return 1;
        }
        0
    }

    fn merge_from_buffer(&mut self, blob: &[u8]) -> i32 {
        for (i, c) in self.counters.iter_mut().enumerate() {
            let at = HEADER_LEN + 8 * i;
            *c += u64::from_le_bytes(blob[at..at + 8].try_into().unwrap());
        }
        0
    }
}

fn counters_of(blob: &[u8]) -> [u64; 2] {
    [
        u64::from_le_bytes(blob[16..24].try_into().unwrap()),
        u64::from_le_bytes(blob[24..32].try_into().unwrap()),
    ]
}

fn capture<W: CoverageWriter>(
    runtime: &mut Runtime,
    sink: &mut W,
    allocation: bool,
) -> Option<Result<(), CoverageWriteError>> {
    let mut session = Session::new();
    loop {
        match capture_coverage(&session, allocation) {
            Action::Call(call) => {
                runtime.calls.push(call);
                match call {
                    RuntimeCall::GetVersion => session.record(RuntimeReply::Version(runtime.version)),
                    RuntimeCall::WriteData { value_profiling, skip_name_data } => {
                        assert!(!skip_name_data);
                        let status = runtime.write_data(sink, value_profiling);
                        session.record(RuntimeReply::Written(status));
                    }
                    other => panic!("capture asked for {:?}", other),
                }
            }
            Action::Return(result) => return Some(result),
            Action::VersionMismatch => return None,
        }
    }
}

fn merge(runtime: &mut Runtime, blob: &[u8]) -> Option<Result<(), IncompatibleCoverageData>> {
    let mut session = Session::new();
    loop {
        match merge_coverage(&session) {
            Action::Call(call) => {
                runtime.calls.push(call);
                match call {
                    RuntimeCall::GetVersion => session.record(RuntimeReply::Version(runtime.version)),
                    RuntimeCall::CheckCompatibility => {
                        session.record(RuntimeReply::Compatibility(runtime.check_compatibility(blob)))
                    }
                    RuntimeCall::MergeFromBuffer => {
                        session.record(RuntimeReply::Merged(runtime.merge_from_buffer(blob)))
                    }
                    other => panic!("merge asked for {:?}", other),
                }
            }
            Action::Return(result) => return Some(result),
            Action::VersionMismatch => return None,
        }
    }
}

fn reset(runtime: &mut Runtime) -> Option<()> {
    let mut session = Session::new();
    loop {
        match reset_coverage(&session) {
            Action::Call(call) => {
                runtime.calls.push(call);
                match call {
                    RuntimeCall::GetVersion => session.record(RuntimeReply::Version(runtime.version)),
                    RuntimeCall::ResetCounters => {
                        runtime.counters = [0, 0];
                        session.record(RuntimeReply::CountersReset);
                    }
                    other => panic!("reset asked for {:?}", other),
                }
            }
            Action::Return(()) => return Some(()),
            Action::VersionMismatch => return None,
        }
    }
}

/// A sink that refuses its `fail_at`-th call.
struct Limited {
    taken: Vec<u8>,
    calls: usize,
    fail_at: usize,
}

impl CoverageWriter for Limited {
    fn write(&mut self, data: &[u8]) -> Result<(), CoverageWriteError> {
        self.calls += 1;
        if self.calls == self.fail_at {
            return Err(CoverageWriteError);
        }
        self.taken.extend_from_slice(data);
        Ok(())
    }
}

#[test]
fn capture_then_merge_in_a_later_run() {
    let mut first = Runtime::new(INSTR_PROF_RAW_VERSION);
    first.run(true);
    assert_eq!(first.counters, [1, 0]);
    let mut blob: Vec<u8> = Vec::new();
    assert_eq!(capture(&mut first, &mut blob, true), Some(Ok(())));
    let word = u64::from_le_bytes(blob[0..8].try_into().unwrap());
    assert_eq!(word & !VARIANT_MASKS_ALL, INSTR_PROF_RAW_VERSION);
    assert!(check_version(word));
    assert_eq!(counters_of(&blob), [1, 0]);

    let stored = blob.clone();
    let mut second = Runtime::new(INSTR_PROF_RAW_VERSION);
    assert_eq!(merge(&mut second, &stored), Some(Ok(())));
    second.run(true);
    let mut again: Vec<u8> = Vec::new();
    assert_eq!(capture(&mut second, &mut again, true), Some(Ok(())));
    assert_eq!(counters_of(&again), [2, 0]);
    assert_eq!(again.len(), blob.len());
}

#[test]
fn captured_blob_is_the_stream_of_the_ranges() {
    let mut runtime = Runtime::new(INSTR_PROF_RAW_VERSION | 0x0100_0000_0000_0000);
    runtime.run(false);
    runtime.run(true);
    runtime.run(false);
    let mut blob: Vec<u8> = Vec::new();
    assert_eq!(capture(&mut runtime, &mut blob, true), Some(Ok(())));
    let mut expected = runtime.header();
    expected.extend(runtime.counter_bytes());
    expected.extend(vec![0u8; 24]);
    expected.extend(VALUE_DATA);
    assert_eq!(blob, expected);
    assert_eq!(blob.len(), 8 * 2 + 8 * 2 + 24 + 5);
    assert_eq!(
        runtime.calls,
        vec![
            RuntimeCall::GetVersion,
            RuntimeCall::WriteData { value_profiling: true, skip_name_data: false }
        ]
    );
}

#[test]
fn capture_reset_merge_restores_counters() {
    let mut runtime = Runtime::new(INSTR_PROF_RAW_VERSION);
    runtime.run(true);
    runtime.run(false);
    runtime.run(false);
    let before = runtime.counters;
    assert_eq!(before, [1, 2]);
    let mut blob: Vec<u8> = Vec::new();
    assert_eq!(capture(&mut runtime, &mut blob, true), Some(Ok(())));
    assert_eq!(reset(&mut runtime), Some(()));
    assert_eq!(runtime.counters, [0, 0]);
    assert_eq!(merge(&mut runtime, &blob), Some(Ok(())));
    assert_eq!(runtime.counters, before);
    assert_eq!(
        runtime.calls,
        vec![
            RuntimeCall::GetVersion,
            RuntimeCall::WriteData { value_profiling: true, skip_name_data: false },
            RuntimeCall::GetVersion,
            RuntimeCall::ResetCounters,
            RuntimeCall::GetVersion,
            RuntimeCall::CheckCompatibility,
            RuntimeCall::MergeFromBuffer,
        ]
    );
}

#[test]
fn merge_of_blob_with_other_version_changes_nothing() {
    let mut runtime = Runtime::new(INSTR_PROF_RAW_VERSION);
    runtime.run(true);
    let mut blob: Vec<u8> = Vec::new();
    assert_eq!(capture(&mut runtime, &mut blob, true), Some(Ok(())));
    blob[0] = 0x0b;
    runtime.calls.clear();
    assert_eq!(merge(&mut runtime, &blob), Some(Err(IncompatibleCoverageData)));
    assert_eq!(runtime.counters, [1, 0]);
    assert_eq!(runtime.calls, vec![RuntimeCall::GetVersion, RuntimeCall::CheckCompatibility]);
}

#[test]
fn merge_of_blob_with_other_variant_bits_goes_through() {
    let mut runtime = Runtime::new(INSTR_PROF_RAW_VERSION);
    runtime.run(true);
    let mut blob: Vec<u8> = Vec::new();
    assert_eq!(capture(&mut runtime, &mut blob, true), Some(Ok(())));
    blob[7] = 0x80;
    assert_eq!(merge(&mut runtime, &blob), Some(Ok(())));
    assert_eq!(runtime.counters, [2, 0]);
}

#[test]
fn merge_of_truncated_blob_changes_nothing() {
    let mut runtime = Runtime::new(INSTR_PROF_RAW_VERSION);
    runtime.run(false);
    let mut blob: Vec<u8> = Vec::new();
    assert_eq!(capture(&mut runtime, &mut blob, true), Some(Ok(())));
    assert_eq!(merge(&mut runtime, &blob[..20]), Some(Err(IncompatibleCoverageData)));
    assert_eq!(merge(&mut runtime, &[]), Some(Err(IncompatibleCoverageData)));
    assert_eq!(runtime.counters, [0, 1]);
}

#[test]
fn capture_without_allocation_leaves_only_value_data_out() {
    let mut runtime = Runtime::new(INSTR_PROF_RAW_VERSION);
    runtime.run(true);
    let mut full: Vec<u8> = Vec::new();
    assert_eq!(capture(&mut runtime, &mut full, true), Some(Ok(())));
    runtime.calls.clear();
    let mut lean: Vec<u8> = Vec::new();
    assert_eq!(capture(&mut runtime, &mut lean, false), Some(Ok(())));
    assert_eq!(lean.len() + VALUE_DATA.len(), full.len());
    assert_eq!(&full[..lean.len()], &lean[..]);
    assert_eq!(&full[lean.len()..], &VALUE_DATA[..]);
    assert_eq!(
        runtime.calls,
        vec![
            RuntimeCall::GetVersion,
            RuntimeCall::WriteData { value_profiling: false, skip_name_data: false }
        ]
    );
    assert_eq!(merge(&mut runtime, &lean), Some(Ok(())));
    assert_eq!(runtime.counters, [2, 0]);
}

#[test]
fn capture_into_failing_sink_is_a_write_error() {
    let mut runtime = Runtime::new(INSTR_PROF_RAW_VERSION);
    runtime.run(true);
    for fail_at in 1..=5 {
        let mut sink = Limited { taken: Vec::new(), calls: 0, fail_at };
        assert_eq!(capture(&mut runtime, &mut sink, true), Some(Err(CoverageWriteError)));
        assert_eq!(sink.calls, fail_at);
    }
    let mut sink = Limited { taken: Vec::new(), calls: 0, fail_at: 6 };
    assert_eq!(capture(&mut runtime, &mut sink, true), Some(Ok(())));
    assert_eq!(sink.calls, 5);
    assert_eq!(sink.taken.len(), 16 + 16 + 24 + 5);
}

#[test]
fn failed_capture_may_leave_part_of_its_output() {
    let mut runtime = Runtime::new(INSTR_PROF_RAW_VERSION);
    runtime.run(true);
    let mut sink = Limited { taken: Vec::new(), calls: 0, fail_at: 3 };
    assert_eq!(capture(&mut runtime, &mut sink, true), Some(Err(CoverageWriteError)));
    let mut expected = runtime.header();
    expected.extend(runtime.counter_bytes());
    assert_eq!(sink.taken, expected);
}

#[test]
fn runtime_of_other_version_is_left_alone() {
    let mut runtime = Runtime::new(INSTR_PROF_RAW_VERSION + 1);
    runtime.run(true);
    let mut blob: Vec<u8> = Vec::new();
    assert_eq!(capture(&mut runtime, &mut blob, true), None);
    assert!(blob.is_empty());
    assert_eq!(merge(&mut runtime, &[0u8; 64]), None);
    assert_eq!(reset(&mut runtime), None);
    assert_eq!(runtime.counters, [1, 0]);
    assert_eq!(
        runtime.calls,
        vec![RuntimeCall::GetVersion, RuntimeCall::GetVersion, RuntimeCall::GetVersion]
    );
}

#[test]
fn reset_after_capture_avoids_counting_twice() {
    let mut runtime = Runtime::new(INSTR_PROF_RAW_VERSION);
    runtime.run(true);
    let mut first: Vec<u8> = Vec::new();
    assert_eq!(capture(&mut runtime, &mut first, false), Some(Ok(())));
    assert_eq!(reset(&mut runtime), Some(()));
    runtime.run(false);
    let mut second: Vec<u8> = Vec::new();
    assert_eq!(capture(&mut runtime, &mut second, false), Some(Ok(())));
    assert_eq!(counters_of(&first), [1, 0]);
    assert_eq!(counters_of(&second), [0, 1]);
}
