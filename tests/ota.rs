use codingan_ota::coordinator::{classify_topic, request_firmware_attributes, OtaCoordinator, TopicKind};
use codingan_ota::flash::{FlashError, FlashTarget, SimulatedFlash};
use codingan_ota::message::{decimal_string, FwState, Message, Qos};
use codingan_ota::metadata::{metadata_from_json, parse_metadata};
use codingan_ota::session::{SessionState, UpdateSession};

struct ScriptedFlash {
    open_result: Result<(), FlashError>,
    fail_write_at: Option<usize>,
    commit_result: Result<(), FlashError>,
    writes: usize,
    bytes: Vec<u8>,
    aborted: bool,
    committed: bool,
}

impl ScriptedFlash {
    fn good() -> Self {
        ScriptedFlash {
            open_result: Ok(()),
            fail_write_at: None,
            commit_result: Ok(()),
            writes: 0,
            bytes: Vec::new(),
            aborted: false,
            committed: false,
        }
    }
}

impl FlashTarget for ScriptedFlash {
    fn open(&mut self, _size: u64) -> Result<(), FlashError> {
        self.open_result
    }

    fn write(&mut self, bytes: &[u8]) -> Result<(), FlashError> {
        let n = self.writes;
        self.writes += 1;
        if self.fail_write_at == Some(n) {
            return Err(FlashError::WriteFailed);
        }
        self.bytes.extend_from_slice(bytes);
        Ok(())
    }

    fn commit(&mut self) -> Result<(), FlashError> {
        self.committed = self.commit_result.is_ok();
        self.commit_result
    }

    fn abort(&mut self) {
        self.aborted = true;
    }
}

fn response(size: u64) -> String {
    format!(
        "{{\"shared\":{{\"fw_title\":\"demo\",\"fw_version\":\"2.1\",\"fw_size\":{},\"fw_checksum\":\"abc\",\"fw_checksum_algorithm\":\"SHA256\"}}}}",
        size
    )
}

fn started(size: u64) -> OtaCoordinator<ScriptedFlash> {
    let mut c = OtaCoordinator::new(ScriptedFlash::good());
    let msgs = c.handle_ota_response(&response(size));
    assert_eq!(msgs[0], Message::State(FwState::Downloading));
    c
}

fn progress_of(msgs: &[Message]) -> Vec<u64> {
    msgs.iter()
        .filter_map(|m| match m {
            Message::Progress(p) => Some(*p),
            _ => None,
        })
        .collect()
}

#[test]
fn download_of_2500_bytes_reports_40_81_100() {
    let mut c = started(2500);
    let a = c.handle_firmware_chunk(&[1u8; 1024]);
    assert_eq!(
        a,
        vec![
            Message::Progress(40),
            Message::ChunkRequest { request_id: 1, chunk: 1, size: 1024 }
        ]
    );
    let b = c.handle_firmware_chunk(&[2u8; 1024]);
    assert_eq!(
        b,
        vec![
            Message::Progress(81),
            Message::ChunkRequest { request_id: 1, chunk: 2, size: 452 }
        ]
    );
    let d = c.handle_firmware_chunk(&[3u8; 452]);
    assert_eq!(d, vec![Message::Progress(100), Message::State(FwState::Success)]);
    assert_eq!(c.session().state(), SessionState::Succeeded);
    assert_eq!(c.session().received_bytes(), 2500);
    assert_eq!(c.flash().bytes.len(), 2500);
    assert!(c.flash().committed);
}

#[test]
fn start_reports_downloading_and_asks_for_chunk_zero() {
    let mut c = OtaCoordinator::new(ScriptedFlash::good());
    let msgs = c.handle_ota_response(&response(2500));
    assert_eq!(
        msgs,
        vec![
            Message::State(FwState::Downloading),
            Message::ChunkRequest { request_id: 1, chunk: 0, size: 1024 }
        ]
    );
    assert_eq!(c.session().state(), SessionState::Downloading);
    assert_eq!(c.session().total_size(), 2500);
    assert_eq!(c.session().received_bytes(), 0);
}

#[test]
fn missing_size_creates_no_session() {
    let mut c = OtaCoordinator::new(ScriptedFlash::good());
    let msgs = c.handle_ota_response("{\"shared\":{\"fw_title\":\"demo\",\"fw_version\":\"2.1\"}}");
    assert!(msgs.is_empty());
    assert_eq!(c.session().state(), SessionState::Idle);
}

#[test]
fn open_failure_fails_with_one_report() {
    let mut flash = ScriptedFlash::good();
    flash.open_result = Err(FlashError::NoPartitionAvailable);
    let mut c = OtaCoordinator::new(flash);
    let msgs = c.handle_ota_response(&response(4096));
    assert_eq!(msgs, vec![Message::State(FwState::Failed)]);
    assert_eq!(c.session().state(), SessionState::Failed);
    let mut flash = ScriptedFlash::good();
    flash.open_result = Err(FlashError::BeginFailed);
    let mut c = OtaCoordinator::new(flash);
    assert_eq!(c.handle_ota_response(&response(4096)), vec![Message::State(FwState::Failed)]);
}

#[test]
fn zero_size_never_downloads() {
    let mut c = OtaCoordinator::new(ScriptedFlash::good());
    let msgs = c.handle_ota_response(&response(0));
    assert_eq!(msgs, vec![Message::State(FwState::Failed)]);
    assert_eq!(c.session().state(), SessionState::Failed);
    assert!(c.handle_firmware_chunk(&[0u8; 10]).is_empty());
}

#[test]
fn chunks_summing_to_size_succeed() {
    let mut c = started(3000);
    let mut all = Vec::new();
    for len in [1000usize, 7, 993, 500, 500] {
        all.extend(c.handle_firmware_chunk(&vec![9u8; len]));
    }
    assert_eq!(c.session().state(), SessionState::Succeeded);
    assert_eq!(c.session().received_bytes(), 3000);
    let n = all.len();
    assert_eq!(all[n - 2], Message::Progress(100));
    assert_eq!(all[n - 1], Message::State(FwState::Success));
}

#[test]
fn oversized_and_duplicate_chunks_are_clamped() {
    let mut c = started(1500);
    let mut last = 0;
    for len in [2000usize, 0, 10, 1024] {
        c.handle_firmware_chunk(&vec![5u8; len]);
        let r = c.session().received_bytes();
        assert!(r >= last);
        assert!(r <= 1500);
        last = r;
    }
    assert_eq!(last, 1500);
    assert_eq!(c.flash().bytes.len(), 1500);
}

#[test]
fn request_next_when_complete_sends_nothing() {
    let mut s = UpdateSession::new();
    assert_eq!(s.request_next(), None);
    let mut flash = SimulatedFlash::new();
    s.start(&mut flash, 100);
    assert_eq!(
        s.request_next(),
        Some(Message::ChunkRequest { request_id: 1, chunk: 0, size: 100 })
    );
    s.on_chunk(&mut flash, &[0u8; 100]);
    assert_eq!(s.remaining(), 0);
    assert_eq!(s.request_next(), None);
}

#[test]
fn chunks_after_terminal_state_are_discarded() {
    let mut c = started(10);
    c.handle_firmware_chunk(&[1u8; 10]);
    assert_eq!(c.session().state(), SessionState::Succeeded);
    assert!(c.handle_firmware_chunk(&[1u8; 10]).is_empty());
    assert_eq!(c.session().received_bytes(), 10);

    let mut flash = ScriptedFlash::good();
    flash.fail_write_at = Some(0);
    let mut c = OtaCoordinator::new(flash);
    c.handle_ota_response(&response(10));
    assert_eq!(c.handle_firmware_chunk(&[1u8; 4]), vec![Message::State(FwState::Failed)]);
    assert!(c.handle_firmware_chunk(&[1u8; 4]).is_empty());
    assert_eq!(c.session().received_bytes(), 0);
}

#[test]
fn progress_reports_never_decrease() {
    let mut c = started(7777);
    let mut all = Vec::new();
    for len in [1usize, 1024, 3, 1024, 2000, 999, 1024, 1702] {
        all.extend(c.handle_firmware_chunk(&vec![0u8; len]));
    }
    let p = progress_of(&all);
    assert_eq!(p.len(), 8);
    for w in p.windows(2) {
        assert!(w[0] <= w[1]);
    }
    assert_eq!(*p.last().unwrap(), 100);
}

#[test]
fn write_failure_aborts_and_fails() {
    let mut flash = ScriptedFlash::good();
    flash.fail_write_at = Some(1);
    let mut c = OtaCoordinator::new(flash);
    c.handle_ota_response(&response(3000));
    c.handle_firmware_chunk(&[0u8; 1024]);
    let msgs = c.handle_firmware_chunk(&[0u8; 1024]);
    assert_eq!(msgs, vec![Message::State(FwState::Failed)]);
    assert_eq!(c.session().state(), SessionState::Failed);
    assert_eq!(c.session().received_bytes(), 1024);
    assert!(c.flash().aborted);
}

#[test]
fn commit_failure_fails_the_session() {
    let mut flash = ScriptedFlash::good();
    flash.commit_result = Err(FlashError::CommitFailed);
    let mut c = OtaCoordinator::new(flash);
    c.handle_ota_response(&response(8));
    let msgs = c.handle_firmware_chunk(&[0u8; 8]);
    assert_eq!(msgs, vec![Message::State(FwState::Failed)]);
    assert_eq!(c.session().state(), SessionState::Failed);
    assert!(c.flash().aborted);
}

#[test]
fn response_while_downloading_is_rejected() {
    let mut c = started(5000);
    c.handle_firmware_chunk(&[0u8; 1024]);
    assert!(c.handle_ota_response(&response(100)).is_empty());
    assert_eq!(c.session().total_size(), 5000);
    assert_eq!(c.session().received_bytes(), 1024);
}

#[test]
fn new_response_after_success_restarts() {
    let mut c = started(4);
    c.handle_firmware_chunk(&[0u8; 4]);
    let msgs = c.handle_ota_response(&response(2048));
    assert_eq!(msgs[0], Message::State(FwState::Downloading));
    assert_eq!(c.session().received_bytes(), 0);
    assert_eq!(c.session().total_size(), 2048);
}

#[test]
fn parser_reads_all_fields() {
    let m = parse_metadata(&response(2500)).unwrap();
    assert_eq!(m.title(), "demo");
    assert_eq!(m.version(), "2.1");
    assert_eq!(m.total_size(), 2500);
    assert_eq!(m.checksum(), Some("abc"));
    assert_eq!(m.checksum_algorithm(), Some("SHA256"));
}

#[test]
fn parser_defaults_title_and_version() {
    let m = parse_metadata("{\"shared\":{\"fw_size\":12,\"fw_title\":5}}").unwrap();
    assert_eq!(m.title(), "ota");
    assert_eq!(m.version(), "1.0");
    assert_eq!(m.total_size(), 12);
    assert_eq!(m.checksum(), None);
    assert_eq!(m.checksum_algorithm(), None);
}

#[test]
fn parser_rejects_malformed_payloads() {
    assert!(parse_metadata("not json").is_none());
    assert!(parse_metadata("{\"fw_size\":12}").is_none());
    assert!(parse_metadata("{\"shared\":{\"fw_size\":\"12\"}}").is_none());
    assert!(parse_metadata("{\"shared\":{\"fw_size\":-1}}").is_none());
    assert!(parse_metadata("{\"shared\":{\"fw_size\":1.5}}").is_none());
    assert!(parse_metadata("{\"shared\":[1,2]}").is_none());
}

#[test]
fn parser_rejects_titles_over_capacity() {
    let title = "t".repeat(32);
    let ok = format!("{{\"shared\":{{\"fw_size\":1,\"fw_title\":\"{}\"}}}}", title);
    assert_eq!(parse_metadata(&ok).unwrap().title(), title.as_str());
    let long = format!("{{\"shared\":{{\"fw_size\":1,\"fw_title\":\"{}x\"}}}}", title);
    assert!(parse_metadata(&long).is_none());
    let version = format!("{{\"shared\":{{\"fw_size\":1,\"fw_version\":\"{}\"}}}}", "9".repeat(17));
    assert!(parse_metadata(&version).is_none());
}

#[test]
fn metadata_from_parsed_document() {
    let doc: serde_json::Value = serde_json::from_str("{\"shared\":{\"fw_size\":77}}").unwrap();
    let m = metadata_from_json(&doc).unwrap();
    assert_eq!(m.total_size(), 77);
    assert_eq!(m.title(), "ota");
    let other: serde_json::Value = serde_json::from_str("{\"client\":{\"fw_size\":77}}").unwrap();
    assert!(metadata_from_json(&other).is_none());
}

#[test]
fn state_messages_encode() {
    let m = Message::State(FwState::Failed);
    assert_eq!(m.topic(), "v1/devices/me/telemetry");
    assert_eq!(m.payload(), "{\"fw_state\":\"FAILED\"}");
    assert_eq!(m.qos(), Qos::ExactlyOnce);
    assert_eq!(Message::State(FwState::Downloading).payload(), "{\"fw_state\":\"DOWNLOADING\"}");
    assert_eq!(Message::State(FwState::Success).payload(), "{\"fw_state\":\"SUCCESS\"}");
}

#[test]
fn progress_messages_encode() {
    let m = Message::Progress(40);
    assert_eq!(m.topic(), "v1/devices/me/telemetry");
    assert_eq!(m.payload(), "{\"fw_state\":\"DOWNLOADING\",\"fw_progress\":40}");
    assert_eq!(m.qos(), Qos::AtLeastOnce);
    assert_eq!(Message::Progress(0).payload(), "{\"fw_state\":\"DOWNLOADING\",\"fw_progress\":0}");
    assert_eq!(Message::Progress(100).payload(), "{\"fw_state\":\"SUCCESS\",\"fw_progress\":100}");
}

#[test]
fn chunk_requests_encode() {
    let m = Message::ChunkRequest { request_id: 1, chunk: 12, size: 452 };
    assert_eq!(m.topic(), "v2/fw/request/1/chunk/12");
    assert_eq!(m.payload(), "452");
    assert_eq!(m.qos(), Qos::AtLeastOnce);
}

#[test]
fn attribute_request_encodes() {
    let m = request_firmware_attributes();
    assert_eq!(m.topic(), "v1/devices/me/attributes/request/1");
    assert_eq!(
        m.payload(),
        "{\"sharedKeys\":\"fw_title,fw_version,fw_size,fw_checksum,fw_checksum_algorithm\"}"
    );
}

#[test]
fn decimals_have_no_leading_zeros() {
    assert_eq!(decimal_string(0), "0");
    assert_eq!(decimal_string(7), "7");
    assert_eq!(decimal_string(10), "10");
    assert_eq!(decimal_string(1024), "1024");
    assert_eq!(decimal_string(u64::MAX), "18446744073709551615");
}

#[test]
fn topics_are_classified() {
    assert_eq!(classify_topic("v1/devices/me/attributes/response/1"), TopicKind::AttributeResponse);
    assert_eq!(classify_topic("v2/fw/response/1/chunk/3"), TopicKind::FirmwareChunk);
    assert_eq!(classify_topic("v1/devices/me/attributes/response/12"), TopicKind::Other);
    assert_eq!(classify_topic("v2/fw/respons"), TopicKind::Other);
    assert_eq!(classify_topic(""), TopicKind::Other);
}

#[test]
fn simulated_flash_accepts_everything() {
    let mut s = UpdateSession::new();
    let mut flash = SimulatedFlash::new();
    s.start(&mut flash, 2048);
    s.on_chunk(&mut flash, &[0u8; 1024]);
    let msgs = s.on_chunk(&mut flash, &[0u8; 1024]);
    assert_eq!(msgs, vec![Message::Progress(100), Message::State(FwState::Success)]);
    assert_eq!(flash.written(), 2048);
    assert!(flash.is_committed());
    assert!(!flash.is_aborted());
    assert_eq!(s.progress(), 100);
}

#[test]
fn large_image_progress_does_not_overflow() {
    let mut s = UpdateSession::new();
    let mut flash = SimulatedFlash::new();
    s.start(&mut flash, u64::MAX);
    s.on_chunk(&mut flash, &[0u8; 1024]);
    assert_eq!(s.progress(), 0);
    assert_eq!(s.received_bytes(), 1024);
}

#[test]
fn simulated_download_of_2500_bytes() {
    let mut c = OtaCoordinator::new(SimulatedFlash::new());
    let first = c.handle_ota_response(&response(2500));
    assert_eq!(
        first,
        vec![
            Message::State(FwState::Downloading),
            Message::ChunkRequest { request_id: 1, chunk: 0, size: 1024 }
        ]
    );
    let mut all = Vec::new();
    for len in [1024usize, 1024, 452] {
        all.extend(c.handle_firmware_chunk(&vec![7u8; len]));
    }
    assert_eq!(progress_of(&all), vec![40, 81, 100]);
    assert_eq!(*all.last().unwrap(), Message::State(FwState::Success));
    assert_eq!(c.session().state(), SessionState::Succeeded);
    assert_eq!(c.flash().written(), 2500);
    assert!(c.flash().is_committed());
    assert!(c.handle_firmware_chunk(&[7u8; 10]).is_empty());
    assert_eq!(c.flash().written(), 2500);
}

#[test]
fn open_failure_writes_nothing() {
    let mut flash = ScriptedFlash::good();
    flash.open_result = Err(FlashError::BeginFailed);
    let mut c = OtaCoordinator::new(flash);
    c.handle_ota_response(&response(4096));
    assert!(c.handle_firmware_chunk(&[1u8; 100]).is_empty());
    assert_eq!(c.flash().writes, 0);
    assert!(!c.flash().committed);
}

#[test]
fn accepted_prefix_is_written() {
    let mut c = started(6);
    let data: Vec<u8> = (0u8..10).collect();
    c.handle_firmware_chunk(&data);
    assert_eq!(c.flash().bytes, vec![0u8, 1, 2, 3, 4, 5]);
    assert!(c.flash().committed);
    assert!(!c.flash().aborted);
}

#[test]
fn empty_chunk_during_download_repeats_request() {
    let mut c = started(2500);
    assert_eq!(
        c.handle_firmware_chunk(&[]),
        vec![
            Message::Progress(0),
            Message::ChunkRequest { request_id: 1, chunk: 0, size: 1024 }
        ]
    );
    c.handle_firmware_chunk(&[1u8; 1024]);
    assert_eq!(
        c.handle_firmware_chunk(&[]),
        vec![
            Message::Progress(40),
            Message::ChunkRequest { request_id: 1, chunk: 1, size: 1024 }
        ]
    );
    assert_eq!(c.session().state(), SessionState::Downloading);
    assert_eq!(c.session().received_bytes(), 1024);
    assert_eq!(c.flash().writes, 1);
}

#[test]
fn empty_chunk_after_completion_is_discarded() {
    let mut c = started(3);
    c.handle_firmware_chunk(&[1u8; 3]);
    assert!(c.handle_firmware_chunk(&[]).is_empty());
    assert_eq!(c.session().state(), SessionState::Succeeded);
}
