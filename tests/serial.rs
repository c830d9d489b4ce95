use ble_serial::{
    baud_acceptable, bluetooth_uuid_from_u16, bytes_to_spaced_hex, contains_folded, decode_baud,
    device_matches, encode_baud, find_device, notify_enable_value, select_characteristics, Action,
    BleHdlMsg, BleSerialEvent, IoFailure, LinkEvent, Phase, ReadProgress, SerialState, Step,
    Supervisor, DEFAULT_BAUD, UUID_CHAR_BAUD, UUID_CHAR_READ, UUID_CHAR_WRITE,
    UUID_DESC_CLIENT_CHAR_CONF, UUID_SERV, valid_address, BaudWait, SET_BAUD_POLLS,
};

fn baud_reading(b: u32) -> LinkEvent {
    LinkEvent::BaudRead(Some(b.to_le_bytes().to_vec()))
}

/// Drives a fresh supervisor up to the active phase; returns the Connect step.
fn connect(sup: &mut Supervisor, st: &mut SerialState<()>, name: &str) -> Step {
    st.replace_channel(());
    let s = sup.step(st, LinkEvent::SessionOpened);
    assert!(matches!(s.action, Action::Sleep(1500)));
    let s = sup.step(st, LinkEvent::Slept);
    assert!(matches!(s.action, Action::StartScan));
    let s = sup.step(st, LinkEvent::ScanStarted(true));
    assert!(matches!(s.action, Action::Sleep(1000)));
    let s = sup.step(st, LinkEvent::Slept);
    assert!(matches!(s.action, Action::CollectScan));
    let ids = vec!["hci0/dev_00_11".to_string(), "hci0/dev_AA_BB_CC".to_string()];
    let s = sup.step(st, LinkEvent::ScanPolled(ids));
    assert!(matches!(s.action, Action::Connect(1)));
    let s = sup.step(st, LinkEvent::Connected(true));
    assert!(matches!(s.action, Action::Discover));
    let s = sup.step(
        st,
        LinkEvent::Discovered(Some(vec![UUID_CHAR_WRITE, UUID_CHAR_BAUD, UUID_CHAR_READ])),
    );
    assert!(matches!(s.action, Action::ReadBaud));
    let s = sup.step(st, baud_reading(115200));
    assert!(matches!(s.action, Action::EnableNotify));
    let s = sup.step(st, LinkEvent::NotifyEnabled(true));
    assert!(matches!(s.action, Action::Subscribe));
    let s = sup.step(st, LinkEvent::Subscribed(true));
    assert!(matches!(s.action, Action::ResolveName));
    sup.step(st, LinkEvent::NameResolved(Some(name.to_string())))
}

#[test]
fn acceptable_examples() {
    assert!(baud_acceptable(9600, 9600));
    assert!(baud_acceptable(9580, 9600));
    assert!(!baud_acceptable(4800, 9600));
    assert!(!baud_acceptable(0, 9600));
    assert!(!baud_acceptable(9600, 0));
}

#[test]
fn acceptable_five_percent_boundary() {
    // |1/b - 1/e| / (1/e) = |e - b| / b
    assert!(baud_acceptable(10000, 10500));
    assert!(!baud_acceptable(10000, 10501));
    assert!(baud_acceptable(10500, 10000));
    assert!(baud_acceptable(10520, 10000));
    assert!(!baud_acceptable(10000, 10520));
    assert!(!baud_acceptable(1, 2));
    assert!(baud_acceptable(u32::MAX, u32::MAX));
}

#[test]
fn acceptable_matches_period_formula() {
    let mut x: u64 = 12345;
    for _ in 0..2000 {
        x = x.wrapping_mul(6364136223846793005).wrapping_add(1442695040888963407);
        let b = ((x >> 33) % 20000 + 1) as u32;
        let e = ((x >> 13) % 20000 + 1) as u32;
        let exact = 20 * (b as i64 - e as i64).abs() <= b as i64;
        assert_eq!(baud_acceptable(b, e), exact);
        let rel = ((1.0 / b as f64) - (1.0 / e as f64)).abs() / (1.0 / e as f64);
        if (rel - 0.05).abs() > 1e-9 {
            assert_eq!(exact, rel <= 0.05);
        }
    }
}

#[test]
fn baud_codec() {
    assert_eq!(encode_baud(9600), vec![0x80, 0x25, 0, 0]);
    assert_eq!(encode_baud(0x01020304), vec![4, 3, 2, 1]);
    assert_eq!(decode_baud(&[0x80, 0x25, 0, 0]), Some(9600));
    assert_eq!(decode_baud(&[0x00, 0xC2, 0x01, 0x00, 0xFF]), Some(115200));
    assert_eq!(decode_baud(&[1, 2, 3]), None);
    assert_eq!(decode_baud(&[]), None);
    assert_eq!(decode_baud(&encode_baud(u32::MAX)), Some(u32::MAX));
}

#[test]
fn uuids() {
    assert_eq!(bluetooth_uuid_from_u16(0xA00A), UUID_SERV);
    assert_eq!(UUID_SERV, 0x0000a00a_0000_1000_8000_00805f9b34fb);
    assert_eq!(UUID_CHAR_BAUD, 0x0000b001_0000_1000_8000_00805f9b34fb);
    assert_eq!(UUID_CHAR_WRITE, 0x0000b002_0000_1000_8000_00805f9b34fb);
    assert_eq!(UUID_CHAR_READ, 0x0000b003_0000_1000_8000_00805f9b34fb);
    assert_eq!(UUID_DESC_CLIENT_CHAR_CONF, 0x00002902_0000_1000_8000_00805f9b34fb);
    assert_eq!(notify_enable_value(), vec![0x01, 0x00]);
}

#[test]
fn characteristics_selection() {
    let c = select_characteristics(&[UUID_CHAR_READ, 7, UUID_CHAR_BAUD, UUID_CHAR_WRITE, UUID_CHAR_READ])
        .unwrap();
    assert_eq!((c.baud, c.read, c.write), (2, 4, 3));
    assert!(select_characteristics(&[UUID_CHAR_READ, UUID_CHAR_BAUD]).is_none());
    assert!(select_characteristics(&[]).is_none());
}

#[test]
fn spaced_hex() {
    assert_eq!(bytes_to_spaced_hex(&[0x0a, 0xff, 0x00]), "0a ff 00 ");
    assert_eq!(bytes_to_spaced_hex(&[]), "");
}

#[test]
fn device_address_matching() {
    assert!(device_matches("hci0/dev_AA_BB_CC", "aa_bb"));
    assert!(device_matches("hci0/dev_aa_bb_cc", "AA_BB_CC"));
    assert!(!device_matches("hci0/dev_aa_bb_cc", "aa_bc"));
    assert!(device_matches("anything", ""));
    assert!(contains_folded("abcabd", "abd"));
    assert!(!contains_folded("ab", "abc"));
    let ids = vec!["x".to_string(), "DEV_AA".to_string(), "dev_aa2".to_string()];
    assert_eq!(find_device(&ids, "dev_aa"), Some(1));
    assert_eq!(find_device(&ids, "zz"), None);
}

#[test]
fn receive_buffer_fifo_and_destructive() {
    let mut st: SerialState<()> = SerialState::new("AA_BB_CC");
    let mut sup = Supervisor::new();
    let s = connect(&mut sup, &mut st, "uart");
    assert!(matches!(s.emit, Some(BleSerialEvent::Connect)));
    let s = sup.step(&mut st, LinkEvent::Item(BleHdlMsg::ReadNotify(vec![1, 2])));
    assert!(matches!(s.emit, Some(BleSerialEvent::Receive(ref d)) if *d == vec![1, 2]));
    let s = sup.step(&mut st, LinkEvent::Item(BleHdlMsg::ReadNotify(vec![3])));
    assert!(matches!(s.emit, Some(BleSerialEvent::Receive(ref d)) if *d == vec![3]));
    assert!(matches!(s.action, Action::AwaitItem));
    assert_eq!(st.drain_read_buf(), vec![1, 2, 3]);
    assert_eq!(st.drain_read_buf(), Vec::<u8>::new());
}

#[test]
fn write_before_connect_is_refused() {
    let mut st: SerialState<()> = SerialState::new("AA_BB_CC");
    assert!(matches!(st.write_request(&[1, 2, 3]), Err(IoFailure::NotConnected)));
    st.replace_channel(());
    assert!(matches!(st.write_request(&[1, 2, 3]), Err(IoFailure::NotConnected)));
    assert!(matches!(st.write_request(&[]), Err(IoFailure::NotConnected)));
    let mut sup = Supervisor::new();
    connect(&mut sup, &mut st, "uart");
    assert!(matches!(st.write_request(&[]), Ok(None)));
    assert!(matches!(st.write_request(&[1, 2, 3]), Ok(Some(BleHdlMsg::ReqWrite(ref d))) if *d == vec![1, 2, 3]));
}

#[test]
fn read_with_nothing_times_out() {
    let mut st: SerialState<()> = SerialState::new("AA");
    let mut p = ReadProgress::new(10);
    let got = st.take_read(p.remaining());
    p.record(got.len());
    assert!(!p.keep_polling(false));
    assert!(p.keep_polling(true));
    assert_eq!(p.finish(), Err(IoFailure::TimedOut));
    assert_eq!(ReadProgress::new(0).finish(), Ok(0));
}

#[test]
fn partial_read_returns_count_without_duplicates() {
    let mut st: SerialState<()> = SerialState::new("AA");
    st.push_received(&[7, 8, 9]);
    let mut p = ReadProgress::new(10);
    let got = st.take_read(p.remaining());
    assert_eq!(got, vec![7, 8, 9]);
    p.record(got.len());
    assert_eq!(p.got(), 3);
    assert_eq!(p.remaining(), 7);
    assert_eq!(p.finish(), Ok(3));
    assert_eq!(st.take_read(10), Vec::<u8>::new());
    st.push_received(&[1, 2, 3, 4]);
    assert_eq!(st.take_read(2), vec![1, 2]);
    assert_eq!(st.drain_read_buf(), vec![3, 4]);
}

#[test]
fn reconnect_emits_one_disconnect_between_connects() {
    let mut st: SerialState<()> = SerialState::new("AA_BB_CC");
    let mut sup = Supervisor::new();
    assert!(matches!(sup.start().action, Action::OpenSession));
    let s = connect(&mut sup, &mut st, "uart");
    assert!(matches!(s.emit, Some(BleSerialEvent::Connect)));
    assert_eq!(st.device_name(), Some("uart".to_string()));
    assert_eq!(st.baud_rate(), Some(115200));
    let s = sup.step(&mut st, LinkEvent::SourceClosed);
    assert!(s.emit.is_none() && matches!(s.action, Action::OpenSession));
    assert!(matches!(sup.phase(), Phase::Idle));
    assert_eq!(st.device_name(), Some("uart".to_string()));
    let s = connect(&mut sup, &mut st, "uart");
    assert!(matches!(s.emit, Some(BleSerialEvent::Connect)));
    // the Disconnect came with the opening of the second session
    let mut sup2 = Supervisor::new();
    let mut st2: SerialState<()> = SerialState::new("AA_BB_CC");
    connect(&mut sup2, &mut st2, "u2");
    sup2.step(&mut st2, LinkEvent::Item(BleHdlMsg::Timer));
    let s = sup2.step(&mut st2, LinkEvent::LinkStatus(false));
    assert!(matches!(s.action, Action::OpenSession));
    let s = sup2.step(&mut st2, LinkEvent::SessionOpened);
    assert!(matches!(s.emit, Some(BleSerialEvent::Disconnect)));
    assert_eq!(st2.device_name(), None);
    assert!(!st2.is_connected());
    assert_eq!(st2.baud_rate(), None);
    let s = sup2.step(&mut st2, LinkEvent::Slept);
    assert!(s.emit.is_none());
}

#[test]
fn unnamed_device_is_unknown() {
    let mut st: SerialState<()> = SerialState::new("AA_BB_CC");
    let mut sup = Supervisor::new();
    st.replace_channel(());
    let mut sup_connect = |ev: LinkEvent| sup.step(&mut st, ev);
    for ev in [
        LinkEvent::SessionOpened,
        LinkEvent::Slept,
        LinkEvent::ScanStarted(true),
        LinkEvent::Slept,
        LinkEvent::ScanPolled(vec!["aa_bb_cc".to_string()]),
        LinkEvent::Connected(true),
        LinkEvent::Discovered(Some(vec![UUID_CHAR_WRITE, UUID_CHAR_BAUD, UUID_CHAR_READ])),
        baud_reading(9600),
        LinkEvent::NotifyEnabled(true),
        LinkEvent::Subscribed(true),
    ] {
        sup_connect(ev);
    }
    sup_connect(LinkEvent::NameResolved(None));
    assert_eq!(st.device_name(), Some("unknown".to_string()));
}

#[test]
fn shutdown_mid_scan_is_terminal_and_silent() {
    let mut st: SerialState<()> = SerialState::new("AA_BB_CC");
    let mut sup = Supervisor::new();
    sup.step(&mut st, LinkEvent::SessionOpened);
    sup.step(&mut st, LinkEvent::Slept);
    sup.step(&mut st, LinkEvent::ScanStarted(true));
    let s = sup.step(&mut st, LinkEvent::Item(BleHdlMsg::ReqDrop));
    assert!(s.emit.is_none() && matches!(s.action, Action::Stop));
    assert!(matches!(sup.phase(), Phase::ShutDown));
    for ev in [
        LinkEvent::Slept,
        LinkEvent::SessionOpened,
        LinkEvent::Item(BleHdlMsg::ReadNotify(vec![1])),
        LinkEvent::NameResolved(Some("x".to_string())),
    ] {
        let s = sup.step(&mut st, ev);
        assert!(s.emit.is_none() && matches!(s.action, Action::Stop));
    }
    assert_eq!(st.drain_read_buf(), Vec::<u8>::new());
    assert!(!st.is_connected());
}

#[test]
fn scan_gives_up_after_ten_polls() {
    let mut st: SerialState<()> = SerialState::new("AA_BB_CC");
    let mut sup = Supervisor::new();
    sup.step(&mut st, LinkEvent::SessionOpened);
    sup.step(&mut st, LinkEvent::Slept);
    sup.step(&mut st, LinkEvent::ScanStarted(true));
    for k in 0..10 {
        let s = sup.step(&mut st, LinkEvent::Slept);
        assert!(matches!(s.action, Action::CollectScan));
        let s = sup.step(&mut st, LinkEvent::ScanPolled(vec!["other".to_string()]));
        if k < 9 {
            assert!(matches!(s.action, Action::Sleep(1000)));
        } else {
            assert!(matches!(s.action, Action::OpenSession));
        }
    }
}

#[test]
fn setup_failures_restart_the_cycle() {
    let mut st: SerialState<()> = SerialState::new("AA");
    let mut sup = Supervisor::new();
    sup.step(&mut st, LinkEvent::SessionOpened);
    sup.step(&mut st, LinkEvent::Slept);
    assert!(matches!(sup.step(&mut st, LinkEvent::ScanStarted(false)).action, Action::OpenSession));
    sup.step(&mut st, LinkEvent::SessionOpened);
    sup.step(&mut st, LinkEvent::Slept);
    sup.step(&mut st, LinkEvent::ScanStarted(true));
    sup.step(&mut st, LinkEvent::Slept);
    sup.step(&mut st, LinkEvent::ScanPolled(vec!["aa".to_string()]));
    sup.step(&mut st, LinkEvent::Connected(true));
    let s = sup.step(&mut st, LinkEvent::Discovered(Some(vec![UUID_CHAR_BAUD, UUID_CHAR_READ])));
    assert!(matches!(s.action, Action::OpenSession));
    assert!(sup.characteristics().is_none());
}

#[test]
fn baud_check_retries_three_reads() {
    let mut st: SerialState<()> = SerialState::new("AA");
    let mut sup = Supervisor::new();
    for ev in [
        LinkEvent::SessionOpened,
        LinkEvent::Slept,
        LinkEvent::ScanStarted(true),
        LinkEvent::Slept,
        LinkEvent::ScanPolled(vec!["aa".to_string()]),
        LinkEvent::Connected(true),
        LinkEvent::Discovered(Some(vec![UUID_CHAR_BAUD, UUID_CHAR_READ, UUID_CHAR_WRITE])),
    ] {
        sup.step(&mut st, ev);
    }
    assert_eq!(sup.characteristics().map(|c| (c.baud, c.read, c.write)), Some((0, 1, 2)));
    assert!(matches!(sup.step(&mut st, LinkEvent::BaudRead(None)).action, Action::ReadBaud));
    assert!(matches!(sup.step(&mut st, LinkEvent::BaudRead(Some(vec![1, 2]))).action, Action::ReadBaud));
    assert!(matches!(sup.step(&mut st, LinkEvent::BaudRead(None)).action, Action::OpenSession));
    assert_eq!(st.last_baud(), DEFAULT_BAUD);
}

#[test]
fn set_baud_flow() {
    let mut st: SerialState<()> = SerialState::new("AA_BB_CC");
    let mut sup = Supervisor::new();
    connect(&mut sup, &mut st, "uart");
    assert!(matches!(st.set_baud_request(0), Err(Some(115200))));
    assert!(matches!(st.set_baud_request(9600), Ok(BleHdlMsg::ReqSetBaud(9600))));
    let s = sup.step(&mut st, LinkEvent::Item(BleHdlMsg::ReqSetBaud(9600)));
    assert!(matches!(s.action, Action::WriteBaud(ref b) if *b == vec![0x80, 0x25, 0, 0]));
    assert!(matches!(sup.step(&mut st, LinkEvent::BaudWritten(false)).action, Action::WriteBaud(_)));
    assert!(matches!(sup.step(&mut st, LinkEvent::BaudWritten(true)).action, Action::ReadBaud));
    // an unacceptable reading waits and reads again
    assert!(matches!(sup.step(&mut st, baud_reading(115200)).action, Action::Sleep(400)));
    assert!(matches!(sup.step(&mut st, LinkEvent::Slept).action, Action::ReadBaud));
    assert!(matches!(st.set_baud_poll(9600, 1), BaudWait::Wait));
    assert!(matches!(st.set_baud_poll(9600, 10), BaudWait::GiveUp(Some(115200))));
    let s = sup.step(&mut st, baud_reading(9610));
    assert!(s.emit.is_none() && matches!(s.action, Action::AwaitItem));
    assert_eq!(st.baud_rate(), Some(9610));
    assert!(matches!(st.set_baud_poll(9600, 1), BaudWait::Settled(9610)));
    assert!(matches!(st.set_baud_poll(9600, 10), BaudWait::Settled(9610)));
}

#[test]
fn set_baud_gives_up_after_ten_readings() {
    let mut st: SerialState<()> = SerialState::new("AA_BB_CC");
    let mut sup = Supervisor::new();
    connect(&mut sup, &mut st, "uart");
    sup.step(&mut st, LinkEvent::Item(BleHdlMsg::ReqSetBaud(9600)));
    sup.step(&mut st, LinkEvent::BaudWritten(true));
    for k in 0..10 {
        let s = sup.step(&mut st, baud_reading(4800));
        assert!(matches!(s.action, Action::Sleep(400)));
        let s = sup.step(&mut st, LinkEvent::Slept);
        if k < 9 {
            assert!(matches!(s.action, Action::ReadBaud));
        } else {
            assert!(matches!(s.action, Action::AwaitItem));
        }
    }
    assert_eq!(st.baud_rate(), Some(115200));
    assert!(matches!(sup.phase(), Phase::Active));
}

#[test]
fn write_failure_after_three_attempts() {
    let mut st: SerialState<()> = SerialState::new("AA_BB_CC");
    let mut sup = Supervisor::new();
    connect(&mut sup, &mut st, "uart");
    let s = sup.step(&mut st, LinkEvent::Item(BleHdlMsg::ReqWrite(vec![5, 6])));
    assert!(matches!(s.action, Action::WriteData(ref d) if *d == vec![5, 6]));
    assert!(matches!(sup.step(&mut st, LinkEvent::DataWritten(false)).action, Action::WriteData(_)));
    assert!(matches!(sup.step(&mut st, LinkEvent::DataWritten(false)).action, Action::WriteData(_)));
    let s = sup.step(&mut st, LinkEvent::DataWritten(false));
    assert!(matches!(s.emit, Some(BleSerialEvent::WriteFailed(ref d)) if *d == vec![5, 6]));
    assert!(matches!(s.action, Action::AwaitItem));
    let s = sup.step(&mut st, LinkEvent::Item(BleHdlMsg::ReqWrite(vec![1])));
    assert!(matches!(s.action, Action::WriteData(_)));
    let s = sup.step(&mut st, LinkEvent::DataWritten(true));
    assert!(s.emit.is_none() && matches!(s.action, Action::AwaitItem));
}

#[test]
fn channel_bookkeeping() {
    let mut st: SerialState<u8> = SerialState::new("AA");
    assert_eq!(st.dev_addr(), "AA");
    assert!(st.channel().is_none());
    st.replace_channel(4);
    assert_eq!(st.channel(), Some(&4));
    assert_eq!(st.take_channel(), Some(4));
    assert_eq!(st.take_channel(), None);
    assert_eq!(st.baud_rate(), None);
    assert_eq!(st.last_baud(), 9600);
    assert!(matches!(st.set_baud_request(9600), Err(None)));
}

#[test]
fn address_validation() {
    assert!(valid_address("AA:BB:CC:DD:EE:FF"));
    assert!(!valid_address(""));
}

#[test]
fn set_baud_poll_without_session() {
    let st: SerialState<()> = SerialState::new("AA");
    assert_eq!(SET_BAUD_POLLS, 10);
    assert!(matches!(st.set_baud_poll(4800, 3), BaudWait::Wait));
    assert!(matches!(st.set_baud_poll(4800, 10), BaudWait::GiveUp(None)));
    assert!(matches!(st.set_baud_poll(9600, 10), BaudWait::Settled(9600)));
}

#[test]
fn run_alternates_connect_and_disconnect() {
    let mut st: SerialState<()> = SerialState::new("AA_BB_CC");
    st.replace_channel(());
    let mut sup = Supervisor::new();
    let session = || {
        vec![
            LinkEvent::SessionOpened,
            LinkEvent::Slept,
            LinkEvent::ScanStarted(true),
            LinkEvent::Slept,
            LinkEvent::ScanPolled(vec!["dev_aa_bb_cc".to_string()]),
            LinkEvent::Connected(true),
            LinkEvent::Discovered(Some(vec![UUID_CHAR_BAUD, UUID_CHAR_READ, UUID_CHAR_WRITE])),
            baud_reading(9600),
            LinkEvent::NotifyEnabled(true),
            LinkEvent::Subscribed(true),
            LinkEvent::NameResolved(Some("uart".to_string())),
            LinkEvent::Item(BleHdlMsg::ReadNotify(vec![1])),
            LinkEvent::SourceClosed,
        ]
    };
    let mut events = session();
    events.extend(session());
    let steps = sup.run(&mut st, events);
    let kinds: Vec<&str> = steps
        .iter()
        .filter_map(|s| match s.emit {
            Some(BleSerialEvent::Connect) => Some("C"),
            Some(BleSerialEvent::Disconnect) => Some("D"),
            _ => None,
        })
        .collect();
    assert_eq!(kinds, vec!["C", "D", "C"]);
    assert_eq!(st.device_name(), Some("uart".to_string()));
    assert_eq!(st.drain_read_buf(), vec![1, 1]);
}

#[test]
fn session_open_without_name_emits_nothing() {
    let mut st: SerialState<()> = SerialState::new("AA");
    let mut sup = Supervisor::new();
    let s = sup.step(&mut st, LinkEvent::SessionOpened);
    assert!(s.emit.is_none());
}
