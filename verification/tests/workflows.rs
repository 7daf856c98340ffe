use modem_console::bridge::{Bridge, RelayOutcome, UartEvent, UartOutcome, PENDING_LIMIT};
use modem_console::bytes::CANCEL_BYTE;
use modem_console::dispatch::Command;
use modem_console::errors::{DeviceError, Error};
use modem_console::fetch::{fetch_continue, fetch_host, fetch_path, fetch_port, fetch_tls_config,
    http_get_request, u16_decimal, TlsVersion, FETCH_CHUNK_SIZE};
use modem_console::stat::{stat_queries, stat_report, StatLine};
use modem_console::steps::{at_fun_next, at_fun_query, classify_fix, on_first_step, on_next_step,
    on_step_request, single_call_request, AtFunStep, FixPoll, OnStep, Request, SECURITY_TAG};

#[test]
fn bridge_idle_cycles_change_nothing() {
    let mut b = Bridge::open();
    for _ in 0..100 {
        assert_eq!(b.on_uart_event(UartEvent::Timeout), UartOutcome::Idle);
        let buf = [0u8; 128];
        assert_eq!(Bridge::on_socket_read(&buf, &Ok(None)), RelayOutcome::Quiet);
    }
    // Still a clean bridge: the next line is exactly what is typed now.
    b.on_uart_event(UartEvent::Byte(b'A'));
    match b.on_uart_event(UartEvent::Byte(b'\r')) {
        UartOutcome::Flush(w) => assert_eq!(w, b"A\r\n".to_vec()),
        other => panic!("expected a flush, got {:?}", other),
    }
}

#[test]
fn bridge_flushes_one_crlf_write_per_line() {
    let mut b = Bridge::open();
    for &byte in b"AT+CEREG?" {
        assert_eq!(b.on_uart_event(UartEvent::Byte(byte)), UartOutcome::Echoed(byte));
    }
    match b.on_uart_event(UartEvent::Byte(b'\n')) {
        UartOutcome::Flush(w) => assert_eq!(w, b"AT+CEREG?\r\n".to_vec()),
        other => panic!("expected a flush, got {:?}", other),
    }
    // The pending line was cleared: a second terminator writes only CRLF.
    match b.on_uart_event(UartEvent::Byte(b'\n')) {
        UartOutcome::Flush(w) => assert_eq!(w, b"\r\n".to_vec()),
        other => panic!("expected a flush, got {:?}", other),
    }
}

#[test]
fn bridge_cancel_always_exits() {
    let mut b = Bridge::open();
    assert_eq!(b.on_uart_event(UartEvent::Byte(CANCEL_BYTE)), UartOutcome::Exit);

    let mut b = Bridge::open();
    for &byte in b"half a line" {
        b.on_uart_event(UartEvent::Byte(byte));
    }
    assert_eq!(b.on_uart_event(UartEvent::Byte(CANCEL_BYTE)), UartOutcome::Exit);
    // The pending content was discarded with the exit.
    match b.on_uart_event(UartEvent::Byte(b'\n')) {
        UartOutcome::Flush(w) => assert_eq!(w, b"\r\n".to_vec()),
        other => panic!("expected a flush, got {:?}", other),
    }
}

#[test]
fn bridge_pending_line_has_a_limit() {
    let mut b = Bridge::open();
    for _ in 0..PENDING_LIMIT {
        assert_eq!(b.on_uart_event(UartEvent::Byte(b'x')), UartOutcome::Echoed(b'x'));
    }
    assert_eq!(b.on_uart_event(UartEvent::Byte(b'y')), UartOutcome::Dropped(b'y'));
    match b.on_uart_event(UartEvent::Byte(b'\r')) {
        UartOutcome::Flush(w) => {
            assert_eq!(w.len(), PENDING_LIMIT + 2);
            assert!(w[..PENDING_LIMIT].iter().all(|&x| x == b'x'));
            assert_eq!(&w[PENDING_LIMIT..], b"\r\n");
        }
        other => panic!("expected a flush, got {:?}", other),
    }
}

#[test]
fn bridge_read_outcomes() {
    let mut b = Bridge::open();
    assert_eq!(b.on_uart_event(UartEvent::ReadFailed), UartOutcome::Abort);
    // A socket answer of n bytes forwards n - 1, dropping the trailing NUL.
    let mut buf = [0u8; 8];
    buf[..5].copy_from_slice(b"OK\r\n\0");
    assert_eq!(
        Bridge::on_socket_read(&buf, &Ok(Some(5))),
        RelayOutcome::Forward(b"OK\r\n".to_vec())
    );
    assert_eq!(
        Bridge::on_socket_read(&buf, &Err(DeviceError { code: -14 })),
        RelayOutcome::Fail(DeviceError { code: -14 })
    );
}

#[test]
fn power_on_runs_all_steps_in_order_on_success() {
    let mut step = Some(on_first_step());
    let mut requests = Vec::new();
    while let Some(s) = step {
        requests.push(on_step_request(s));
        step = on_next_step(s, true);
    }
    assert_eq!(
        requests,
        vec![
            Request::ConfigureGnssAntenna,
            Request::ModemOn,
            Request::OpenGnssSocket,
            Request::SetFixInterval(1),
            Request::SetFixRetry(0),
            Request::SetNmeaMask,
            Request::StartGnss,
        ]
    );
}

#[test]
fn power_on_aborts_at_the_first_failing_step() {
    assert_eq!(on_next_step(OnStep::Antenna, false), None);
    assert_eq!(on_next_step(OnStep::PowerOn, false), None);
    assert_eq!(on_next_step(OnStep::OpenSocket, false), None);
    assert_eq!(on_next_step(OnStep::FixInterval, false), None);
    assert_eq!(on_next_step(OnStep::FixRetry, false), None);
    assert_eq!(on_next_step(OnStep::NmeaMask, false), None);
    assert_eq!(on_next_step(OnStep::Start, true), None);
}

#[test]
fn power_on_failure_midway_stops_the_workflow() {
    // The fix-interval step fails: the retry, mask and start steps never
    // run.
    let mut step = Some(on_first_step());
    let mut requests = Vec::new();
    while let Some(s) = step {
        let req = on_step_request(s);
        requests.push(req);
        let ok = req != Request::SetFixInterval(1);
        step = on_next_step(s, ok);
    }
    assert_eq!(
        requests,
        vec![
            Request::ConfigureGnssAntenna,
            Request::ModemOn,
            Request::OpenGnssSocket,
            Request::SetFixInterval(1),
        ]
    );
}

#[test]
fn single_call_commands_map_to_their_requests() {
    assert_eq!(single_call_request(Command::Flight), Some(Request::ModemFlightMode));
    assert_eq!(single_call_request(Command::Off), Some(Request::ModemOff));
    assert_eq!(single_call_request(Command::Wait), Some(Request::WaitForLte));
    assert_eq!(single_call_request(Command::Store), Some(Request::ProvisionCa(SECURITY_TAG)));
    assert_eq!(single_call_request(Command::On), None);
    assert_eq!(single_call_request(Command::GoAt), None);
}

#[test]
fn fix_outcomes_are_reported_distinctly() {
    assert_eq!(classify_fix::<u32>(&Ok(None)), FixPoll::NoData);
    assert_eq!(classify_fix(&Ok(Some(12345u32))), FixPoll::Obtained);
    assert_eq!(
        classify_fix::<u32>(&Err(DeviceError { code: 5 })),
        FixPoll::Failed(DeviceError { code: 5 })
    );
}

#[test]
fn at_fun_entry_runs_query_first() {
    assert_eq!(at_fun_query(), b"AT+CFUN?".to_vec());
    assert_eq!(at_fun_next(true), AtFunStep::EnterBridge);
    assert_eq!(at_fun_next(false), AtFunStep::Fail);
}

#[test]
fn stat_runs_eleven_queries_in_order() {
    let qs = stat_queries();
    let expected: Vec<&[u8]> = vec![
        b"AT+CFUN?",
        b"AT+CEREG?",
        b"AT%XSNRSQ?",
        b"AT+CESQ",
        b"AT%XTEMP?",
        b"AT+CGCONTRDP=0",
        b"AT+CCLK?",
        b"AT%XMONITOR",
        b"AT+CGDCONT?",
        b"AT+CGPADDR",
        b"AT%XCONNSTAT?",
    ];
    assert_eq!(qs.len(), 11);
    for (q, e) in qs.iter().zip(expected) {
        assert_eq!(q.as_slice(), e);
    }
}

#[test]
fn stat_failure_is_reported_in_place_and_rest_continue() {
    let mut results: Vec<Result<(), DeviceError>> = vec![Ok(()); 11];
    results[4] = Err(DeviceError { code: -60 });
    let lines = stat_report(&results);
    assert_eq!(lines.len(), 11);
    for (i, line) in lines.iter().enumerate() {
        if i == 4 {
            assert_eq!(*line, StatLine::Failed(4, DeviceError { code: -60 }));
        } else {
            assert_eq!(*line, StatLine::Answered(i));
        }
    }
}

#[test]
fn fetch_request_is_the_literal_http_get() {
    let req = http_get_request(&fetch_path(), &fetch_host(), fetch_port());
    let expected = b"GET /todos/1 HTTP/1.1\r\n\
        Host: jsonplaceholder.typicode.com:443\r\n\
        Connection: close\r\n\
        User-Agent: rust/nrf\r\n\
        \r\n";
    assert_eq!(req, expected.to_vec());
}

#[test]
fn fetch_decimal_and_config() {
    assert_eq!(u16_decimal(0), b"0".to_vec());
    assert_eq!(u16_decimal(443), b"443".to_vec());
    assert_eq!(u16_decimal(65535), b"65535".to_vec());
    let c = fetch_tls_config();
    assert_eq!(c.tag, SECURITY_TAG);
    assert!(!c.verify_peer);
    assert_eq!(c.min_version, TlsVersion::V1_3);
}

#[test]
fn fetch_stops_after_a_short_final_chunk() {
    // Full chunks keep the relay going; the short final one ends it.
    assert!(fetch_continue(FETCH_CHUNK_SIZE, FETCH_CHUNK_SIZE));
    assert!(!fetch_continue(FETCH_CHUNK_SIZE - 1, FETCH_CHUNK_SIZE));
    assert!(!fetch_continue(0, FETCH_CHUNK_SIZE));
    // The elapsed time reported beside the result is never negative.
    let ticks: u64 = 1_234_567;
    let seconds = (ticks as f32) / 1_000_000.0;
    assert!(seconds >= 0.0);
}

#[test]
fn device_errors_convert_into_command_errors() {
    let e = Error::from(DeviceError { code: 9 });
    assert_eq!(e, Error::Device(DeviceError { code: 9 }));
}
