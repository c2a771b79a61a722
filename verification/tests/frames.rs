use ln8000_kmdf::battery::{
    after_data_block, after_device_control, after_system_control, query_information,
    set_information, Battery, Dispatch,
};
use ln8000_kmdf::crash::{crash_words, file_hash};
use ln8000_kmdf::exchange::Reply;
use ln8000_kmdf::hub::resource_hub_path;
use ln8000_kmdf::ioctl::{
    ctl_code, Ln8000ChargeRequest, Ln8000HvdcpRequest, Ln8000LimitsRequest, Ln8000ModeRequest,
    Ln8000RegRequest, Ln8000Sample, Ln8000SamplesRequest, Ln8000Sessions, Ln8000Status,
    IOCTL_LN8000_GET_STATUS, LN8000_STATUS_MAGIC,
};
use ln8000_kmdf::names::{
    ascii_utf16, set_registry_path, utf16_lit, value_name, widen, REASON_TEXT, SDDL_TEXT,
    SYMLINK_NAME,
};
use ln8000_kmdf::session::{Event, Session};
use ln8000_kmdf::spb::{buffer_format, entry_offset, transfer_count, BusErrorKind, SpbBus};
use ln8000_kmdf::spb_abi::{entry_init, SpbTransferList, SPB_DIRECTION_TO_DEVICE};
use ln8000_kmdf::superuser::{
    probe_superuser_apsd, superuser_addr_enc, transferable, SuperuserBus,
};
use ln8000_kmdf::wdf::{
    exchange, parent_attach_probe, parent_sequence_probe, probe_named_target, Object, WdfOp,
};
use ln8000_kmdf::wire::{get_u32, put_u32, signed_word, word_signed};

type Log = Vec<Event<WdfOp>>;

/// A framework on which everything works; memory reads give `0x42`.
fn calm(op: WdfOp) -> Reply {
    match op {
        WdfOp::TargetParent | WdfOp::Send(_) => Reply::Flag(true),
        WdfOp::TakeByte(_, _) => Reply::Octet(0x42),
        WdfOp::TakeWord(_, at) => Reply::Word(0x100 + at as u32),
        WdfOp::TargetCreate
        | WdfOp::TargetOpen { .. }
        | WdfOp::RequestCreate
        | WdfOp::MemoryCreate(_, _)
        | WdfOp::ViewCreate(_, _)
        | WdfOp::Format(_, _, _)
        | WdfOp::Completed => Reply::Status(0),
        _ => Reply::Done,
    }
}

fn drive<R>(
    answer: &dyn Fn(WdfOp) -> Option<Reply>,
    run: &dyn Fn(&mut Session<WdfOp>) -> R,
) -> (R, Log) {
    let mut replies: Vec<Reply> = Vec::new();
    loop {
        let mut io = Session::new(replies.clone());
        let result = run(&mut io);
        match io.pending() {
            Some(op) => replies.push(answer(op).unwrap_or_else(|| calm(op))),
            None => return (result, io.log().clone()),
        }
    }
}

fn as_is(_: WdfOp) -> Option<Reply> {
    None
}

fn count(log: &Log, wanted: &str) -> usize {
    log.iter()
        .filter(|event| match event {
            Event::Did(op) => format!("{op:?}").starts_with(wanted),
            _ => false,
        })
        .count()
}

// -- blocks ----------------------------------------------------------------------------

#[test]
fn blocks_have_their_sizes() {
    assert_eq!(Ln8000Status::default().encode().len(), 64);
    assert_eq!(Ln8000RegRequest::default().encode().len(), 8);
    assert_eq!(Ln8000LimitsRequest::default().encode().len(), 16);
    assert_eq!(Ln8000ModeRequest::default().encode().len(), 8);
    assert_eq!(Ln8000ChargeRequest::default().encode().len(), 8);
    assert_eq!(Ln8000Sessions::default().encode().len(), 48);
    assert_eq!(Ln8000Sample::default().encode().len(), 32);
    assert_eq!(Ln8000SamplesRequest::default().encode().len(), 40);
    assert_eq!(Ln8000HvdcpRequest::default().encode().len(), 20);
}

#[test]
fn status_carries_its_magic() {
    let mut status = Ln8000Status::default();
    status.magic = LN8000_STATUS_MAGIC;
    status.version = 1;
    status.last_error = -2;
    let bytes = status.encode();
    assert_eq!(&bytes[56..60], &[0xFE, 0xFF, 0xFF, 0xFF]);
    assert_eq!(get_u32(&bytes, 0), LN8000_STATUS_MAGIC);
    assert_eq!(bytes[4], 1);
    assert_eq!(ctl_code(0x810, 0, 0), IOCTL_LN8000_GET_STATUS);
    assert_eq!(ctl_code(0x811, 3, 1), 0x0022_6047);
}

#[test]
fn register_block_round_trips() {
    let block = Ln8000RegRequest { addr: 7, value: 9, reserved: [1, 2], error_code: -5 };
    let bytes = block.encode();
    assert_eq!(bytes, vec![7, 9, 1, 2, 0xFB, 0xFF, 0xFF, 0xFF]);
    let back = Ln8000RegRequest::decode(&bytes).unwrap();
    assert_eq!((back.addr, back.value, back.error_code), (7, 9, -5));
    assert!(Ln8000RegRequest::decode(&bytes[..7]).is_none());
}

#[test]
fn other_blocks_round_trip() {
    let limits =
        Ln8000LimitsRequest { iin_ua: 1, vbat_uv: 2, applied_iin_ua: 3, error_code: -4 };
    let back = Ln8000LimitsRequest::decode(&limits.encode()).unwrap();
    assert_eq!(back.encode(), limits.encode());
    assert_eq!((back.iin_ua, back.vbat_uv), (1, 2));
    let mode = Ln8000ModeRequest { mode: 3, applied_mode: 2, reserved: [0, 0], error_code: 1 };
    let back = Ln8000ModeRequest::decode(&mode.encode()).unwrap();
    assert_eq!((back.mode, back.applied_mode, back.error_code), (3, 2, 1));
    let charge =
        Ln8000ChargeRequest { on: 1, applied_mode: 3, sys_sts: 4, reserved: 0, error_code: -2 };
    let back = Ln8000ChargeRequest::decode(&charge.encode()).unwrap();
    assert_eq!((back.on, back.sys_sts, back.error_code), (1, 4, -2));
}

#[test]
fn words_keep_their_sign() {
    assert_eq!(signed_word(-1), 0xFFFF_FFFF);
    assert_eq!(word_signed(0xFFFF_FFFE), -2);
    let mut out = Vec::new();
    put_u32(&mut out, 0x0403_0201);
    assert_eq!(out, vec![1, 2, 3, 4]);
    assert_eq!(get_u32(&out, 0), 0x0403_0201);
}

// -- names -----------------------------------------------------------------------------

fn text(units: &[u16]) -> String {
    units.iter().filter(|u| **u != 0).map(|u| char::from(*u as u8)).collect()
}

#[test]
fn names_are_widened() {
    assert_eq!(text(&utf16_lit(SYMLINK_NAME)), "\\DosDevices\\nabu_ln8000");
    assert_eq!(text(&ascii_utf16(SDDL_TEXT)), "D:P(A;;GA;;;SY)(A;;GA;;;BA)");
    assert_eq!(text(&widen(REASON_TEXT)), "nabu ln8000 charge pump");
    let name = value_name("SuMode").unwrap();
    assert_eq!(name.length, 12);
    assert_eq!(text(&name.chars), "SuMode");
    assert!(value_name("").is_none());
    let long = value_name("a name that is longer than its thirty-two units").unwrap();
    assert_eq!(long.length, 64);
}

#[test]
fn registry_path_is_terminated() {
    let kept = set_registry_path(&[0x41, 0x42]).unwrap();
    assert_eq!(kept.chars, vec![0x41, 0x42, 0]);
    assert_eq!((kept.length, kept.maximum_length), (4, 6));
    let long = set_registry_path(&[0x41; 400]).unwrap();
    assert_eq!(long.chars.len(), 260);
    assert_eq!(long.chars[259], 0);
    assert!(set_registry_path(&[]).is_none());
}

#[test]
fn hub_path_ends_with_the_id() {
    let path = resource_hub_path(0x0123_4567_89AB_CDEF);
    assert_eq!(text(&path.units()), "\\Device\\RESOURCE_HUB\\0123456789abcdef");
    assert_eq!(path.byte_length(), 74);
    assert_eq!(&path.as_ascii()[..7], b"\\Device");
    assert_ne!(resource_hub_path(1).units(), resource_hub_path(2).units());
}

#[test]
fn crash_carries_its_place() {
    assert_eq!(file_hash(""), 0x811C_9DC5);
    assert_eq!(file_hash("a"), 0xE40C_292C);
    let words = crash_words(Some((10, 20, "a")));
    assert_eq!(&words[1..], &[10, 20, 0xE40C_292C]);
    let nowhere = crash_words(None);
    assert_eq!(nowhere[0], words[0]);
    assert_eq!(&nowhere[1..], &[0, 0, 0]);
}

// -- battery class ---------------------------------------------------------------------

#[test]
fn class_requests_are_dispatched() {
    assert_eq!(after_device_control(None), Dispatch::Forward);
    assert_eq!(after_device_control(Some(0)), Dispatch::Finished(0));
    assert_eq!(after_device_control(Some(-1_073_741_637)), Dispatch::Forward);
    assert_eq!(after_system_control(Some((5, 0))), Dispatch::Finished(5));
    assert_eq!(after_system_control(Some((5, 1))), Dispatch::Complete(5));
    assert_eq!(after_system_control(Some((5, 2))), Dispatch::Forward);
    assert_eq!(after_data_block(false, Some(0)), Dispatch::Finished(-1_073_741_789));
    assert_eq!(after_data_block(true, None), Dispatch::Complete(-1_073_741_163));
    assert_eq!(set_information(), -1_073_741_808);
}

#[test]
fn battery_tells_what_it_is() {
    let battery = Battery { tag: 1, ..Battery::new() };
    let info = query_information(&battery, 1, 0, 36);
    assert_eq!(info.status, 0);
    assert_eq!(&info.bytes[8..12], b"LION");
    let short = query_information(&battery, 1, 0, 35);
    assert_eq!((short.status, short.needed), (-1_073_741_789, Some(36)));
    let name = query_information(&battery, 1, 4, 100);
    assert_eq!(name.bytes.len(), 24);
    assert_eq!(&name.bytes[..4], &[b'N', 0, b'a', 0]);
    assert_eq!(query_information(&battery, 2, 0, 36).status, -1_073_741_810);
    assert_eq!(query_information(&battery, 1, 99, 36).status, -1_073_741_808);
}

// -- transfer lists --------------------------------------------------------------------

#[test]
fn transfer_lists_have_their_sizes() {
    assert_eq!(SpbTransferList::header_size(), 48);
    assert_eq!(SpbTransferList::entry_size(), 32);
    assert_eq!(SpbTransferList::area_size(1), 48);
    assert_eq!(SpbTransferList::area_size(3), 112);
    assert_eq!(transfer_count(true, false), 1);
    assert_eq!(transfer_count(false, false), 2);
    assert_eq!(transfer_count(false, true), 3);
    assert!(entry_offset(2) + SpbTransferList::entry_size() <= SpbTransferList::area_size(3));
    assert_eq!(buffer_format(0), 1);
    assert_eq!(buffer_format(1), 3);
    let entry = entry_init(SPB_DIRECTION_TO_DEVICE, Some(4), 2);
    assert_eq!(entry.direction, SPB_DIRECTION_TO_DEVICE);
}

// -- lines -----------------------------------------------------------------------------

#[test]
fn line_reads_a_register() {
    let (value, log) = drive(&as_is, &|io| {
        let mut bus = SpbBus::open(io, 7, true).ok()?;
        let value = bus.transact(io, 0x30, None).ok()?;
        bus.close(io);
        Some(value)
    });
    assert_eq!(value, Some(0x42));
    assert!(log.iter().any(|e| matches!(e, Event::Did(WdfOp::PutByte(Object::Data, 0, 0x30)))));
    assert!(log.iter().any(|e| matches!(e, Event::Did(WdfOp::TakeByte(Object::Data, 1)))));
    assert!(matches!(log.last(), Some(Event::Did(WdfOp::TargetClose))));
}

#[test]
fn line_writes_a_wide_address_in_both_orders() {
    let run = |big_endian: bool| {
        let (result, log) = drive(&as_is, &|io| {
            let mut bus = SpbBus::open(io, 7, true).ok()?;
            bus.transact_spmi16(io, 0x1307, Some(0x55), big_endian).ok()
        });
        assert_eq!(result, Some(0));
        log.iter()
            .filter_map(|event| match event {
                Event::Did(WdfOp::PutByte(Object::Data, at, byte)) => Some((*at, *byte)),
                _ => None,
            })
            .collect::<Vec<(usize, u8)>>()
    };
    assert_eq!(run(true), vec![(0, 0x13), (1, 0x07), (2, 0x55)]);
    assert_eq!(run(false), vec![(0, 0x07), (1, 0x13), (2, 0x55)]);
}

#[test]
fn lost_request_is_never_sent_again() {
    let lost = |op: WdfOp| match op {
        WdfOp::Send(_) => Some(Reply::Flag(false)),
        _ => None,
    };
    let (kinds, log) = drive(&lost, &|io| {
        let mut bus = SpbBus::open(io, 7, false).ok()?;
        let first = bus.transact(io, 1, None).err()?;
        let second = bus.transact(io, 1, None).err()?;
        Some((first.kind, second.kind, bus.last_status(), bus.attach(io), bus.lock_connection(io)))
    });
    assert_eq!(kinds, Some((BusErrorKind::Timeout, BusErrorKind::Timeout, -1, -1, -1)));
    assert_eq!(count(&log, "Send"), 1);
}

#[test]
fn every_unanswered_request_is_lost() {
    let lost = |op: WdfOp| match op {
        WdfOp::Send(_) => Some(Reply::Flag(false)),
        _ => None,
    };
    let first = |which: u8| {
        drive(&lost, &move |io| {
            let mut bus = SpbBus::open(io, 7, false).ok()?;
            let status = match which {
                0 => bus.attach(io),
                1 => bus.lock_connection(io),
                2 => bus.probe_ioctl(io, 0x1234),
                _ => {
                    let err = bus.transact_spmi16(io, 0x1307, None, true).err()?;
                    if err.kind == BusErrorKind::Timeout {
                        -1
                    } else {
                        0
                    }
                }
            };
            let later = bus.transact_spmi16(io, 0x1307, None, true).err()?;
            Some((status, bus.request_lost, bus.last_status(), later.kind))
        })
    };
    for which in 0..4 {
        let (seen, log) = first(which);
        assert_eq!(seen, Some((-1, true, -1, BusErrorKind::Timeout)));
        assert_eq!(count(&log, "Send"), 1);
    }
}

#[test]
fn line_failures_have_their_kinds() {
    let fail = |name: &'static str| {
        let answer = move |op: WdfOp| {
            if format!("{op:?}").starts_with(name) {
                Some(Reply::Status(-8))
            } else {
                None
            }
        };
        drive(&answer, &|io| match SpbBus::open(io, 7, true) {
            Err(err) => Some(err.kind),
            Ok(mut bus) => bus.transact(io, 1, None).err().map(|err| err.kind),
        })
        .0
    };
    assert_eq!(fail("TargetOpen"), Some(BusErrorKind::Io));
    assert_eq!(fail("RequestCreate"), Some(BusErrorKind::Unsupported));
    assert_eq!(fail("Format"), Some(BusErrorKind::Protocol));
    assert_eq!(fail("Completed"), Some(BusErrorKind::Io));
}

#[test]
fn attach_keeps_its_words() {
    let (words, _) = drive(&as_is, &|io| {
        let mut bus = SpbBus::open(io, 7, false).ok()?;
        let status = bus.attach(io);
        Some((status, bus.attach_word(0), bus.attach_word(3), bus.attach_word(4)))
    });
    assert_eq!(words, Some((0, 0x100, 0x10C, 0)));
}

// -- superuser node --------------------------------------------------------------------

#[test]
fn superuser_addresses_are_encoded() {
    assert_ne!(superuser_addr_enc(2, 0x1307), superuser_addr_enc(3, 0x1307));
    assert_ne!(superuser_addr_enc(2, 0x1307), superuser_addr_enc(2, 0x1308));
    assert!(transferable(1) && transferable(255));
    assert!(!transferable(0) && !transferable(256));
}

#[test]
fn superuser_reads_and_writes() {
    let (read, log) = drive(&as_is, &|io| {
        let mut bus = SuperuserBus::open(io).ok()?;
        bus.grant(io, 0x13).ok()?;
        let read = bus.read_u8(io, 2, 0x1307);
        let written = bus.write_u8(io, 2, 0x1343, 0x08);
        bus.close(io);
        Some((read, written))
    });
    assert_eq!(read, Some((Ok(0x42), Ok(()))));
    assert_eq!(count(&log, "RequestCreate"), 3);
    assert_eq!(count(&log, "Delete(Request)"), 3);
    assert_eq!(count(&log, "Delete(Target)"), 1);
}

#[test]
fn superuser_refuses_odd_lengths() {
    let (refused, log) = drive(&as_is, &|io| {
        let mut bus = SuperuserBus::open(io).ok()?;
        Some(bus.write_bytes(io, 2, 0x1307, &[]))
    });
    assert_eq!(refused, Some(Err(-1_073_741_811)));
    assert_eq!(count(&log, "RequestCreate"), 0);
}

#[test]
fn superuser_that_does_not_open_is_deleted() {
    let shut = |op: WdfOp| match op {
        WdfOp::TargetOpen { .. } => Some(Reply::Status(-4)),
        _ => None,
    };
    let (status, log) = drive(&shut, &|io| SuperuserBus::open(io).map(|_| ()));
    assert_eq!(status, Err(-4));
    assert_eq!(count(&log, "Delete(Target)"), 1);
    let (probe, log) = drive(&shut, &|io| probe_superuser_apsd(io));
    assert_eq!(probe.open_status, -4);
    assert_eq!(count(&log, "Delete(Target)"), 1);
    let (probe, log) = drive(&as_is, &|io| probe_superuser_apsd(io));
    assert_eq!((probe.read_status, probe.value), (0, 0x42));
    assert_eq!(count(&log, "Delete(Target)"), 1);
}

// -- single requests -------------------------------------------------------------------

#[test]
fn exchange_deletes_what_it_created() {
    let run = |name: &'static str| {
        let answer = move |op: WdfOp| {
            if format!("{op:?}").starts_with(name) {
                Some(Reply::Status(-6))
            } else {
                None
            }
        };
        let (r, log) = drive(&answer, &|io| {
            let r = exchange(io, 0x85B5_240C, &[1, 2, 3], 2);
            (r.made, r.status, r.output)
        });
        let created = count(&log, "RequestCreate") + count(&log, "MemoryCreate");
        let failed = usize::from(name.contains("Create"));
        assert_eq!(created - failed, count(&log, "Delete"));
        r
    };
    assert_eq!(run("nothing"), (true, 0, vec![0x42, 0x42]));
    assert_eq!(run("RequestCreate"), (false, -6, vec![]));
    assert_eq!(run("MemoryCreate(Input"), (false, -6, vec![]));
    assert_eq!(run("MemoryCreate(Output"), (false, -6, vec![]));
    assert_eq!(run("Format"), (true, -6, vec![]));
    assert_eq!(run("Completed"), (true, -6, vec![]));
}

#[test]
fn parent_probes_report_a_missing_parent() {
    let orphan = |op: WdfOp| match op {
        WdfOp::TargetParent => Some(Reply::Flag(false)),
        _ => None,
    };
    assert_eq!(drive(&orphan, &|io| parent_attach_probe(io)).0, -3);
    assert_eq!(drive(&orphan, &|io| parent_sequence_probe(io, 0)).0, -3);
}

/// The log from its first published value on.
fn published(log: &Log) -> Vec<String> {
    log.iter()
        .skip_while(|event| !matches!(event, Event::Mark(_, _)))
        .map(|event| match event {
            Event::Did(op) => format!("{op:?}"),
            Event::Mark(name, value) => format!("{name}={value:#x}"),
            _ => String::new(),
        })
        .collect()
}

#[test]
fn parent_probes_publish_before_they_delete() {
    let (status, log) = drive(&as_is, &|io| parent_sequence_probe(io, 0));
    assert_eq!(status, 0);
    assert_eq!(
        published(&log),
        vec!["ParSeqValue=0x42", "Delete(Request)", "Delete(Area)", "Delete(Data)"]
    );
    let (status, log) = drive(&as_is, &|io| parent_attach_probe(io));
    assert_eq!(status, 0);
    assert_eq!(
        published(&log),
        vec![
            "Par0=0x100",
            "TakeWord(AttachOut, 4)",
            "Par1=0x104",
            "TakeWord(AttachOut, 8)",
            "Par2=0x108",
            "TakeWord(AttachOut, 12)",
            "Par3=0x10c",
            "Delete(Request)",
            "Delete(AttachIn)",
            "Delete(AttachOut)",
        ]
    );
    let refused = |op: WdfOp| match op {
        WdfOp::Completed => Some(Reply::Status(-6)),
        _ => None,
    };
    let (status, log) = drive(&refused, &|io| parent_attach_probe(io));
    assert_eq!(status, -6);
    assert!(published(&log).is_empty());
    assert_eq!(count(&log, "Delete"), 3);
    let (status, log) = drive(&refused, &|io| parent_sequence_probe(io, 0));
    assert_eq!(status, -6);
    assert!(published(&log).is_empty());
}

#[test]
fn input_is_written_before_the_output_is_made() {
    let (_, log) = drive(&as_is, &|io| exchange(io, 0x85B5_240C, &[1, 2], 1).status);
    let place = |wanted: &str| {
        log.iter().position(|event| match event {
            Event::Did(op) => format!("{op:?}").starts_with(wanted),
            _ => false,
        })
    };
    let written = place("PutByte(Input, 1, 2)").unwrap();
    assert!(place("MemoryCreate(Input, 2)").unwrap() < written);
    assert!(written < place("MemoryCreate(Output, 1)").unwrap());
    assert!(written < place("Fill(Output, 1, 255)").unwrap());
}

#[test]
fn probe_makes_both_buffers_first() {
    let (_, log) = drive(&as_is, &|io| probe_superuser_apsd(io).value);
    let output = log
        .iter()
        .position(|event| matches!(event, Event::Did(WdfOp::MemoryCreate(Object::Output, 1))))
        .unwrap();
    assert!(matches!(log[output - 1], Event::Did(WdfOp::MemoryCreate(Object::Input, _))));
    assert!(matches!(log[output + 1], Event::Did(WdfOp::PutByte(Object::Input, 0, 0))));
    let full = |op: WdfOp| match op {
        WdfOp::MemoryCreate(Object::Output, _) => Some(Reply::Status(-8)),
        _ => None,
    };
    let (probe, log) = drive(&full, &|io| probe_superuser_apsd(io));
    assert_eq!((probe.grant_status, probe.read_status, probe.value), (0, -8, 0));
    assert_eq!(count(&log, "Delete(Input)"), 2);
    assert_eq!(count(&log, "Delete(Request)"), 2);
    assert_eq!(count(&log, "Delete(Target)"), 1);
}

#[test]
fn named_target_is_opened_and_closed() {
    let (status, log) = drive(&as_is, &|io| probe_named_target(io, "\\Device\\X", 1));
    assert_eq!(status, 0);
    assert_eq!(count(&log, "Delete(Target)"), 1);
    let shut = |op: WdfOp| match op {
        WdfOp::TargetOpen { .. } => Some(Reply::Status(-9)),
        _ => None,
    };
    let (status, log) = drive(&shut, &|io| probe_named_target(io, "\\Device\\X", 1));
    assert_eq!(status, -9);
    assert_eq!(count(&log, "Delete(Target)"), 1);
}
