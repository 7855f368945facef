use fastbootd::cmd::{parse, parse_line};
use fastbootd::session::{
    flash_outcome_reply, getvar_reply, partition_base_dir, Downloader, Effect, NextAction,
    PartitionDir, Session,
};
use fastbootd::FastbootCmd;
use fastbootd::FbReply;

fn reply_bytes(r: FbReply<'_>) -> Vec<u8> {
    r.to_bytes()
}

#[test]
fn parse_download_valid_hex() {
    match parse("download", Some(String::from("00000010"))) {
        Ok(FastbootCmd::Download(size)) => assert_eq!(size, 0x10),
        other => panic!("expected Download, got {:?}", other),
    }
    match parse("download", Some(String::from("1000"))) {
        Ok(FastbootCmd::Download(size)) => assert_eq!(size, 0x1000),
        other => panic!("expected Download, got {:?}", other),
    }
    match parse("download", Some(String::from("ffffffff"))) {
        Ok(FastbootCmd::Download(size)) => assert_eq!(size, 0xffff_ffff),
        other => panic!("expected Download, got {:?}", other),
    }
    match parse("download", Some(String::from("FF"))) {
        Ok(FastbootCmd::Download(size)) => assert_eq!(size, 0xff),
        other => panic!("expected Download, got {:?}", other),
    }
    match parse("download", Some(String::from("+ff"))) {
        Ok(FastbootCmd::Download(size)) => assert_eq!(size, 0xff),
        other => panic!("expected Download, got {:?}", other),
    }
}

#[test]
fn parse_download_invalid() {
    assert_eq!(parse("download", None).unwrap_err(), "Missing size parameter");
    assert_eq!(
        parse("download", Some(String::from("xyz"))).unwrap_err(),
        "Failed to parse size as u32"
    );
    assert_eq!(
        parse("download", Some(String::from(""))).unwrap_err(),
        "Failed to parse size as u32"
    );
    assert_eq!(
        parse("download", Some(String::from("+"))).unwrap_err(),
        "Failed to parse size as u32"
    );
    // one past u32::MAX
    assert_eq!(
        parse("download", Some(String::from("100000000"))).unwrap_err(),
        "Failed to parse size as u32"
    );
    assert_eq!(
        parse("download", Some(String::from("10 "))).unwrap_err(),
        "Failed to parse size as u32"
    );
}

#[test]
fn parse_unknown_verbs() {
    assert_eq!(parse("frobnicate", None).unwrap_err(), "Unknown command");
    assert_eq!(parse("", None).unwrap_err(), "Unknown command");
    assert_eq!(parse("DOWNLOAD", Some(String::from("10"))).unwrap_err(), "Unknown command");
    assert_eq!(parse("getva", Some(String::from("x"))).unwrap_err(), "Unknown command");
}

#[test]
fn parse_argument_verbs() {
    assert!(matches!(
        parse("getvar", Some(String::from("product"))),
        Ok(FastbootCmd::Getvar(p)) if p == "product"
    ));
    assert!(matches!(
        parse("flash", Some(String::from("boot_a"))),
        Ok(FastbootCmd::Flash(p)) if p == "boot_a"
    ));
    assert!(matches!(
        parse("erase", Some(String::from("userdata"))),
        Ok(FastbootCmd::Erase(p)) if p == "userdata"
    ));
    assert_eq!(parse("getvar", None).unwrap_err(), "Missing parameter");
    assert_eq!(parse("getvar", Some(String::from(""))).unwrap_err(), "Missing parameter");
    assert_eq!(parse("flash", None).unwrap_err(), "Missing parameter");
    assert_eq!(parse("erase", None).unwrap_err(), "Missing parameter");
}

#[test]
fn parse_plain_verbs() {
    assert!(matches!(parse("reboot", None), Ok(FastbootCmd::Reboot)));
    assert!(matches!(parse("boot", None), Ok(FastbootCmd::Boot)));
    assert!(matches!(parse("continue", None), Ok(FastbootCmd::Continue)));
    assert!(matches!(parse("upload", None), Ok(FastbootCmd::Upload)));
    assert!(matches!(parse("reboot-bootloader", None), Ok(FastbootCmd::RebootBootloader)));
    // trailing content after the verb is accepted
    assert!(matches!(parse("reboot", Some(String::from("now"))), Ok(FastbootCmd::Reboot)));
}

#[test]
fn parse_line_splits_on_first_colon() {
    assert!(matches!(
        parse_line("getvar:product"),
        Ok(FastbootCmd::Getvar(p)) if p == "product"
    ));
    assert!(matches!(
        parse_line("flash:odd:name"),
        Ok(FastbootCmd::Flash(p)) if p == "odd:name"
    ));
    assert!(matches!(parse_line("continue"), Ok(FastbootCmd::Continue)));
    assert_eq!(parse_line("getvar").unwrap_err(), "Missing parameter");
    assert_eq!(parse_line("nonsense:arg").unwrap_err(), "Unknown command");
}

#[test]
fn getvar_table() {
    assert_eq!(reply_bytes(getvar_reply("version")), b"OKAY0.4");
    assert_eq!(reply_bytes(getvar_reply("product")), b"OKAYfastbootd-rs");
    assert_eq!(reply_bytes(getvar_reply("secure")), b"OKAYno");
    assert_eq!(reply_bytes(getvar_reply("is-userspace")), b"OKAYyes");
    assert_eq!(reply_bytes(getvar_reply("max-download-size")), b"OKAY32768000");
    assert_eq!(reply_bytes(getvar_reply("serialno")), b"FAILunknown variable");
}

#[test]
fn reply_encoding_exact() {
    assert_eq!(FbReply::Okay("done").to_bytes(), b"OKAYdone");
    assert_eq!(FbReply::Info("hello").to_bytes(), b"INFOhello");
    assert_eq!(FbReply::Text("t").to_bytes(), b"TEXTt");
    assert_eq!(FbReply::Fail("oops").to_bytes(), b"FAILoops");
    assert_eq!(FbReply::Data(0x1000).to_bytes(), b"DATA00001000");
    assert_eq!(FbReply::Data(0).to_bytes(), b"DATA00000000");
    assert_eq!(FbReply::Data(0xdeadbeef).to_bytes(), b"DATAdeadbeef");
    assert_eq!(FbReply::Data(u32::MAX).to_bytes(), b"DATAffffffff");
}

#[test]
fn reply_encoding_truncates_at_256() {
    let long = "x".repeat(300);
    let encoded = FbReply::Okay(&long).to_bytes();
    assert_eq!(encoded.len(), 256);
    assert_eq!(&encoded[0..4], b"OKAY");
    assert!(encoded[4..].iter().all(|&b| b == b'x'));

    let info = FbReply::Info(&long).to_bytes();
    assert_eq!(info.len(), 256);
    assert_eq!(&info[0..4], b"INFO");

    let fail = FbReply::Fail(&long).to_bytes();
    assert_eq!(fail.len(), 256);
    assert_eq!(&fail[0..4], b"FAIL");

    // exactly at the ceiling: nothing is lost
    let fit = "y".repeat(252);
    let enc = FbReply::Text(&fit).to_bytes();
    assert_eq!(enc.len(), 256);
    assert_eq!(&enc[0..4], b"TEXT");
}

fn run_download(session: &mut Session, size: u32, chunks: &[&[u8]]) -> (usize, Vec<u8>) {
    let effect = FastbootCmd::Download(size).run(session);
    let (replies, mut dl) = match effect {
        Effect::Transfer(replies, dl) => (replies, dl),
        _ => panic!("download must announce a transfer"),
    };
    for c in chunks {
        dl.push_chunk(c);
    }
    assert!(dl.is_complete());
    let okay = session.finish_download(dl);
    assert_eq!(okay.to_bytes(), b"OKAY");
    (replies.len(), replies.iter().map(|r| r.to_bytes()).collect::<Vec<_>>().concat())
}

#[test]
fn download_accumulation_ignores_chunk_boundaries() {
    let payload: Vec<u8> = (0u8..32).collect();

    let mut s1 = Session::new();
    run_download(&mut s1, 32, &[&payload[0..7], &payload[7..8], &payload[8..32]]);
    let buf1 = s1.take_pending().unwrap();

    let mut s2 = Session::new();
    run_download(&mut s2, 32, &[&payload[..]]);
    let buf2 = s2.take_pending().unwrap();

    assert_eq!(buf1, payload);
    assert_eq!(buf2, payload);
    assert_eq!(buf1.len(), 32);
}

#[test]
fn second_download_warns_once_and_overwrites() {
    let mut session = Session::new();
    let (n_first, bytes_first) = run_download(&mut session, 4, &[&[1, 2, 3, 4]]);
    assert_eq!(n_first, 1);
    assert_eq!(bytes_first, b"DATA00000004");

    // a payload is staged now: the next download warns exactly once
    let (n_second, bytes_second) = run_download(&mut session, 2, &[&[9, 9]]);
    assert_eq!(n_second, 2);
    assert_eq!(
        bytes_second,
        b"INFOOverwriting previously sent dataDATA00000002".as_slice()
    );
    assert_eq!(session.take_pending().unwrap(), vec![9, 9]);
}

#[test]
fn flash_without_payload_fails_and_writes_nothing() {
    let mut session = Session::new();
    let effect = FastbootCmd::Flash(String::from("boot_a")).run(&mut session);
    match effect {
        Effect::Simple(r, act) => {
            assert_eq!(r.to_bytes(), b"FAILNo data sent for writing");
            assert!(act.is_none());
        },
        // no payload leaves the engine: nothing can reach the disk
        _ => panic!("flash without a payload must not hand out a write"),
    }
    assert!(session.take_pending().is_none());
}

#[test]
fn flash_drains_the_staged_payload() {
    let mut session = Session::new();
    run_download(&mut session, 3, &[&[7, 8, 9]]);
    let effect = FastbootCmd::Flash(String::from("boot_a")).run(&mut session);
    match effect {
        Effect::FlashWrite(part, data) => {
            assert_eq!(part, "boot_a");
            assert_eq!(data, vec![7, 8, 9]);
        },
        _ => panic!("flash with a staged payload must hand out the write"),
    }
    // the slot is drained: a second flash finds nothing
    assert!(session.take_pending().is_none());
    assert_eq!(reply_bytes(flash_outcome_reply(true)), b"OKAY");
    assert_eq!(reply_bytes(flash_outcome_reply(false)), b"FAILCouldn't find target partition");
}

#[test]
fn partition_resolution_precedence() {
    assert_eq!(partition_base_dir(true, true, true), Some(PartitionDir::Override));
    assert_eq!(partition_base_dir(true, false, false), Some(PartitionDir::Override));
    assert_eq!(partition_base_dir(false, true, true), Some(PartitionDir::ByPartLabel));
    assert_eq!(partition_base_dir(false, false, true), Some(PartitionDir::ByName));
    assert_eq!(partition_base_dir(false, false, false), None);
}

#[test]
fn unsupported_commands_reply_fail() {
    let mut session = Session::new();
    for cmd in [
        FastbootCmd::Boot,
        FastbootCmd::Upload,
        FastbootCmd::Erase(String::from("userdata")),
        FastbootCmd::RebootBootloader,
    ] {
        match cmd.run(&mut session) {
            Effect::Simple(r, act) => {
                assert_eq!(r.to_bytes(), b"FAILtodo");
                assert!(act.is_none());
            },
            _ => panic!("unsupported commands reply with a single Fail"),
        }
    }
}

#[test]
fn reboot_and_continue_signal_transitions() {
    let mut session = Session::new();
    match FastbootCmd::Reboot.run(&mut session) {
        Effect::Simple(r, act) => {
            assert_eq!(r.to_bytes(), b"OKAY");
            assert_eq!(act, Some(NextAction::Reboot));
        },
        _ => panic!("reboot is a simple command"),
    }
    match FastbootCmd::Continue.run(&mut session) {
        Effect::Simple(r, act) => {
            assert_eq!(r.to_bytes(), b"OKAY");
            assert_eq!(act, Some(NextAction::Continue));
        },
        _ => panic!("continue is a simple command"),
    }
}

#[test]
fn downloader_tracks_completion() {
    let mut dl = Downloader::new(4);
    assert!(!dl.is_complete());
    dl.push_chunk(&[1, 2]);
    assert!(!dl.is_complete());
    dl.push_chunk(&[3, 4]);
    assert!(dl.is_complete());

    // a zero-byte download is complete before any chunk arrives
    let empty = Downloader::new(0);
    assert!(empty.is_complete());
}

#[test]
fn end_to_end_session() {
    let mut session = Session::new();

    // getvar:product
    let cmd = parse_line("getvar:product").unwrap();
    match cmd.run(&mut session) {
        Effect::Simple(r, act) => {
            assert_eq!(r.to_bytes(), b"OKAYfastbootd-rs");
            assert!(act.is_none());
        },
        _ => panic!("getvar is a simple command"),
    }

    // download:00000010, 16 bytes in two chunks
    let cmd = parse_line("download:00000010").unwrap();
    let mut dl = match cmd.run(&mut session) {
        Effect::Transfer(replies, dl) => {
            assert_eq!(replies.len(), 1);
            assert_eq!(replies[0].to_bytes(), b"DATA00000010");
            dl
        },
        _ => panic!("download announces a transfer"),
    };
    let payload: Vec<u8> = (100u8..116).collect();
    dl.push_chunk(&payload[0..10]);
    assert!(!dl.is_complete());
    dl.push_chunk(&payload[10..16]);
    assert!(dl.is_complete());
    assert_eq!(session.finish_download(dl).to_bytes(), b"OKAY");

    // flash:boot_a with a resolvable partition: the engine hands out
    // exactly the staged 16 bytes, and the outcome reply is OKAY
    let cmd = parse_line("flash:boot_a").unwrap();
    match cmd.run(&mut session) {
        Effect::FlashWrite(part, data) => {
            assert_eq!(part, "boot_a");
            assert_eq!(data, payload);
        },
        _ => panic!("flash with a staged payload hands out the write"),
    }
    assert_eq!(flash_outcome_reply(true).to_bytes(), b"OKAY");

    // continue: OKAY, then the loop exits
    let cmd = parse_line("continue").unwrap();
    match cmd.run(&mut session) {
        Effect::Simple(r, act) => {
            assert_eq!(r.to_bytes(), b"OKAY");
            assert_eq!(act, Some(NextAction::Continue));
        },
        _ => panic!("continue is a simple command"),
    }
}
