//! The reserved system namespace, the patch-bay manager and the relay plan.

use arcflash::config::Options;
use arcflash::extension::patchbay::{
    bay_dir, check_patchbay, file_name, find_fxp, fxp_entries, get_patchbay, get_patchname,
    has_fxp_ext, load_patch, resolve_bay_dir, save_patch,
};
use arcflash::extension::system::{
    arcflash_reply, classify_system, cpu_speed_reply, handle_cpu_speed, system_handler,
    system_load_reply, unknown_reply, LoadText, SysCommand, SysOutcome,
};
use arcflash::extension::TranslationError;
use arcflash::handler::{packet_sorter, MessagePlan};
use arcflash::labeler::LabeledMessage;
use arcflash::osc::{msg, Arg, Bundle, Message, Packet, TimeTag};
use arcflash::peer::{Peer, PeerKind};
use std::sync::Arc;

fn peer(kind: PeerKind, name: &str) -> Arc<Peer> {
    Arc::new(Peer {
        name: name.to_owned(),
        kind,
        local_ip: "127.0.0.1".to_owned(),
        local_port: "8000".to_owned(),
        remote_ip: "127.0.0.1".to_owned(),
        remote_port: "9000".to_owned(),
    })
}

fn from_controller(addr: &str, args: Vec<Arg>) -> LabeledMessage {
    LabeledMessage::new(
        peer(PeerKind::Controller, "surface"),
        peer(PeerKind::Instrument, "engine"),
        msg(addr, args),
    )
}

#[test]
fn classification_follows_the_priority_order() {
    assert_eq!(classify_system("/sys/q/system_load"), SysCommand::SystemLoad);
    assert_eq!(classify_system("/sys/q/cpu_speed"), SysCommand::CpuSpeed);
    assert_eq!(classify_system("/sys/q/arcflash"), SysCommand::Arcflash);
    assert_eq!(classify_system("/sys/patchbay/save"), SysCommand::PatchSave);
    assert_eq!(classify_system("/sys/patchbay/load"), SysCommand::PatchLoad);
    assert_eq!(classify_system("/sys/patchbay/check"), SysCommand::PatchCheck);
    assert_eq!(classify_system("/sys/q/nothing"), SysCommand::Unknown);
}

#[test]
fn arcflash_query_replies_true_to_the_sender() {
    let labeled = from_controller("/sys/q/arcflash", vec![]);
    match system_handler(labeled, None) {
        SysOutcome::Reply(m) => {
            assert_eq!(m.message.addr, "/sys/arcflash");
            assert_eq!(m.message.args.len(), 1);
            assert!(matches!(m.message.args[0], Arg::Bool(true)));
            assert_eq!(m.peer_send.name, "surface");
            assert_eq!(m.peer_send.kind, PeerKind::Controller);
        }
        _ => panic!("expected a reply"),
    }
}

#[test]
fn arcflash_reply_is_the_fixed_presence_answer() {
    let labeled = from_controller("/sys/q/arcflash", vec![]);
    let m = arcflash_reply(labeled);
    assert_eq!(m.message.addr, "/sys/arcflash");
    assert!(matches!(m.message.args[0], Arg::Bool(true)));
}

#[test]
fn unknown_system_addresses_get_the_diagnostic_reply() {
    let labeled = from_controller("/sys/other", vec![]);
    match system_handler(labeled, None) {
        SysOutcome::Reply(m) => {
            assert_eq!(m.message.addr, "/sys/debug");
            assert!(matches!(&m.message.args[0], Arg::Str(s) if s == "Unknown address."));
            assert_eq!(m.peer_send.name, "surface");
        }
        _ => panic!("expected a reply"),
    }
    let labeled = from_controller("/sys/other", vec![]);
    let m = unknown_reply(labeled);
    assert!(matches!(&m.message.args[0], Arg::Str(s) if s == "Unknown address."));
}

#[test]
fn load_average_reply_assembles_the_three_readings() {
    let labeled = from_controller("/sys/q/system_load", vec![]);
    let load = LoadText {
        one: "0.52".to_owned(),
        five: "0.40".to_owned(),
        fifteen: "0.35".to_owned(),
    };
    let m = system_load_reply(labeled, &load);
    assert_eq!(m.message.addr, "/sys/system_load");
    assert!(
        matches!(&m.message.args[0], Arg::Str(s) if s == "1 min: 0.52, 5 min: 0.40, 15 min: 0.35")
    );
}

#[test]
fn load_average_failure_falls_through_to_unknown() {
    let labeled = from_controller("/sys/q/system_load", vec![]);
    match system_handler(labeled, None) {
        SysOutcome::Reply(m) => assert_eq!(m.message.addr, "/sys/debug"),
        _ => panic!("expected a reply"),
    }
}

#[test]
fn cpu_speed_reply_formats_the_reading_or_the_failure() {
    let labeled = from_controller("/sys/q/cpu_speed", vec![]);
    let m = cpu_speed_reply(labeled, Ok(2500));
    assert_eq!(m.message.addr, "/sys/cpu_speed");
    assert!(matches!(&m.message.args[0], Arg::Str(s) if s == "2500 mhz"));

    let labeled = from_controller("/sys/q/cpu_speed", vec![]);
    let m = cpu_speed_reply(labeled, Err("cannot read".to_owned()));
    assert!(matches!(&m.message.args[0], Arg::Str(s) if s == "Error: cannot read"));
}

#[test]
fn cpu_speed_query_always_replies() {
    let labeled = from_controller("/sys/q/cpu_speed", vec![]);
    let m = handle_cpu_speed(labeled);
    assert_eq!(m.message.addr, "/sys/cpu_speed");
    assert_eq!(m.message.args.len(), 1);
    assert!(matches!(&m.message.args[0], Arg::Str(_)));
    assert_eq!(m.peer_send.name, "surface");
}

#[test]
fn patchbay_commands_are_handed_on() {
    let labeled = from_controller("/sys/patchbay/save", vec![]);
    match system_handler(labeled, None) {
        SysOutcome::Patchbay(SysCommand::PatchSave, l) => {
            assert_eq!(l.message.addr, "/sys/patchbay/save")
        }
        _ => panic!("expected the patch-bay route"),
    }
}

#[test]
fn file_name_takes_the_last_real_segment() {
    assert_eq!(file_name("/some/path/MyPatch.fxp").as_deref(), Some("MyPatch.fxp"));
    assert_eq!(file_name("MyPatch.fxp").as_deref(), Some("MyPatch.fxp"));
    assert_eq!(file_name("/some/path/").as_deref(), Some("path"));
    assert_eq!(file_name("/"), None);
    assert_eq!(file_name(""), None);
    assert_eq!(file_name("///"), None);
}

#[test]
fn file_name_follows_the_platform_rules_for_dot_segments() {
    // A trailing parent-directory segment means there is no file name.
    assert_eq!(file_name("/a/.."), None);
    assert_eq!(file_name(".."), None);
    assert_eq!(file_name("a/../"), None);
    // Current-directory segments are skipped.
    assert_eq!(file_name("x/.").as_deref(), Some("x"));
    assert_eq!(file_name("x/./.").as_deref(), Some("x"));
    assert_eq!(file_name("."), None);
    assert_eq!(file_name("./"), None);
    // A parent segment in the middle is an ordinary boundary.
    assert_eq!(file_name("a/../b").as_deref(), Some("b"));
    // More dots make an ordinary name.
    assert_eq!(file_name("...").as_deref(), Some("..."));
    assert_eq!(file_name("a/.hidden").as_deref(), Some(".hidden"));
}

#[test]
fn the_patch_extension_needs_a_stem() {
    assert!(has_fxp_ext("lead.fxp"));
    assert!(has_fxp_ext("a.b.fxp"));
    assert!(!has_fxp_ext(".fxp"));
    assert!(!has_fxp_ext("lead.wav"));
    assert!(!has_fxp_ext("fxp"));
    assert!(!has_fxp_ext("lead.fxp2"));
}

#[test]
fn bay_directories_join_base_cache_and_bay() {
    assert_eq!(bay_dir("/home/u/.config", "arcflash", "bay1"), "/home/u/.config/arcflash/bay1/");
    assert_eq!(bay_dir("/home/u/.config", "/arcflash", "bay1"), "/home/u/.config/arcflash/bay1/");
}

#[test]
fn resolving_a_bay_lands_under_the_configuration_directory() {
    let options = Options {
        extend: true,
        dryrun: false,
        patch_cache_path: "arcflash".to_owned(),
    };
    match resolve_bay_dir(&options, "bay1") {
        Ok(dir) => {
            assert!(dir.ends_with("/arcflash/bay1/"));
        }
        Err(TranslationError::NotFound(_)) => {}
        Err(_) => panic!("unexpected error kind"),
    }
}

#[test]
fn bay_arguments_are_validated() {
    let labeled = from_controller("/sys/patchbay/check", vec![Arg::Str("bay1".to_owned())]);
    assert_eq!(get_patchbay(&labeled).as_deref().ok(), Some("bay1"));

    let labeled = from_controller("/sys/patchbay/check", vec![]);
    assert!(matches!(get_patchbay(&labeled), Err(TranslationError::MissingArgument(_))));

    let labeled = from_controller("/sys/patchbay/check", vec![Arg::Int(3)]);
    assert!(matches!(get_patchbay(&labeled), Err(TranslationError::MissingArgument(_))));

    let labeled = from_controller(
        "/sys/patchbay/save",
        vec![Arg::Str("bay1".to_owned()), Arg::Str("/some/path/MyPatch.fxp".to_owned())],
    );
    assert_eq!(get_patchname(&labeled).as_deref().ok(), Some("MyPatch.fxp"));

    let labeled = from_controller("/sys/patchbay/save", vec![Arg::Str("bay1".to_owned())]);
    assert!(matches!(get_patchname(&labeled), Err(TranslationError::MissingArgument(_))));

    let labeled = from_controller(
        "/sys/patchbay/save",
        vec![Arg::Str("bay1".to_owned()), Arg::Str("/".to_owned())],
    );
    assert!(matches!(get_patchname(&labeled), Err(TranslationError::NotFound(_))));

    let labeled = from_controller(
        "/sys/patchbay/save",
        vec![Arg::Str("bay1".to_owned()), Arg::Str("/a/..".to_owned())],
    );
    assert!(matches!(get_patchname(&labeled), Err(TranslationError::NotFound(_))));
}

#[test]
fn load_without_a_bay_argument_is_a_not_found_error() {
    let listing = vec!["lead.fxp".to_owned()];
    let labeled = from_controller("/sys/patchbay/load", vec![]);
    assert!(matches!(
        load_patch(labeled, "/home/u/.config/arcflash/bay1/", &listing),
        Err(TranslationError::NotFound(_))
    ));
    let labeled = from_controller("/sys/patchbay/load", vec![Arg::Int(1)]);
    assert!(matches!(
        load_patch(labeled, "/home/u/.config/arcflash/bay1/", &listing),
        Err(TranslationError::NotFound(_))
    ));
}

#[test]
fn check_on_an_empty_bay_is_false_and_after_a_save_true() {
    // An empty (or never created) bay holds no patch.
    let labeled = from_controller("/sys/patchbay/check", vec![Arg::Str("bay1".to_owned())]);
    let mut bay: Vec<String> = vec![];
    let reply = check_patchbay(labeled, &bay).unwrap();
    assert_eq!(reply.message.addr, "/sys/patchbay/check/bay1");
    assert!(matches!(reply.message.args[0], Arg::Bool(false)));
    assert_eq!(reply.peer_send.name, "surface");

    // A save clears the bay and instructs the instrument to write the patch.
    let labeled = from_controller(
        "/sys/patchbay/save",
        vec![Arg::Str("bay1".to_owned()), Arg::Str("/tmp/patches/lead.fxp".to_owned())],
    );
    let dir = bay_dir("/home/u/.config", "arcflash", "bay1");
    let cleared = fxp_entries(&bay);
    assert!(cleared.is_empty());
    let instruction = save_patch(labeled, &dir).unwrap();
    assert_eq!(instruction.message.addr, "/patch/save");
    let saved_path = match &instruction.message.args[0] {
        Arg::Str(s) => s.clone(),
        _ => panic!("expected a string path"),
    };
    assert_eq!(saved_path, "/home/u/.config/arcflash/bay1/lead.fxp");

    // The instrument persists the patch; the bay now holds the file.
    bay.push("lead.fxp".to_owned());
    let labeled = from_controller("/sys/patchbay/check", vec![Arg::Str("bay1".to_owned())]);
    let reply = check_patchbay(labeled, &bay).unwrap();
    assert!(matches!(reply.message.args[0], Arg::Bool(true)));
}

#[test]
fn save_emits_the_instruction_path_under_the_bay() {
    let labeled = from_controller(
        "/sys/patchbay/save",
        vec![Arg::Str("bay1".to_owned()), Arg::Str("/some/path/MyPatch.fxp".to_owned())],
    );
    let dir = bay_dir("/home/u/.config", "arcflash", "bay1");
    let instruction = save_patch(labeled, &dir).unwrap();
    assert_eq!(instruction.message.addr, "/patch/save");
    assert!(matches!(
        &instruction.message.args[0],
        Arg::Str(s) if s.ends_with("bay1/MyPatch.fxp")
    ));
    assert_eq!(instruction.peer_send.name, "engine");
}

#[test]
fn load_uses_the_first_patch_stem_and_misses_cleanly() {
    let labeled = from_controller("/sys/patchbay/load", vec![Arg::Str("bay1".to_owned())]);
    let listing = vec!["notes.txt".to_owned(), "lead.fxp".to_owned(), "pad.fxp".to_owned()];
    let instruction = load_patch(labeled, "/home/u/.config/arcflash/bay1/", &listing).unwrap();
    assert_eq!(instruction.message.addr, "/patch/load");
    assert!(matches!(
        &instruction.message.args[0],
        Arg::Str(s) if s == "/home/u/.config/arcflash/bay1/lead"
    ));

    let labeled = from_controller("/sys/patchbay/load", vec![Arg::Str("bay1".to_owned())]);
    let empty: Vec<String> = vec![];
    assert!(matches!(
        load_patch(labeled, "/home/u/.config/arcflash/bay1/", &empty),
        Err(TranslationError::NotFound(_))
    ));
}

#[test]
fn fxp_entries_picks_exactly_the_patch_files() {
    let listing = vec![
        "notes.txt".to_owned(),
        "lead.fxp".to_owned(),
        ".fxp".to_owned(),
        "pad.fxp".to_owned(),
    ];
    let found = fxp_entries(&listing);
    assert_eq!(found, vec!["lead.fxp".to_owned(), "pad.fxp".to_owned()]);
    assert_eq!(find_fxp(&listing), Some(1));
    let none: Vec<String> = vec!["a.wav".to_owned()];
    assert_eq!(find_fxp(&none), None);
}

#[test]
fn dryrun_never_plans_a_send() {
    let options = Options { extend: true, dryrun: true, patch_cache_path: "p".to_owned() };
    let recv = peer(PeerKind::Controller, "surface");
    let send = peer(PeerKind::Instrument, "engine");
    let packet = Packet::Bundle(Bundle {
        timetag: TimeTag { seconds: 0, fractional: 1 },
        content: vec![
            Packet::Message(msg("/a", vec![Arg::Int(1)])),
            Packet::Message(msg("/sys/q/arcflash", vec![])),
            Packet::Bundle(Bundle {
                timetag: TimeTag { seconds: 0, fractional: 1 },
                content: vec![Packet::Message(msg("/b", vec![]))],
            }),
        ],
    });
    let plans = packet_sorter(&options, &recv, &send, packet);
    assert_eq!(plans.len(), 3);
    for plan in plans.iter() {
        assert!(matches!(plan, MessagePlan::Count));
    }
}

#[test]
fn plans_follow_the_options() {
    let recv = peer(PeerKind::Controller, "surface");
    let send = peer(PeerKind::Instrument, "engine");

    let options = Options { extend: false, dryrun: false, patch_cache_path: "p".to_owned() };
    let packet = Packet::Message(msg("/a", vec![Arg::Int(1)]));
    let plans = packet_sorter(&options, &recv, &send, packet);
    assert_eq!(plans.len(), 1);
    match &plans[0] {
        MessagePlan::Forward(m) => assert_eq!(m.addr, "/a"),
        _ => panic!("expected a plain forward"),
    }

    let options = Options { extend: true, dryrun: false, patch_cache_path: "p".to_owned() };
    let packet = Packet::Message(msg("/a", vec![Arg::Int(1)]));
    let plans = packet_sorter(&options, &recv, &send, packet);
    match &plans[0] {
        MessagePlan::Extend(l) => {
            assert_eq!(l.message.addr, "/a");
            assert_eq!(l.peer_recv.name, "surface");
            assert_eq!(l.peer_send.name, "engine");
        }
        _ => panic!("expected a labeled message"),
    }
}

#[test]
fn peer_addresses_join_ip_and_port() {
    let p = peer(PeerKind::Controller, "surface");
    assert_eq!(p.local_addr(), "127.0.0.1:8000");
    assert_eq!(p.remote_addr(), "127.0.0.1:9000");
    assert_eq!(p.kind.label(), "Controller");
    let q = p.duplicate();
    assert_eq!(q.name, "surface");
}
