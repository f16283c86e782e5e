//! The reserved system namespace: diagnostics queries answered back to the
//! sender, and patch-bay commands handed on to the patch-bay manager. A
//! system message is never forwarded unmodified.

use crate::extension::TranslationError;
use crate::labeler::{share_peer, LabeledMessage};
use crate::osc::{Arg, Message};
use crate::text::{spec_decimal, starts_with_seq, starts_with_sub, u64_to_string};
use vstd::prelude::*;

verus! {

broadcast use vstd::seq::group_seq_axioms;

/// The system sub-command an address selects, by the first matching
/// address prefix, in a fixed priority order.
#[derive(Clone, Copy, Debug, PartialEq, Eq, Structural)]
pub enum SysCommand {
    SystemLoad,
    CpuSpeed,
    Arcflash,
    PatchSave,
    PatchLoad,
    PatchCheck,
    Unknown,
}

/// Which system sub-command the address selects.
pub open spec fn spec_classify(addr: Seq<char>) -> SysCommand {
    if starts_with_seq(addr, "/sys/q/system_load"@) {
        SysCommand::SystemLoad
    } else if starts_with_seq(addr, "/sys/q/cpu_speed"@) {
        SysCommand::CpuSpeed
    } else if starts_with_seq(addr, "/sys/q/arcflash"@) {
        SysCommand::Arcflash
    } else if starts_with_seq(addr, "/sys/patchbay/save"@) {
        SysCommand::PatchSave
    } else if starts_with_seq(addr, "/sys/patchbay/load"@) {
        SysCommand::PatchLoad
    } else if starts_with_seq(addr, "/sys/patchbay/check"@) {
        SysCommand::PatchCheck
    } else {
        SysCommand::Unknown
    }
}

/// Classifies a system address, exactly as `spec_classify` states.
pub fn classify_system(addr: &str) -> (c: SysCommand)
    ensures
        c == spec_classify(addr@),
{
    if starts_with_sub(addr, "/sys/q/system_load") {
        SysCommand::SystemLoad
    } else if starts_with_sub(addr, "/sys/q/cpu_speed") {
        SysCommand::CpuSpeed
    } else if starts_with_sub(addr, "/sys/q/arcflash") {
        SysCommand::Arcflash
    } else if starts_with_sub(addr, "/sys/patchbay/save") {
        SysCommand::PatchSave
    } else if starts_with_sub(addr, "/sys/patchbay/load") {
        SysCommand::PatchLoad
    } else if starts_with_sub(addr, "/sys/patchbay/check") {
        SysCommand::PatchCheck
    } else {
        SysCommand::Unknown
    }
}

/// The reply carries the given address and single argument, and goes back to
/// the peer the request came from.
pub open spec fn spec_reply(labeled: LabeledMessage, r: LabeledMessage, addr: Seq<char>) -> bool {
    &&& r.peer_recv == labeled.peer_recv
    &&& r.peer_send == labeled.peer_recv
    &&& r.message.addr@ == addr
    &&& r.message.args@.len() == 1
}

/// A reply to the sender whose single argument is the given text.
pub open spec fn spec_str_reply(
    labeled: LabeledMessage,
    r: LabeledMessage,
    addr: Seq<char>,
    text: Seq<char>,
) -> bool {
    &&& spec_reply(labeled, r, addr)
    &&& r.message.args@[0] is Str
    &&& r.message.args@[0]->Str_0@ == text
}

/// A reply to the sender whose single argument is the given truth value.
pub open spec fn spec_bool_reply(
    labeled: LabeledMessage,
    r: LabeledMessage,
    addr: Seq<char>,
    value: bool,
) -> bool {
    &&& spec_reply(labeled, r, addr)
    &&& r.message.args@[0] == Arg::Bool(value)
}

/// Builds the reply to a system request: the given address and single
/// argument, addressed back to the peer the request came from.
pub fn build_return_message(labeled: LabeledMessage, addr: String, content: Arg) -> (r:
    LabeledMessage)
    ensures
        r.peer_recv == labeled.peer_recv,
        r.peer_send == labeled.peer_recv,
        r.message.addr == addr,
        r.message.args@ == seq![content],
{
    let peer_send = share_peer(&labeled.peer_recv);
    let mut args: Vec<Arg> = Vec::new();
    args.push(content);
    proof {
        assert(args@ =~= seq![content]);
    }
    LabeledMessage { message: Message { addr, args }, peer_recv: labeled.peer_recv, peer_send }
}

/// The relay-presence reply: the fixed address and the single argument
/// `true`, unconditionally, back to the sender.
pub fn arcflash_reply(labeled: LabeledMessage) -> (r: LabeledMessage)
    ensures
        spec_bool_reply(labeled, r, "/sys/arcflash"@, true),
{
    build_return_message(labeled, "/sys/arcflash".to_owned(), Arg::Bool(true))
}

/// The unknown-address diagnostic reply, back to the sender.
pub fn unknown_reply(labeled: LabeledMessage) -> (r: LabeledMessage)
    ensures
        spec_str_reply(labeled, r, "/sys/debug"@, "Unknown address."@),
{
    build_return_message(
        labeled,
        "/sys/debug".to_owned(),
        Arg::Str("Unknown address.".to_owned()),
    )
}

/// The 1/5/15-minute load averages, each already formatted as text.
pub struct LoadText {
    pub one: String,
    pub five: String,
    pub fifteen: String,
}

/// The text of the load-average reply.
pub open spec fn spec_load_text(one: Seq<char>, five: Seq<char>, fifteen: Seq<char>) -> Seq<char> {
    "1 min: "@ + one + ", 5 min: "@ + five + ", 15 min: "@ + fifteen
}

/// The load-average reply: the three formatted averages in one string,
/// back to the sender.
pub fn system_load_reply(labeled: LabeledMessage, load: &LoadText) -> (r: LabeledMessage)
    ensures
        spec_str_reply(
            labeled,
            r,
            "/sys/system_load"@,
            spec_load_text(load.one@, load.five@, load.fifteen@),
        ),
{
    let mut text = "1 min: ".to_owned();
    text.append(load.one.as_str());
    text.append(", 5 min: ");
    text.append(load.five.as_str());
    text.append(", 15 min: ");
    text.append(load.fifteen.as_str());
    build_return_message(labeled, "/sys/system_load".to_owned(), Arg::Str(text))
}

/// What the processor-speed reply says for a given reading: the speed in
/// MHz as text, or a description of the failure; either way it goes back to
/// the sender.
pub open spec fn cpu_reply_post(
    labeled: LabeledMessage,
    speed: Result<u64, String>,
    r: LabeledMessage,
) -> bool {
    match speed {
        Ok(mhz) => spec_str_reply(labeled, r, "/sys/cpu_speed"@, spec_decimal(mhz as int) + " mhz"@),
        Err(e) => spec_str_reply(labeled, r, "/sys/cpu_speed"@, "Error: "@ + e@),
    }
}

/// The processor-speed reply for one reading, exactly as `cpu_reply_post`
/// states.
pub fn cpu_speed_reply(labeled: LabeledMessage, speed: Result<u64, String>) -> (r: LabeledMessage)
    ensures
        cpu_reply_post(labeled, speed, r),
{
    let text = match speed {
        Ok(mhz) => u64_to_string(mhz).concat(" mhz"),
        Err(e) => {
            let mut t = "Error: ".to_owned();
            t.append(e.as_str());
            t
        },
    };
    build_return_message(labeled, "/sys/cpu_speed".to_owned(), Arg::Str(text))
}

/// Relies on `sys_info::cpu_speed`: the current processor speed in MHz read
/// from the running system, or a description of why it cannot be read.
#[verifier::external_body]
fn cpu_speed_mhz() -> (r: Result<u64, String>) {
    sys_info::cpu_speed().map_err(|e| e.to_string())
}

/// Reads the processor speed and builds the reply: whatever the reading
/// was, the reply describes it as `cpu_reply_post` states.
pub fn handle_cpu_speed(labeled: LabeledMessage) -> (r: LabeledMessage)
    ensures
        exists|speed: Result<u64, String>| cpu_reply_post(labeled, speed, r),
{
    let ghost l = labeled;
    let speed = cpu_speed_mhz();
    let ghost sp = speed;
    let r = cpu_speed_reply(labeled, speed);
    proof {
        assert(cpu_reply_post(l, sp, r));
    }
    r
}

/// What the system handler produced: a finished reply, or a patch-bay
/// command that still needs the filesystem.
pub enum SysOutcome {
    Reply(LabeledMessage),
    Patchbay(SysCommand, LabeledMessage),
}

/// Handles a message in the reserved system namespace: diagnostics queries
/// are answered on the spot (the load averages, which only the caller can
/// read, are taken as an argument; a missing reading falls through to the
/// unknown-address reply); patch-bay commands are handed back for the
/// filesystem steps.
pub fn system_handler(labeled: LabeledMessage, load: Option<&LoadText>) -> (r: SysOutcome)
    ensures
        ({
            let cmd = spec_classify(labeled.message.addr@);
            match cmd {
                SysCommand::SystemLoad => match load {
                    Some(l) => (r matches SysOutcome::Reply(m) && spec_str_reply(
                        labeled,
                        m,
                        "/sys/system_load"@,
                        spec_load_text(l.one@, l.five@, l.fifteen@),
                    )),
                    None => (r matches SysOutcome::Reply(m) && spec_str_reply(
                        labeled,
                        m,
                        "/sys/debug"@,
                        "Unknown address."@,
                    )),
                },
                SysCommand::CpuSpeed => (r matches SysOutcome::Reply(m) && exists|speed:
                    Result<u64, String>| cpu_reply_post(labeled, speed, m)),
                SysCommand::Arcflash => (r matches SysOutcome::Reply(m) && spec_bool_reply(
                    labeled,
                    m,
                    "/sys/arcflash"@,
                    true,
                )),
                SysCommand::Unknown => (r matches SysOutcome::Reply(m) && spec_str_reply(
                    labeled,
                    m,
                    "/sys/debug"@,
                    "Unknown address."@,
                )),
                _ => r == SysOutcome::Patchbay(cmd, labeled),
            }
        }),
{
    let cmd = classify_system(labeled.message.addr.as_str());
    match cmd {
        SysCommand::SystemLoad => match load {
            Some(l) => SysOutcome::Reply(system_load_reply(labeled, l)),
            None => SysOutcome::Reply(unknown_reply(labeled)),
        },
        SysCommand::CpuSpeed => SysOutcome::Reply(handle_cpu_speed(labeled)),
        SysCommand::Arcflash => SysOutcome::Reply(arcflash_reply(labeled)),
        SysCommand::Unknown => SysOutcome::Reply(unknown_reply(labeled)),
        _ => SysOutcome::Patchbay(cmd, labeled),
    }
}

} // verus!
